//! Core of an A/B experiment system: validated experiment variants with
//! percentage weights, deterministic hash-based assignment of identities to
//! variants, experiment lifecycle, and participation statistics.
//!
//! Weights and percentages are held in fixed point, as thousandths of a
//! percent, so that validation, bucketing and statistics are exact integer
//! computations: `75_000` units stand for 75%.

pub mod config;
pub mod domain;
pub mod hashing;
pub mod ids;
pub mod inbound;
pub mod text;
