//! The request- and response-shaped types of the HTTP API, and the pure
//! conversions between them and the domain. The transport itself (routing,
//! serialization, status codes on the wire) lives outside the library.

pub mod create_experiment;
pub mod get_experiments;
pub mod get_statistics;
pub mod patch_experiment;
pub mod responses;

use vstd::prelude::*;

verus! {

/// The configuration of the HTTP server around the library.
#[derive(Debug, Clone, Copy, PartialEq, Eq)]
pub struct HttpServerConfig<'a> {
    pub port: &'a str,
    pub auth_token: &'a str,
}

} // verus!
