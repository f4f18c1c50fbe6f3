//! Deterministic scoring of identity strings.
//!
//! An identity is hashed with SHA-256; the first 8 bytes of the digest, read
//! as a big-endian unsigned 64-bit integer, are the identity's raw score.
//! The same identity always yields the same score, across processes and over
//! time, which is what makes variant assignment reproducible.

use vstd::prelude::*;

use sha2::Digest;

verus! {

/// The SHA-256 digest of the UTF-8 encoding of a character sequence.
pub uninterp spec fn sha256_of(s: Seq<char>) -> Seq<u8>;

/// Relies on sha2::Sha256 (through the Digest trait): the digest has 32
/// bytes and depends on the input bytes alone.
#[verifier::external_body]
fn sha256_digest(input: &str) -> (r: Vec<u8>)
    ensures
        r@ == sha256_of(input@),
        r@.len() == 32,
{
    let mut hasher = sha2::Sha256::new();
    hasher.update(input.as_bytes());
    hasher.finalize().to_vec()
}

/// The value of a byte sequence read as a big-endian unsigned integer.
pub open spec fn be_value(bytes: Seq<u8>) -> nat
    decreases bytes.len(),
{
    if bytes.len() == 0 {
        0
    } else {
        be_value(bytes.drop_last()) * 256 + bytes.last() as nat
    }
}

/// 256 raised to the `n`th power.
pub open spec fn pow256(n: nat) -> nat
    decreases n,
{
    if n == 0 {
        1
    } else {
        256 * pow256((n - 1) as nat)
    }
}

/// A big-endian value is bounded by 256 to the number of its bytes.
pub proof fn lemma_be_value_bound(bytes: Seq<u8>)
    ensures
        be_value(bytes) < pow256(bytes.len()),
    decreases bytes.len(),
{
    if bytes.len() > 0 {
        lemma_be_value_bound(bytes.drop_last());
    }
}

/// The raw score of an identity: the first 8 digest bytes, big-endian.
pub open spec fn identity_score(s: Seq<char>) -> nat {
    be_value(sha256_of(s).take(8))
}

/// Computes the raw score of an identity string.
pub fn hash_score(input: &str) -> (h: u64)
    ensures
        h as nat == identity_score(input@),
{
    let digest = sha256_digest(input);
    let mut h: u64 = 0;
    let mut i: usize = 0;
    while i < 8
        invariant
            i <= 8,
            digest@.len() == 32,
            digest@ == sha256_of(input@),
            h as nat == be_value(digest@.take(i as int)),
            h < pow256(i as nat),
        decreases 8 - i,
    {
        proof {
            assert(digest@.take(i + 1).drop_last() =~= digest@.take(i as int));
            assert(digest@.take(i + 1).last() == digest@[i as int]);
            assert(pow256(8) == 0x1_0000_0000_0000_0000) by {
                reveal_with_fuel(pow256, 9);
            }
            assert(pow256(i as nat) * 256 <= pow256(8)) by {
                lemma_pow256_monotonic((i + 1) as nat, 8);
            }
        }
        h = h * 256 + (digest[i] as u64);
        i = i + 1;
    }
    proof {
        assert(digest@.take(8) =~= sha256_of(input@).take(8));
    }
    h
}

/// 256 to a smaller power divides into 256 to a larger one.
proof fn lemma_pow256_monotonic(m: nat, n: nat)
    requires
        m <= n,
    ensures
        pow256(m) <= pow256(n),
    decreases n,
{
    if m < n && n > 0 {
        lemma_pow256_monotonic(m, (n - 1) as nat);
    }
}

} // verus!
