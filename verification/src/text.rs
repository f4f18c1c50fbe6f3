//! Text helpers that lean on std where vstd gives no specification.

use vstd::prelude::*;

verus! {

/// A character sequence with its leading and trailing whitespace removed.
pub uninterp spec fn trimmed(s: Seq<char>) -> Seq<char>;

/// Relies on str::trim: the result is the input without leading and
/// trailing whitespace, and depends on the characters alone.
#[verifier::external_body]
pub(crate) fn trim_str(raw: &str) -> (r: String)
    ensures
        r@ == trimmed(raw@),
{
    raw.trim().to_string()
}

} // verus!
