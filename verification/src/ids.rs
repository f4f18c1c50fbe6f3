//! UUIDs as plain 128-bit values.
//!
//! The library holds a UUID as the big-endian 128-bit value of its bytes;
//! the nil UUID is the value zero. Parsing text into such a value and
//! rendering one back are the uuid crate's work, behind trusted wrappers.

use vstd::prelude::*;

verus! {

/// The 128-bit value of the UUID that a character sequence denotes, or
/// `None` where it denotes no UUID.
pub uninterp spec fn parsed_uuid(s: Seq<char>) -> Option<u128>;

/// The canonical hyphenated lowercase text of a UUID value.
pub uninterp spec fn uuid_text(u: u128) -> Seq<char>;

/// Relies on uuid::Uuid::try_parse and Uuid::as_u128: whether a string
/// denotes a UUID, and which value it denotes, depend on the characters
/// alone; the nil UUID has the value zero.
#[verifier::external_body]
pub(crate) fn parse_uuid(raw: &str) -> (r: Option<u128>)
    ensures
        r == parsed_uuid(raw@),
{
    match uuid::Uuid::try_parse(raw) {
        Ok(u) => Some(u.as_u128()),
        Err(_) => None,
    }
}

/// Relies on uuid::Uuid::from_u128 and the Display impl of uuid::Uuid: the
/// hyphenated lowercase text is a function of the value alone.
#[verifier::external_body]
pub(crate) fn uuid_to_string(u: u128) -> (r: String)
    ensures
        r@ == uuid_text(u),
{
    uuid::Uuid::from_u128(u).to_string()
}

} // verus!
