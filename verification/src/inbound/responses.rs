//! Response envelopes shared across the HTTP API.

use vstd::prelude::*;

verus! {

/// A response body together with the status code it is sent under.
#[derive(Debug)]
pub struct ResponseBody<T> {
    pub status_code: u16,
    pub data: T,
}

/// The data of a failed response.
#[derive(Debug)]
pub struct ErrorResponseData {
    pub message: String,
}

} // verus!
