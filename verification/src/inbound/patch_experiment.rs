//! Request and response shapes of the finish transition.

use vstd::prelude::*;

use crate::domain::experiment::FinishExperimentError;
use crate::ids;

verus! {

/// How a failed finish request is reported to the transport layer.
#[derive(Debug)]
pub enum ApiError {
    InternalServerError(String),
    NotFound(String),
    Conflict(String),
    Unauthorized,
    Forbidden,
}

impl ApiError {
    /// Maps a finish failure: an unknown id is not found, a double finish
    /// is a conflict, an unknown storage failure is internal.
    pub fn from_finish_experiment_error(e: FinishExperimentError) -> (r: Self)
        ensures
            e matches FinishExperimentError::NotFound { id } ==> (r matches ApiError::NotFound(m)
                && m@ == "experiment with id "@ + ids::uuid_text(id) + " not found"@),
            e matches FinishExperimentError::Finished { id } ==> (r matches ApiError::Conflict(m)
                && m@ == "experiment with id "@ + ids::uuid_text(id) + " is already finished"@),
            e is Unknown ==> (r matches ApiError::InternalServerError(m) && m@
                == "Internal server error"@),
    {
        match e {
            FinishExperimentError::NotFound { id } => {
                let m = String::from_str("experiment with id ").concat(
                    ids::uuid_to_string(id).as_str(),
                ).concat(" not found");
                ApiError::NotFound(m)
            },
            FinishExperimentError::Finished { id } => {
                let m = String::from_str("experiment with id ").concat(
                    ids::uuid_to_string(id).as_str(),
                ).concat(" is already finished");
                ApiError::Conflict(m)
            },
            FinishExperimentError::Unknown(_) => ApiError::InternalServerError(
                String::from_str("Internal server error"),
            ),
        }
    }
}

/// The body of every successful response.
#[derive(Debug)]
pub struct ApiResponseBody<T> {
    pub data: T,
}

impl<T> ApiResponseBody<T> {
    pub fn new(data: T) -> (r: Self)
        ensures
            r.data == data,
    {
        ApiResponseBody { data }
    }
}

impl ApiResponseBody<ApiErrorData> {
    pub fn new_error(message: String) -> (r: Self)
        ensures
            r.data.message@ == message@,
    {
        ApiResponseBody { data: ApiErrorData { message } }
    }
}

/// The body of every failed response.
#[derive(Debug)]
pub struct ApiErrorData {
    pub message: String,
}

/// A creation request reduced to its name.
#[derive(Debug)]
pub struct CreateExperimentRequestBody {
    pub name: String,
}

/// The response to a successful finish: the experiment's id.
#[derive(Debug)]
pub struct PatchExperimentResponseData {
    pub id: String,
}

impl PatchExperimentResponseData {
    pub fn from(id: u128) -> (r: Self)
        ensures
            r.id@ == ids::uuid_text(id),
    {
        PatchExperimentResponseData { id: ids::uuid_to_string(id) }
    }
}

/// The body of a finish request: the requested lifecycle state.
#[derive(Debug)]
pub struct PatchExperimentHttpRequestBody {
    pub status: ExperimentStatusHttpRequest,
}

/// The lifecycle states a request may ask for; only finishing exists.
#[derive(Debug, Clone, Copy, PartialEq, Eq, Structural)]
pub enum ExperimentStatusHttpRequest {
    Finished,
}

} // verus!
