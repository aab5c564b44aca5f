//! The envelope of every API response: data on success, an error code and
//! message otherwise.

use vstd::prelude::*;

use crate::text::owned;

verus! {

/// API error details.
#[derive(Debug)]
pub struct ApiError {
    /// Error code (e.g. `SERVICE_NOT_FOUND`).
    pub code: String,
    /// Human-readable error message.
    pub message: String,
    /// Additional error details, as JSON text.
    pub details: Option<String>,
}

/// Standard API response wrapper: the data of a success, or the details
/// of an error.
#[derive(Debug)]
pub enum ApiResponse<T> {
    /// Successful response.
    Success {
        /// Response data.
        data: T,
    },
    /// Error response.
    Error {
        /// Error details.
        error: ApiError,
    },
}

/// The response is an error with this code and message and no details.
pub open spec fn is_error<T>(r: ApiResponse<T>, code: Seq<char>, message: Seq<char>) -> bool {
    r matches ApiResponse::Error { error } && error.code@ == code && error.message@ == message
        && error.details is None
}

impl<T> ApiResponse<T> {
    /// A success response with the given data.
    pub fn success(data: T) -> (r: Self)
        ensures
            r == (ApiResponse::<T>::Success { data }),
    {
        ApiResponse::Success { data }
    }

    /// An error response with a code and a message and no details.
    pub fn typed_error(code: &str, message: String) -> (r: Self)
        ensures
            is_error(r, code@, message@),
    {
        ApiResponse::Error { error: ApiError { code: owned(code), message, details: None } }
    }

    /// Whether the response is a success.
    pub fn is_success(&self) -> (r: bool)
        ensures
            r == (self is Success),
    {
        match self {
            ApiResponse::Success { .. } => true,
            ApiResponse::Error { .. } => false,
        }
    }
}

impl ApiResponse<()> {
    /// An error response with a code and a message and no details.
    pub fn error(code: &str, message: &str) -> (r: Self)
        ensures
            is_error(r, code@, message@),
    {
        ApiResponse::Error { error: ApiError { code: owned(code), message: owned(message), details: None } }
    }

    /// An error response with a code, a message, and details (JSON text).
    pub fn error_with_details(code: &str, message: &str, details: String) -> (r: Self)
        ensures
            r matches ApiResponse::Error { error } && error.code@ == code@ && error.message@ == message@
                && error.details == Some(details),
    {
        ApiResponse::Error { error: ApiError { code: owned(code), message: owned(message), details: Some(details) } }
    }
}

} // verus!
