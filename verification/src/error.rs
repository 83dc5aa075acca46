//! The failures a client can be shown, and the HTTP status of each.

use vstd::prelude::*;

verus! {

/// The JSON body sent with every failure: `{ "error": <message> }`.
#[derive(Debug, Clone, PartialEq, Eq)]
pub struct ErrorResponse {
    pub error: String,
}

/// A failure as the client sees it. Each variant carries the message of the
/// response body and stands for one HTTP status.
#[derive(Debug, Clone, PartialEq, Eq)]
pub enum AppError {
    BadRequest(String),
    _Unauthorized(String),
    _Forbidden(String),
    NotFound(String),
    Conflict(String),
    Internal(String),
    _ServiceUnavailable(String),
}

impl AppError {
    /// The HTTP status that stands for this failure.
    pub open spec fn spec_status(&self) -> u16 {
        match self {
            AppError::BadRequest(_) => 400,
            AppError::_Unauthorized(_) => 401,
            AppError::_Forbidden(_) => 403,
            AppError::NotFound(_) => 404,
            AppError::Conflict(_) => 409,
            AppError::Internal(_) => 500,
            AppError::_ServiceUnavailable(_) => 503,
        }
    }

    /// The message carried by this failure.
    pub open spec fn spec_message(&self) -> String {
        match self {
            AppError::BadRequest(msg) => *msg,
            AppError::_Unauthorized(msg) => *msg,
            AppError::_Forbidden(msg) => *msg,
            AppError::NotFound(msg) => *msg,
            AppError::Conflict(msg) => *msg,
            AppError::Internal(msg) => *msg,
            AppError::_ServiceUnavailable(msg) => *msg,
        }
    }

    pub fn status_code(&self) -> (code: u16)
        ensures
            code == self.spec_status(),
    {
        match self {
            AppError::BadRequest(_) => 400,
            AppError::_Unauthorized(_) => 401,
            AppError::_Forbidden(_) => 403,
            AppError::NotFound(_) => 404,
            AppError::Conflict(_) => 409,
            AppError::Internal(_) => 500,
            AppError::_ServiceUnavailable(_) => 503,
        }
    }

    pub fn message(&self) -> (msg: &String)
        ensures
            *msg == self.spec_message(),
    {
        match self {
            AppError::BadRequest(msg) => msg,
            AppError::_Unauthorized(msg) => msg,
            AppError::_Forbidden(msg) => msg,
            AppError::NotFound(msg) => msg,
            AppError::Conflict(msg) => msg,
            AppError::Internal(msg) => msg,
            AppError::_ServiceUnavailable(msg) => msg,
        }
    }

    /// Splits the failure into the status line and the body of its response.
    pub fn into_response(self) -> (parts: (u16, ErrorResponse))
        ensures
            parts.0 == self.spec_status(),
            parts.1.error == self.spec_message(),
    {
        let status = self.status_code();
        let msg = match self {
            AppError::BadRequest(msg) => msg,
            AppError::_Unauthorized(msg) => msg,
            AppError::_Forbidden(msg) => msg,
            AppError::NotFound(msg) => msg,
            AppError::Conflict(msg) => msg,
            AppError::Internal(msg) => msg,
            AppError::_ServiceUnavailable(msg) => msg,
        };
        (status, ErrorResponse { error: msg })
    }
}

} // verus!
