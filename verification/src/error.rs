//! The errors of the service, and what each looks like to a client.

use vstd::prelude::*;
use vstd::string::*;

verus! {

/// What can go wrong with a request to the service.
#[derive(Debug, Clone, PartialEq, Eq)]
pub enum AppError {
    NotFound(String),
    BadRequest(String),
    InternalError(String),
    Unauthorized(String),
}

/// What a client is told of an error: the HTTP status, the kind of error in
/// capitals, and a message.
#[derive(Debug, Clone, PartialEq, Eq)]
pub struct ErrorReport {
    pub status: u16,
    pub error: String,
    pub message: String,
}

impl AppError {
    /// The message that the error carries.
    pub open spec fn detail(self) -> Seq<char> {
        match self {
            AppError::NotFound(message) => message@,
            AppError::BadRequest(message) => message@,
            AppError::InternalError(message) => message@,
            AppError::Unauthorized(message) => message@,
        }
    }

    /// The words that stand before the message when the error is written out.
    pub open spec fn label(self) -> Seq<char> {
        match self {
            AppError::NotFound(_) => "Not Found: "@,
            AppError::BadRequest(_) => "Bad Request: "@,
            AppError::InternalError(_) => "Internal Error: "@,
            AppError::Unauthorized(_) => "Unauthorized: "@,
        }
    }

    /// The HTTP status that goes with the error.
    pub open spec fn spec_status(self) -> u16 {
        match self {
            AppError::NotFound(_) => 404,
            AppError::BadRequest(_) => 400,
            AppError::InternalError(_) => 500,
            AppError::Unauthorized(_) => 401,
        }
    }

    /// The kind of the error, in capitals.
    pub open spec fn spec_kind(self) -> Seq<char> {
        match self {
            AppError::NotFound(_) => "NOT_FOUND"@,
            AppError::BadRequest(_) => "BAD_REQUEST"@,
            AppError::InternalError(_) => "INTERNAL_SERVER_ERROR"@,
            AppError::Unauthorized(_) => "UNAUTHORIZED"@,
        }
    }

    /// The message that a client gets to see. What went wrong inside the
    /// service is not told.
    pub open spec fn public_message(self) -> Seq<char> {
        match self {
            AppError::InternalError(_) => "An internal error occurred"@,
            _ => self.detail(),
        }
    }

    /// The error written out: what kind it is, a colon, and its message.
    pub fn to_string(&self) -> (text: String)
        ensures
            text@ == self.label() + self.detail(),
    {
        match self {
            AppError::NotFound(message) => "Not Found: ".to_owned().concat(message.as_str()),
            AppError::BadRequest(message) => "Bad Request: ".to_owned().concat(message.as_str()),
            AppError::InternalError(message) => "Internal Error: ".to_owned().concat(
                message.as_str(),
            ),
            AppError::Unauthorized(message) => "Unauthorized: ".to_owned().concat(
                message.as_str(),
            ),
        }
    }

    /// The HTTP status that goes with the error.
    pub fn status(&self) -> (status: u16)
        ensures
            status == self.spec_status(),
    {
        match self {
            AppError::NotFound(_) => 404,
            AppError::BadRequest(_) => 400,
            AppError::InternalError(_) => 500,
            AppError::Unauthorized(_) => 401,
        }
    }

    /// What a client is told of the error.
    pub fn into_report(self) -> (report: ErrorReport)
        ensures
            report.status == self.spec_status(),
            report.error@ == self.spec_kind(),
            report.message@ == self.public_message(),
    {
        let status = self.status();
        match self {
            AppError::NotFound(message) => ErrorReport {
                status,
                error: "NOT_FOUND".to_owned(),
                message,
            },
            AppError::BadRequest(message) => ErrorReport {
                status,
                error: "BAD_REQUEST".to_owned(),
                message,
            },
            AppError::InternalError(_) => ErrorReport {
                status,
                error: "INTERNAL_SERVER_ERROR".to_owned(),
                message: "An internal error occurred".to_owned(),
            },
            AppError::Unauthorized(message) => ErrorReport {
                status,
                error: "UNAUTHORIZED".to_owned(),
                message,
            },
        }
    }
}

} // verus!
