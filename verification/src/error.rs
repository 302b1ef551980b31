//! The error that every request rule reports.

use vstd::prelude::*;
use vstd::string::*;

verus! {

/// Why a request was refused.
#[derive(Debug, PartialEq, Eq)]
pub enum ApiError {
    /// The request was malformed; the text says how.
    InvalidInput(String),
    /// Something on the server side failed.
    InternalError,
    /// The caller could not be authenticated.
    Unauthorized,
    /// The addressed resource does not exist (for this caller).
    NotFound,
    /// The caller may not touch the addressed resource.
    Forbidden,
}

impl ApiError {
    /// This error is `InvalidInput` carrying the text `msg`.
    pub open spec fn is_invalid_input(self, msg: Seq<char>) -> bool {
        self matches ApiError::InvalidInput(m) && m@ == msg
    }

    /// The HTTP status that answers this error.
    pub open spec fn status(self) -> u16 {
        match self {
            ApiError::InvalidInput(_) => 400,
            ApiError::InternalError => 500,
            ApiError::Unauthorized => 401,
            ApiError::NotFound => 404,
            ApiError::Forbidden => 403,
        }
    }

    /// An `InvalidInput` error with the text `msg`.
    pub fn invalid_input(msg: &str) -> (e: Self)
        ensures
            e.is_invalid_input(msg@),
    {
        ApiError::InvalidInput(String::from_str(msg))
    }

    /// The HTTP status code of the response that reports this error.
    pub fn status_code(&self) -> (code: u16)
        ensures
            code == self.status(),
    {
        match self {
            ApiError::InvalidInput(_) => 400,
            ApiError::InternalError => 500,
            ApiError::Unauthorized => 401,
            ApiError::NotFound => 404,
            ApiError::Forbidden => 403,
        }
    }

    /// The text shown to the client: the reason for `InvalidInput`, the
    /// status's reason phrase otherwise.
    pub fn message(&self) -> (m: String)
        ensures
            m@ == match *self {
                ApiError::InvalidInput(t) => t@,
                ApiError::InternalError => "Internal server error"@,
                ApiError::Unauthorized => "Unauthorized"@,
                ApiError::NotFound => "Not found"@,
                ApiError::Forbidden => "Forbidden"@,
            },
    {
        match self {
            ApiError::InvalidInput(t) => t.clone(),
            ApiError::InternalError => String::from_str("Internal server error"),
            ApiError::Unauthorized => String::from_str("Unauthorized"),
            ApiError::NotFound => String::from_str("Not found"),
            ApiError::Forbidden => String::from_str("Forbidden"),
        }
    }
}

} // verus!
