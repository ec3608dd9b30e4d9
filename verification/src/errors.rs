//! The error kinds of the service and how each is reported to a client.

use vstd::prelude::*;
use crate::models::BasicResponseError;

verus! {

/// Everything that can go wrong while serving a request.
///
/// `MysqlError` and `BlockingError` stand for failures of the durable store
/// and of the worker pool; only their kind matters to what is reported.
#[derive(Debug, Clone, Copy, PartialEq, Eq, Structural)]
pub enum ActixError {
    EmptyAccountName,
    SameAccountName,
    NotFound,
    UnAuthorized,
    MysqlError,
    BlockingError,
    Unknown,
}

/// Status of a request that cannot be served as it stands.
pub const BAD_REQUEST: u16 = 400;

/// Status of a request without valid credentials.
pub const UNAUTHORIZED: u16 = 401;

/// Status of a request that clashes with what is stored.
pub const CONFLICT: u16 = 409;

/// Status of a request beyond the admitted rate.
pub const TOO_MANY_REQUESTS: u16 = 429;

/// Status of a failure on the server's side.
pub const INTERNAL_SERVER_ERROR: u16 = 500;

impl ActixError {
    /// The numeric status reported for this error.
    pub open spec fn spec_status_code(&self) -> u16 {
        match self {
            ActixError::EmptyAccountName | ActixError::NotFound => BAD_REQUEST,
            ActixError::SameAccountName => CONFLICT,
            ActixError::UnAuthorized => UNAUTHORIZED,
            ActixError::MysqlError | ActixError::BlockingError | ActixError::Unknown => INTERNAL_SERVER_ERROR,
        }
    }

    /// The fixed message reported for this error; it never carries detail
    /// of the failure itself.
    pub open spec fn spec_message(&self) -> Seq<char> {
        match self {
            ActixError::EmptyAccountName => "Account name cannot be empty."@,
            ActixError::SameAccountName => "Account already exist."@,
            ActixError::UnAuthorized => "Not authorize."@,
            ActixError::NotFound => "Not found."@,
            ActixError::MysqlError | ActixError::BlockingError | ActixError::Unknown => "Database error occurred."@,
        }
    }

    /// The numeric status reported for this error.
    #[verifier::when_used_as_spec(spec_status_code)]
    pub fn status_code(&self) -> (code: u16)
        ensures
            code == self.spec_status_code(),
    {
        match self {
            ActixError::EmptyAccountName | ActixError::NotFound => BAD_REQUEST,
            ActixError::SameAccountName => CONFLICT,
            ActixError::UnAuthorized => UNAUTHORIZED,
            ActixError::MysqlError | ActixError::BlockingError | ActixError::Unknown => INTERNAL_SERVER_ERROR,
        }
    }

    /// The message reported for this error.
    pub fn message(&self) -> (text: String)
        ensures
            text@ == self.spec_message(),
    {
        match self {
            ActixError::EmptyAccountName => "Account name cannot be empty.".to_owned(),
            ActixError::SameAccountName => "Account already exist.".to_owned(),
            ActixError::UnAuthorized => "Not authorize.".to_owned(),
            ActixError::NotFound => "Not found.".to_owned(),
            ActixError::MysqlError | ActixError::BlockingError | ActixError::Unknown => "Database error occurred.".to_owned(),
        }
    }

    /// The body sent to the client for this error.
    pub fn error_response(&self) -> (body: BasicResponseError)
        ensures
            body.error@ == self.spec_message(),
            body.code == self.spec_status_code(),
    {
        BasicResponseError { error: self.message(), code: self.status_code() }
    }
}

} // verus!
