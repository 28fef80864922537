//! The application-level error taxonomy and its mapping to HTTP statuses
//! and the uniform error body.

use vstd::prelude::*;

use crate::repositories::error::{HashingFault, RepositoryError};
use crate::response::GenericResponse;

verus! {

/// The kinds of failure a request can end in; each maps to exactly one
/// HTTP status.
#[derive(Clone, Copy, Debug, PartialEq, Eq, Structural)]
pub enum ErrorType {
    /// No user matches the request: status 404.
    NotFound,
    /// A uniqueness rule on nickname or email is violated: status 409.
    Conflict,
    /// An internal fault whose detail stays server-side: status 500.
    InternalError,
    /// A structurally invalid request or wrong credentials: status 400.
    BadRequest,
    /// The caller may not act on this user: status 401.
    Unauthorized,
}

/// An error as the HTTP layer reports it: a message and a kind that fixes
/// the status code.
#[derive(Debug)]
pub struct AppError {
    pub message: String,
    pub kind: ErrorType,
}

/// The HTTP status that an error kind maps to.
pub open spec fn spec_status_of(kind: ErrorType) -> u16 {
    match kind {
        ErrorType::NotFound => 404,
        ErrorType::Conflict => 409,
        ErrorType::InternalError => 500,
        ErrorType::BadRequest => 400,
        ErrorType::Unauthorized => 401,
    }
}

/// The error kind that a store-level failure maps to.
pub open spec fn spec_kind_of(e: RepositoryError) -> ErrorType {
    match e {
        RepositoryError::NotFound => ErrorType::NotFound,
        RepositoryError::Conflict(_) => ErrorType::Conflict,
        RepositoryError::StorageError(_) => ErrorType::InternalError,
        RepositoryError::HashingError(HashingFault::Mismatch) => ErrorType::BadRequest,
        RepositoryError::HashingError(HashingFault::Unusable) => ErrorType::InternalError,
    }
}

/// The user-facing message that a store-level failure maps to. A storage
/// failure's detail never reaches the client: whatever the detail, the
/// client sees the one generic message, and the detail stays in the
/// [`RepositoryError`] value for the server-side log.
pub open spec fn spec_repository_message_of(e: RepositoryError) -> Seq<char> {
    match e {
        RepositoryError::NotFound => "Not found"@,
        RepositoryError::Conflict(m) => m.spec_message(),
        RepositoryError::StorageError(_) => "Internal error"@,
        RepositoryError::HashingError(HashingFault::Mismatch) => "Invalid password"@,
        RepositoryError::HashingError(HashingFault::Unusable) => "Internal error"@,
    }
}

impl AppError {
    /// Wraps a message as a bad-request error.
    pub fn bad_request(message: String) -> (r: AppError)
        ensures
            r.kind == ErrorType::BadRequest,
            r.message == message,
    {
        AppError { message, kind: ErrorType::BadRequest }
    }

    /// Maps a store-level failure to its application error: kind and
    /// message as [`spec_kind_of`] and [`spec_repository_message_of`] fix
    /// them.
    pub fn from(error: RepositoryError) -> (r: AppError)
        ensures
            r.kind == spec_kind_of(error),
            r.message@ == spec_repository_message_of(error),
    {
        match error {
            RepositoryError::NotFound => AppError {
                message: String::from_str("Not found"),
                kind: ErrorType::NotFound,
            },
            RepositoryError::Conflict(m) => AppError {
                message: m.get_message(),
                kind: ErrorType::Conflict,
            },
            RepositoryError::StorageError(_) => AppError {
                message: String::from_str("Internal error"),
                kind: ErrorType::InternalError,
            },
            RepositoryError::HashingError(HashingFault::Mismatch) => AppError {
                message: String::from_str("Invalid password"),
                kind: ErrorType::BadRequest,
            },
            RepositoryError::HashingError(HashingFault::Unusable) => AppError {
                message: String::from_str("Internal error"),
                kind: ErrorType::InternalError,
            },
        }
    }

    /// The HTTP status of this error.
    pub fn status_code(&self) -> (r: u16)
        ensures
            r == spec_status_of(self.kind),
    {
        match self.kind {
            ErrorType::NotFound => 404,
            ErrorType::Conflict => 409,
            ErrorType::InternalError => 500,
            ErrorType::BadRequest => 400,
            ErrorType::Unauthorized => 401,
        }
    }

    /// The uniform error body for this error: its status and its message.
    pub fn error_response(&self) -> (r: GenericResponse)
        ensures
            r.status == spec_status_of(self.kind),
            r.message@ == self.message@,
    {
        GenericResponse { status: self.status_code(), message: self.message.clone() }
    }
}

} // verus!
