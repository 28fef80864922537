//! Errors surfaced by the store and by the account operations built on it.

use vstd::prelude::*;

verus! {

/// The reasons a write can collide with an existing user.
#[derive(Clone, Copy, Debug, PartialEq, Eq, Structural)]
pub enum ErrorMessage {
    /// Another user already holds the requested nickname.
    ExistingNickame,
    /// Another user already holds the requested email.
    ExistingEmail,
}

impl ErrorMessage {
    /// The user-facing wording of the conflict.
    pub open spec fn spec_message(self) -> Seq<char> {
        match self {
            ErrorMessage::ExistingNickame => "This nickname is already in use"@,
            ErrorMessage::ExistingEmail => "This email is already in use"@,
        }
    }

    /// Returns the user-facing wording of the conflict.
    pub fn get_message(&self) -> (r: String)
        ensures
            r@ == self.spec_message(),
    {
        match self {
            ErrorMessage::ExistingNickame => String::from_str("This nickname is already in use"),
            ErrorMessage::ExistingEmail => String::from_str("This email is already in use"),
        }
    }
}

/// Why a password could not be checked or hashed.
#[derive(Clone, Copy, Debug, PartialEq, Eq, Structural)]
pub enum HashingFault {
    /// The password does not match the stored hash.
    Mismatch,
    /// The stored hash is malformed, or hashing itself failed; an internal
    /// fault, never blamed on the caller's password.
    Unusable,
}

/// A failure of a store or account operation.
#[derive(Debug)]
pub enum RepositoryError {
    /// No user matches the given key.
    NotFound,
    /// The write would duplicate a unique identity field.
    Conflict(ErrorMessage),
    /// The storage layer refused the operation; the payload describes the
    /// fault for the server-side log.
    StorageError(String),
    /// Password hashing or verification failed.
    HashingError(HashingFault),
}

} // verus!
