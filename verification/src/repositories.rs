//! Persistence layer: the user store and its error types.

use vstd::prelude::*;

pub mod error;
pub mod user;

verus! {

/// The reasons a write can collide with an existing user.
#[derive(Clone, Copy, Debug, PartialEq, Eq, Structural)]
pub enum ErrorMessage {
    /// Another user already holds the requested nickname.
    ExistingNickame,
    /// Another user already holds the requested email.
    ExistingEmail,
}

} // verus!
