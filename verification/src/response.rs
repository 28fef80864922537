//! The uniform body shape of non-success responses.

use vstd::prelude::*;

verus! {

/// The uniform error body: an HTTP status code and one human-readable
/// message.
#[derive(Debug)]
pub struct GenericResponse {
    pub status: u16,
    pub message: String,
}

} // verus!
