//! The account service: orchestration of create, read, update, delete and
//! login over the user store, the hasher and the token issuer.

pub mod user;
