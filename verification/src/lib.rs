//! A user-account service core: structural validation, password hashing,
//! bearer-token issuance and verification, a user store with uniqueness
//! invariants, and the account operations over them.

pub mod auth;
pub mod domain;
pub mod error;
pub mod handlers;
pub mod repositories;
pub mod response;
pub mod routes;
pub mod validation;
