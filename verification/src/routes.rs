//! The computation behind each HTTP route: payload validation,
//! authorization, the account-service call, and the mapping of failures
//! to application errors. The HTTP layer itself stays outside; it hands
//! these functions plain values.

pub mod auth;
pub mod user;
