//! Domain types of the account service and password handling.

pub mod password;
pub mod user;
