//! One-way password hashing and constant-time verification, through the
//! `argon2` crate.

use vstd::prelude::*;

use crate::repositories::error::HashingFault;

verus! {

/// Whether the Argon2 verification of `plain` against the encoded hash
/// `hash` succeeds. The hash string carries its own salt and parameters,
/// so the outcome depends on the two arguments alone.
pub uninterp spec fn password_matches(plain: Seq<char>, hash: Seq<char>) -> bool;

/// Whether `hash` is a well-formed PHC hash string — it parses, carries a
/// salt and an output, and names an algorithm and parameters Argon2
/// accepts; a function of the string alone.
pub uninterp spec fn wellformed_hash(hash: Seq<char>) -> bool;

/// The outcome of checking a plaintext password against a stored hash.
#[derive(Clone, Copy, Debug, PartialEq, Eq, Structural)]
pub enum PasswordCheck {
    /// The hash is well formed and was produced from this password.
    Match,
    /// The hash is well formed but was not produced from this password.
    Mismatch,
    /// The stored hash cannot be used: it is malformed or its algorithm
    /// or parameters are unsupported.
    Malformed,
}

/// Relies on `argon2::Argon2::verify_password` (through
/// `argon2::password_hash::PasswordVerifier<str>`): it parses the PHC
/// string, recomputes the hash with the salt and parameters found there,
/// and reports `Error::PasswordInvalid` exactly when the password cannot
/// match — the recomputed output differs, the parsed hash lacks salt or
/// output, or the password is over Argon2's length bound. Every other
/// error means the hash string itself is unusable, independent of the
/// password.
#[verifier::external_body]
fn check_password(plain: &str, hash: &str) -> (r: PasswordCheck)
    ensures
        r is Match <==> (wellformed_hash(hash@) && password_matches(plain@, hash@)),
        r is Mismatch <==> (wellformed_hash(hash@) && !password_matches(plain@, hash@)),
{
    let argon2 = argon2::Argon2::default();
    match argon2::password_hash::PasswordVerifier::<str>::verify_password(
        &argon2,
        plain.as_bytes(),
        hash,
    ) {
        Ok(()) => PasswordCheck::Match,
        Err(argon2::password_hash::Error::PasswordInvalid) => PasswordCheck::Mismatch,
        Err(_) => PasswordCheck::Malformed,
    }
}

/// Relies on `argon2::Argon2::hash_password` (through
/// `password_hash::PasswordHasher`): it draws a fresh random salt, hashes
/// the password, and encodes the result as a PHC string, which reparses
/// and verifies against the same password. That no other plaintext
/// verifies against the produced hash is Argon2's second-preimage
/// resistance, the hash function's security promise (the password's
/// length is part of the hash input, so no padded plaintext aliases).
#[verifier::external_body]
fn hash_password_raw(plain: &str) -> (r: Option<String>)
    ensures
        r matches Some(h) ==> wellformed_hash(h@) && password_matches(plain@, h@) && (
        forall|other: Seq<char>| other != plain@ ==> !password_matches(other, h@)),
{
    let argon2 = argon2::Argon2::default();
    match argon2::password_hash::PasswordHasher::hash_password(&argon2, plain.as_bytes()) {
        Ok(h) => Some(h.to_string()),
        Err(_) => None,
    }
}

/// Hashes a plaintext password into a salted, one-way PHC string. The
/// result verifies against the plaintext and against no other, and is
/// never the plaintext itself; a result that failed any of these
/// guarantees is reported as an error.
pub fn hash_password(original: String) -> (r: Result<String, HashingFault>)
    ensures
        r matches Ok(h) ==> wellformed_hash(h@) && password_matches(original@, h@) && h@
            != original@ && (forall|other: Seq<char>| other != original@ ==> !password_matches(
            other,
            h@,
        )),
        r matches Err(f) ==> f == HashingFault::Unusable,
{
    match hash_password_raw(original.as_str()) {
        Some(h) => {
            if h == original {
                Err(HashingFault::Unusable)
            } else {
                Ok(h)
            }
        },
        None => Err(HashingFault::Unusable),
    }
}

/// Checks a plaintext password against a stored hash: a match and a wrong
/// password are distinguished exactly, and an unusable stored hash is its
/// own outcome, never blamed on the password.
pub fn verify_passwords(input_password: &String, db_password: &String) -> (r: PasswordCheck)
    ensures
        r is Match <==> (wellformed_hash(db_password@) && password_matches(
            input_password@,
            db_password@,
        )),
        r is Mismatch <==> (wellformed_hash(db_password@) && !password_matches(
            input_password@,
            db_password@,
        )),
{
    check_password(input_password.as_str(), db_password.as_str())
}

} // verus!
