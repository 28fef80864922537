//! Password hashing and verification against the real hasher.

use user_accounts::domain::password::{hash_password, verify_passwords, PasswordCheck};

#[test]
fn hash_is_never_the_plaintext() {
    let hash = hash_password("longenough".to_string()).unwrap();
    assert_ne!(hash, "longenough");
    assert!(hash.starts_with("$argon2"));
}

#[test]
fn hash_verifies_against_its_plaintext() {
    let hash = hash_password("correct horse".to_string()).unwrap();
    assert!(matches!(
        verify_passwords(&"correct horse".to_string(), &hash),
        PasswordCheck::Match
    ));
}

#[test]
fn wrong_plaintext_is_a_mismatch() {
    let hash = hash_password("correct horse".to_string()).unwrap();
    assert!(matches!(
        verify_passwords(&"battery staple".to_string(), &hash),
        PasswordCheck::Mismatch
    ));
}

#[test]
fn malformed_hash_is_not_a_mismatch() {
    let r = verify_passwords(&"anything".to_string(), &"not-a-phc-string".to_string());
    assert!(matches!(r, PasswordCheck::Malformed));
}

#[test]
fn two_hashes_of_one_password_differ_by_salt() {
    let h1 = hash_password("longenough".to_string()).unwrap();
    let h2 = hash_password("longenough".to_string()).unwrap();
    assert_ne!(h1, h2);
    assert!(matches!(
        verify_passwords(&"longenough".to_string(), &h2),
        PasswordCheck::Match
    ));
}
