//! Token issuance and verification against the real signing library.

use user_accounts::auth::{
    create_jwt, get_id_auth_header, verify_token, TOKEN_TTL_SECONDS,
};

const SECRET: &[u8] = b"token-test-secret";
const NOW: u64 = 1_700_000_000;

#[test]
fn issue_then_immediate_verify_returns_subject() {
    let token = create_jwt(42, SECRET, NOW).unwrap();
    assert_eq!(verify_token(&token, SECRET, NOW), Some(42));
}

#[test]
fn token_valid_until_just_before_expiry() {
    let token = create_jwt(42, SECRET, NOW).unwrap();
    assert_eq!(
        verify_token(&token, SECRET, NOW + TOKEN_TTL_SECONDS - 1),
        Some(42)
    );
}

#[test]
fn expired_token_is_invalid() {
    let token = create_jwt(42, SECRET, NOW).unwrap();
    assert_eq!(verify_token(&token, SECRET, NOW + TOKEN_TTL_SECONDS), None);
    assert_eq!(
        verify_token(&token, SECRET, NOW + TOKEN_TTL_SECONDS + 1000),
        None
    );
}

#[test]
fn token_signed_with_other_key_is_invalid() {
    let token = create_jwt(42, SECRET, NOW).unwrap();
    assert_eq!(verify_token(&token, b"another-secret", NOW), None);
}

#[test]
fn malformed_tokens_are_invalid() {
    assert_eq!(verify_token("", SECRET, NOW), None);
    assert_eq!(verify_token("not.a.token", SECRET, NOW), None);
    let token = create_jwt(42, SECRET, NOW).unwrap();
    let truncated = &token[..token.len() - 2];
    assert_eq!(verify_token(truncated, SECRET, NOW), None);
}

#[test]
fn auth_header_accepts_valid_and_rejects_expired() {
    let token = create_jwt(5, SECRET, NOW).unwrap();
    assert_eq!(get_id_auth_header(&token, SECRET, NOW).unwrap(), 5);
    let e = get_id_auth_header(&token, SECRET, NOW + TOKEN_TTL_SECONDS).unwrap_err();
    assert_eq!(e.message, "Invalid token");
    assert_eq!(e.status_code(), 400);
}

#[test]
fn distinct_subjects_get_distinct_tokens() {
    let a = create_jwt(1, SECRET, NOW).unwrap();
    let b = create_jwt(2, SECRET, NOW).unwrap();
    assert_ne!(a, b);
    assert_eq!(verify_token(&a, SECRET, NOW), Some(1));
    assert_eq!(verify_token(&b, SECRET, NOW), Some(2));
}
