//! Structural validation and error formatting.

use user_accounts::domain::user::{LoginUserPayload, NewUserPayload, UpdateUserPayload};
use user_accounts::error::{AppError, ErrorType};
use user_accounts::repositories::error::{ErrorMessage, HashingFault, RepositoryError};
use user_accounts::validation::{
    check_email, check_len_range, check_nickname, format_error_msg, validate_login,
    validate_new_user, validate_update_user,
};

#[test]
fn nickname_allows_word_characters_only() {
    assert!(check_nickname("alice_1"));
    assert!(check_nickname("ALICE9_"));
    assert!(check_nickname("_"));
    assert!(!check_nickname(""));
    assert!(!check_nickname("bad name"));
    assert!(!check_nickname("dash-ed"));
    assert!(!check_nickname("acc\u{e9}nt"));
}

#[test]
fn email_syntax_is_checked() {
    assert!(check_email("a@example.com"));
    assert!(!check_email("not-an-email"));
    assert!(!check_email(""));
    assert!(!check_email("@example.com"));
}

#[test]
fn length_ranges_count_characters() {
    assert!(check_len_range("abc", 3, 15));
    assert!(!check_len_range("ab", 3, 15));
    assert!(!check_len_range("abcdefghijklmnop", 3, 15));
    assert!(check_len_range("12345678", 8, usize::MAX));
    assert!(!check_len_range("1234567", 8, usize::MAX));
}

#[test]
fn valid_new_user_has_no_violations() {
    let p = NewUserPayload {
        name: Some("Alice Ann".to_string()),
        nickname: "alice_1".to_string(),
        email: "a@example.com".to_string(),
        password: "longenough".to_string(),
        bio: Some("hi".to_string()),
    };
    assert!(validate_new_user(&p).is_empty());
}

#[test]
fn invalid_fields_are_listed_in_order() {
    let p = NewUserPayload {
        name: Some("ab".to_string()),
        nickname: "bad nick".to_string(),
        email: "nope".to_string(),
        password: "short".to_string(),
        bio: Some("b".repeat(251)),
    };
    let fields = validate_new_user(&p);
    assert_eq!(fields, vec!["name", "nickname", "email", "password", "bio"]);
    assert_eq!(
        format_error_msg(fields),
        "The following fields contain validation errors: name,nickname,email,password,bio"
    );
}

#[test]
fn update_payload_checks_only_supplied_fields() {
    let ok = UpdateUserPayload {
        name: None,
        nickname: None,
        bio: None,
    };
    assert!(validate_update_user(&ok).is_empty());
    let bad = UpdateUserPayload {
        name: Some("x".to_string()),
        nickname: Some("no spaces allowed".to_string()),
        bio: None,
    };
    assert_eq!(validate_update_user(&bad), vec!["name", "nickname"]);
}

#[test]
fn login_payload_checks_email_and_password_length() {
    let bad = LoginUserPayload {
        email: "x".to_string(),
        password: "short".to_string(),
    };
    assert_eq!(validate_login(&bad), vec!["email", "password"]);
}

#[test]
fn empty_field_list_formats_to_bare_prefix() {
    assert_eq!(
        format_error_msg(Vec::new()),
        "The following fields contain validation errors: "
    );
}

#[test]
fn error_kinds_map_to_status_codes() {
    assert_eq!(AppError::from(RepositoryError::NotFound).status_code(), 404);
    assert_eq!(
        AppError::from(RepositoryError::Conflict(ErrorMessage::ExistingEmail)).status_code(),
        409
    );
    assert_eq!(
        AppError::from(RepositoryError::StorageError("boom".to_string())).status_code(),
        500
    );
    assert_eq!(
        AppError::from(RepositoryError::HashingError(HashingFault::Mismatch)).status_code(),
        400
    );
    assert_eq!(
        AppError::from(RepositoryError::HashingError(HashingFault::Unusable)).status_code(),
        500
    );
    assert_eq!(
        AppError::bad_request("whatever".to_string()).status_code(),
        400
    );
}

#[test]
fn repository_errors_map_to_messages() {
    assert_eq!(AppError::from(RepositoryError::NotFound).message, "Not found");
    assert_eq!(
        AppError::from(RepositoryError::Conflict(ErrorMessage::ExistingNickame)).message,
        "This nickname is already in use"
    );
    assert_eq!(
        AppError::from(RepositoryError::Conflict(ErrorMessage::ExistingEmail)).message,
        "This email is already in use"
    );
    assert_eq!(
        AppError::from(RepositoryError::StorageError("boom".to_string())).message,
        "Internal error"
    );
    // Storage detail never reaches the client: different details, one
    // generic client message.
    assert_eq!(
        AppError::from(RepositoryError::StorageError("connection reset".to_string())).message,
        AppError::from(RepositoryError::StorageError("constraint x".to_string())).message,
    );
    assert_eq!(
        AppError::from(RepositoryError::HashingError(HashingFault::Unusable)).message,
        "Internal error"
    );
}

#[test]
fn error_response_carries_status_and_message() {
    let e = AppError {
        message: "oh no".to_string(),
        kind: ErrorType::InternalError,
    };
    let body = e.error_response();
    assert_eq!(body.status, 500);
    assert_eq!(body.message, "oh no");
}

#[test]
fn conflict_messages_come_from_the_error_kind() {
    assert_eq!(
        ErrorMessage::ExistingNickame.get_message(),
        "This nickname is already in use"
    );
    assert_eq!(
        ErrorMessage::ExistingEmail.get_message(),
        "This email is already in use"
    );
}
