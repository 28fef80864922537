//! End-to-end behavior of the account service and its routes.

use user_accounts::domain::password::PasswordCheck;
use user_accounts::domain::user::{LoginUserPayload, NewUserPayload, UpdateUserPayload};
use user_accounts::error::ErrorType;
use user_accounts::handlers::user::UserHandlerImpl;
use user_accounts::repositories::error::{ErrorMessage, HashingFault, RepositoryError};
use user_accounts::routes;

const SECRET: &[u8] = b"test-signing-secret";
const NOW: u64 = 1_700_000_000;

fn alice_payload() -> NewUserPayload {
    NewUserPayload {
        name: None,
        nickname: "alice_1".to_string(),
        email: "a@example.com".to_string(),
        password: "longenough".to_string(),
        bio: None,
    }
}

fn bob_payload() -> NewUserPayload {
    NewUserPayload {
        name: Some("Bob Builder".to_string()),
        nickname: "bob_2".to_string(),
        email: "b@example.com".to_string(),
        password: "alsolongenough".to_string(),
        bio: Some("builds things".to_string()),
    }
}

#[test]
fn creates_user_correctly() {
    let mut handler = UserHandlerImpl::new();
    handler
        .create_user(alice_payload(), 1, NOW)
        .expect("Failed to create a new user");
}

#[test]
fn create_duplicate_nickname_conflicts() {
    let mut handler = UserHandlerImpl::new();
    assert!(handler.create_user(alice_payload(), 1, NOW).is_ok());
    let mut dup = alice_payload();
    dup.email = "other@example.com".to_string();
    let r = handler.create_user(dup, 2, NOW);
    assert!(matches!(
        r,
        Err(RepositoryError::Conflict(ErrorMessage::ExistingNickame))
    ));
}

#[test]
fn create_duplicate_email_conflicts() {
    let mut handler = UserHandlerImpl::new();
    assert!(handler.create_user(alice_payload(), 1, NOW).is_ok());
    let mut dup = alice_payload();
    dup.nickname = "alice_other".to_string();
    let r = handler.create_user(dup, 2, NOW);
    assert!(matches!(
        r,
        Err(RepositoryError::Conflict(ErrorMessage::ExistingEmail))
    ));
}

#[test]
fn round_trip_create_then_fetch() {
    let mut handler = UserHandlerImpl::new();
    let created = handler.create_user(alice_payload(), 7, NOW).unwrap();
    assert_eq!(created.nickname, "alice_1");
    assert_eq!(created.email, "a@example.com");
    let fetched = handler
        .get_user_by_nickname("alice_1".to_string())
        .unwrap()
        .unwrap();
    // The projection has no password field at all; only the public fields
    // come back.
    assert_eq!(fetched.id, 7);
    assert_eq!(fetched.nickname, "alice_1");
    assert_eq!(fetched.email, "a@example.com");
    assert_eq!(fetched.creation_time, NOW);
}

#[test]
fn hash_irreversibility_on_created_user() {
    let mut handler = UserHandlerImpl::new();
    handler.create_user(alice_payload(), 1, NOW).unwrap();
    let hash = handler
        .user_repository
        .get_password_hash_by_email(&"a@example.com".to_string())
        .unwrap();
    assert_ne!(hash, "longenough");
    assert!(matches!(
        user_accounts::domain::password::verify_passwords(
            &"longenough".to_string(),
            &hash
        ),
        PasswordCheck::Match
    ));
    assert!(matches!(
        user_accounts::domain::password::verify_passwords(
            &"wrongpassword".to_string(),
            &hash
        ),
        PasswordCheck::Mismatch
    ));
}

#[test]
fn update_only_bio_keeps_identity_fields() {
    let mut handler = UserHandlerImpl::new();
    handler.create_user(bob_payload(), 3, NOW).unwrap();
    let patch = UpdateUserPayload {
        name: None,
        nickname: None,
        bio: Some("new bio".to_string()),
    };
    handler.update_user_by_id(3, patch, NOW + 5).unwrap();
    let fetched = handler.get_user_by_id(3).unwrap().unwrap();
    assert_eq!(fetched.nickname, "bob_2");
    assert_eq!(fetched.email, "b@example.com");
    assert_eq!(fetched.bio, Some("new bio".to_string()));
    assert_eq!(fetched.name, Some("Bob Builder".to_string()));
}

#[test]
fn empty_update_is_a_noop_write() {
    let mut handler = UserHandlerImpl::new();
    handler.create_user(bob_payload(), 4, NOW).unwrap();
    let patch = UpdateUserPayload {
        name: None,
        nickname: None,
        bio: None,
    };
    handler.update_user_by_id(4, patch, NOW + 9).unwrap();
    let fetched = handler.get_user_by_id(4).unwrap().unwrap();
    assert_eq!(fetched.nickname, "bob_2");
    assert_eq!(fetched.email, "b@example.com");
    assert_eq!(fetched.bio, Some("builds things".to_string()));
}

#[test]
fn fetch_by_nickname_route() {
    let mut handler = UserHandlerImpl::new();
    routes::user::create_user(&mut handler, alice_payload(), 5, NOW).unwrap();
    let fetched = routes::user::get_user_by_nickname(&handler, "alice_1".to_string()).unwrap();
    assert_eq!(fetched.id, 5);
    let e = routes::user::get_user_by_nickname(&handler, "nobody".to_string()).unwrap_err();
    assert_eq!(e.kind, ErrorType::NotFound);
    assert_eq!(e.status_code(), 404);
}

#[test]
fn update_missing_id_is_not_found() {
    let mut handler = UserHandlerImpl::new();
    let patch = UpdateUserPayload {
        name: None,
        nickname: None,
        bio: Some("x".to_string()),
    };
    let r = handler.update_user_by_id(99, patch, NOW);
    assert!(matches!(r, Err(RepositoryError::NotFound)));
}

#[test]
fn update_to_taken_nickname_conflicts() {
    let mut handler = UserHandlerImpl::new();
    handler.create_user(alice_payload(), 1, NOW).unwrap();
    handler.create_user(bob_payload(), 2, NOW).unwrap();
    let patch = UpdateUserPayload {
        name: None,
        nickname: Some("alice_1".to_string()),
        bio: None,
    };
    let r = handler.update_user_by_id(2, patch, NOW);
    assert!(matches!(
        r,
        Err(RepositoryError::Conflict(ErrorMessage::ExistingNickame))
    ));
    let unchanged = handler.get_user_by_id(2).unwrap().unwrap();
    assert_eq!(unchanged.nickname, "bob_2");
}

#[test]
fn update_to_own_nickname_is_allowed() {
    let mut handler = UserHandlerImpl::new();
    handler.create_user(bob_payload(), 2, NOW).unwrap();
    let patch = UpdateUserPayload {
        name: None,
        nickname: Some("bob_2".to_string()),
        bio: None,
    };
    assert!(handler.update_user_by_id(2, patch, NOW + 1).is_ok());
}

#[test]
fn get_by_random_id_is_not_found() {
    let handler = UserHandlerImpl::new();
    let r = handler.get_user_by_id(123456789);
    assert!(matches!(r, Err(RepositoryError::NotFound)));
}

#[test]
fn delete_by_random_id_is_not_found() {
    let mut handler = UserHandlerImpl::new();
    let r = handler.delete_user(987654321);
    assert!(matches!(r, Err(RepositoryError::NotFound)));
}

#[test]
fn delete_then_get_is_not_found() {
    let mut handler = UserHandlerImpl::new();
    handler.create_user(alice_payload(), 1, NOW).unwrap();
    handler.delete_user(1).unwrap();
    assert!(matches!(
        handler.get_user_by_id(1),
        Err(RepositoryError::NotFound)
    ));
}

#[test]
fn login_issues_verifiable_token() {
    let mut handler = UserHandlerImpl::new();
    handler.create_user(alice_payload(), 11, NOW).unwrap();
    let token = routes::auth::login_user(
        &handler,
        LoginUserPayload {
            email: "a@example.com".to_string(),
            password: "longenough".to_string(),
        },
        SECRET,
        NOW,
    )
    .unwrap();
    let subject = user_accounts::auth::verify_token(&token, SECRET, NOW).unwrap();
    assert_eq!(subject, 11);
}

#[test]
fn login_wrong_password_is_bad_request() {
    let mut handler = UserHandlerImpl::new();
    handler.create_user(alice_payload(), 11, NOW).unwrap();
    let r = handler.get_user_by_login(LoginUserPayload {
        email: "a@example.com".to_string(),
        password: "wrongpassword".to_string(),
    });
    assert!(matches!(
        r,
        Err(RepositoryError::HashingError(HashingFault::Mismatch))
    ));
    let e = routes::auth::login_user(
        &handler,
        LoginUserPayload {
            email: "a@example.com".to_string(),
            password: "wrongpassword".to_string(),
        },
        SECRET,
        NOW,
    )
    .unwrap_err();
    assert_eq!(e.kind, ErrorType::BadRequest);
    assert_eq!(e.message, "Invalid password");
}

#[test]
fn login_unknown_email_is_not_found() {
    let handler = UserHandlerImpl::new();
    let e = routes::auth::login_user(
        &handler,
        LoginUserPayload {
            email: "nobody@example.com".to_string(),
            password: "longenough".to_string(),
        },
        SECRET,
        NOW,
    )
    .unwrap_err();
    assert_eq!(e.kind, ErrorType::NotFound);
}

#[test]
fn patch_with_foreign_subject_is_unauthorized_and_writes_nothing() {
    let mut handler = UserHandlerImpl::new();
    routes::user::create_user(&mut handler, bob_payload(), 2, NOW).unwrap();
    let foreign_token = user_accounts::auth::create_jwt(9, SECRET, NOW).unwrap();
    let patch = UpdateUserPayload {
        name: None,
        nickname: Some("stolen".to_string()),
        bio: None,
    };
    let e = routes::user::update_user_by_id(
        &mut handler,
        2,
        patch,
        Some(&foreign_token),
        SECRET,
        NOW,
    )
    .unwrap_err();
    assert_eq!(e.kind, ErrorType::Unauthorized);
    assert_eq!(e.status_code(), 401);
    let unchanged = routes::user::get_user_by_id(&handler, 2).unwrap();
    assert_eq!(unchanged.nickname, "bob_2");
}

#[test]
fn patch_with_own_subject_applies() {
    let mut handler = UserHandlerImpl::new();
    routes::user::create_user(&mut handler, bob_payload(), 2, NOW).unwrap();
    let token = user_accounts::auth::create_jwt(2, SECRET, NOW).unwrap();
    let patch = UpdateUserPayload {
        name: None,
        nickname: Some("bob_renamed".to_string()),
        bio: None,
    };
    routes::user::update_user_by_id(&mut handler, 2, patch, Some(&token), SECRET, NOW)
        .unwrap();
    let after = routes::user::get_user_by_id(&handler, 2).unwrap();
    assert_eq!(after.nickname, "bob_renamed");
}

#[test]
fn patch_without_header_is_unauthorized() {
    let mut handler = UserHandlerImpl::new();
    routes::user::create_user(&mut handler, bob_payload(), 2, NOW).unwrap();
    let patch = UpdateUserPayload {
        name: None,
        nickname: None,
        bio: None,
    };
    let e = routes::user::update_user_by_id(&mut handler, 2, patch, None, SECRET, NOW)
        .unwrap_err();
    assert_eq!(e.kind, ErrorType::Unauthorized);
}

#[test]
fn create_route_rejects_invalid_payload_naming_fields() {
    let mut handler = UserHandlerImpl::new();
    let bad = NewUserPayload {
        name: None,
        nickname: "not ok!".to_string(),
        email: "not-an-email".to_string(),
        password: "short".to_string(),
        bio: None,
    };
    let e = routes::user::create_user(&mut handler, bad, 1, NOW).unwrap_err();
    assert_eq!(e.kind, ErrorType::BadRequest);
    assert_eq!(
        e.message,
        "The following fields contain validation errors: nickname,email,password"
    );
    assert!(matches!(
        handler.get_user_by_id(1),
        Err(RepositoryError::NotFound)
    ));
}

#[test]
fn conflict_maps_to_409_with_message() {
    let mut handler = UserHandlerImpl::new();
    routes::user::create_user(&mut handler, alice_payload(), 1, NOW).unwrap();
    let mut dup = alice_payload();
    dup.email = "other@example.com".to_string();
    let e = routes::user::create_user(&mut handler, dup, 2, NOW).unwrap_err();
    assert_eq!(e.kind, ErrorType::Conflict);
    assert_eq!(e.status_code(), 409);
    assert_eq!(e.message, "This nickname is already in use");
    let body = e.error_response();
    assert_eq!(body.status, 409);
    assert_eq!(body.message, "This nickname is already in use");
}
