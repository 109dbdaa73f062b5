use mystore::authentication::{extract_identity, extract_identity_at, login};
use mystore::config::AuthConfig;
use mystore::errors::{AuthError, StorageFailure};
use mystore::jwt::{create_token, decode_token, issue_token, verify_token, Claims, SlimUser, SESSION_SECONDS};
use mystore::user::{AuthUser, RegisterUser, User};

const SECRET: &[u8] = b"a very secret signing key";

fn config() -> AuthConfig {
    AuthConfig::new(SECRET.to_vec(), 4).unwrap()
}

fn registration(password: &str, confirmation: &str) -> RegisterUser {
    RegisterUser {
        email: "a@b.com".to_string(),
        username: "alice".to_string(),
        password: password.to_string(),
        password_confirmation: confirmation.to_string(),
    }
}

fn stored_user(id: i32, email: &str, password: &str) -> User {
    User {
        id,
        email: email.to_string(),
        username: "alice".to_string(),
        password: User::hash_password(password, &config()).unwrap(),
        created_at: chrono::NaiveDate::from_ymd_opt(2020, 1, 2)
            .unwrap()
            .and_hms_opt(3, 4, 5)
            .unwrap(),
    }
}

fn credentials(email: &str, password: &str) -> AuthUser {
    AuthUser { email: email.to_string(), password: password.to_string() }
}

fn alice() -> SlimUser {
    SlimUser { id: 7, email: "a@b.com".to_string(), username: "alice".to_string() }
}

#[test]
fn validates_rejects_mismatched_confirmation() {
    let r = registration("a", "b").validates();
    assert!(matches!(r, Err(AuthError::PasswordMismatch(_))));
}

#[test]
fn validates_rejects_empty_password() {
    let r = registration("", "").validates();
    assert!(matches!(r, Err(AuthError::WeakPassword(_))));
}

#[test]
fn validates_mismatch_wins_over_empty() {
    let r = registration("", "x").validates();
    assert!(matches!(r, Err(AuthError::PasswordMismatch(_))));
}

#[test]
fn validates_passes_request_through() {
    let r = registration("x", "x").validates().unwrap();
    assert_eq!(r.email, "a@b.com");
    assert_eq!(r.username, "alice");
    assert_eq!(r.password, "x");
    assert_eq!(r.password_confirmation, "x");
}

#[test]
fn hash_then_verify_accepts_same_password() {
    let h = User::hash_password("hunter2", &config()).unwrap();
    assert_ne!(h, "hunter2");
    assert_eq!(User::verify_password("hunter2", &h).unwrap(), true);
}

#[test]
fn hash_then_verify_rejects_other_password() {
    let h = User::hash_password("hunter2", &config()).unwrap();
    assert_eq!(User::verify_password("hunter3", &h).unwrap(), false);
}

#[test]
fn hash_twice_gives_different_strings_both_verifying() {
    let h1 = User::hash_password("same", &config()).unwrap();
    let h2 = User::hash_password("same", &config()).unwrap();
    assert_ne!(h1, h2);
    assert!(User::verify_password("same", &h1).unwrap());
    assert!(User::verify_password("same", &h2).unwrap());
}

#[test]
fn verify_against_unreadable_hash_is_hash_error() {
    let r = User::verify_password("x", "not a bcrypt hash");
    assert!(matches!(r, Err(AuthError::HashError(_))));
}

#[test]
fn config_rejects_cost_out_of_range() {
    assert!(AuthConfig::new(SECRET.to_vec(), 3).is_none());
    assert!(AuthConfig::new(SECRET.to_vec(), 32).is_none());
    let c = AuthConfig::new(SECRET.to_vec(), 31).unwrap();
    assert_eq!(c.hash_cost(), 31);
    assert_eq!(c.get_secret(), SECRET);
}

#[test]
fn create_rejects_invalid_registration() {
    let r = User::create(registration("a", "b"), &config());
    assert!(matches!(r, Err(AuthError::PasswordMismatch(_))));
    let r = User::create(registration("", ""), &config());
    assert!(matches!(r, Err(AuthError::WeakPassword(_))));
}

#[test]
fn create_hashes_valid_registration() {
    let n = User::create(registration("pw", "pw"), &config()).unwrap();
    assert_eq!(n.email, "a@b.com");
    assert_eq!(n.username, "alice");
    assert_ne!(n.password, "pw");
    assert!(User::verify_password("pw", &n.password).unwrap());
}

#[test]
fn claims_expire_one_day_later() {
    let c = Claims::with_email(7, "a@b.com", "alice", 1000);
    assert_eq!(c.sub, 7);
    assert_eq!(c.name, "a@b.com");
    assert_eq!(c.username, "alice");
    assert_eq!(c.exp, 1000 + 86400);
    assert_eq!(SESSION_SECONDS, 24 * 60 * 60);
}

#[test]
fn slim_user_from_claims() {
    let c = Claims::with_email(7, "a@b.com", "alice", 0);
    assert_eq!(SlimUser::from(c), alice());
}

#[test]
fn token_round_trip() {
    let t = issue_token(7, "a@b.com", "alice", SECRET, 1_000_000).unwrap();
    assert!(!t.is_empty());
    assert_eq!(t.split('.').count(), 3);
    assert_eq!(verify_token(&t, SECRET, 1_000_000).unwrap(), alice());
    assert_eq!(verify_token(&t, SECRET, 1_000_000 + 86399).unwrap(), alice());
}

#[test]
fn token_round_trip_against_the_clock() {
    let t = create_token(7, "a@b.com", "alice", &config()).unwrap();
    assert_eq!(decode_token(&t, &config()).unwrap(), alice());
}

#[test]
fn token_round_trip_keeps_negative_id_and_odd_text() {
    let t = issue_token(-5, "q\"u@x", "ünï \\ code", SECRET, 0).unwrap();
    let u = verify_token(&t, SECRET, 10).unwrap();
    assert_eq!(u.id, -5);
    assert_eq!(u.email, "q\"u@x");
    assert_eq!(u.username, "ünï \\ code");
}

#[test]
fn expired_token_is_unauthorized() {
    let t = issue_token(7, "a@b.com", "alice", SECRET, 1_000_000).unwrap();
    let r = verify_token(&t, SECRET, 1_000_000 + 86400);
    assert!(matches!(r, Err(AuthError::Unauthorized)));
}

#[test]
fn token_issued_in_the_past_is_rejected_by_decode() {
    let t = issue_token(7, "a@b.com", "alice", SECRET, 1_000).unwrap();
    assert!(matches!(decode_token(&t, &config()), Err(AuthError::Unauthorized)));
}

#[test]
fn flipped_signature_byte_is_unauthorized() {
    let t = issue_token(7, "a@b.com", "alice", SECRET, 1_000_000).unwrap();
    let mut bytes = t.into_bytes();
    let last = bytes.len() - 1;
    bytes[last] = if bytes[last] == b'A' { b'B' } else { b'A' };
    let tampered = String::from_utf8(bytes).unwrap();
    let r = verify_token(&tampered, SECRET, 1_000_000);
    assert!(matches!(r, Err(AuthError::Unauthorized)));
}

#[test]
fn token_under_other_secret_is_unauthorized() {
    let t = issue_token(7, "a@b.com", "alice", SECRET, 1_000_000).unwrap();
    let r = verify_token(&t, b"another secret", 1_000_000);
    assert!(matches!(r, Err(AuthError::Unauthorized)));
}

#[test]
fn malformed_token_is_unauthorized() {
    for t in ["", "abc", "a.b.c", "..."] {
        assert!(matches!(verify_token(t, SECRET, 0), Err(AuthError::Unauthorized)));
    }
}

#[test]
fn login_unknown_email_is_not_found() {
    let r = credentials("nobody@b.com", "pw").login(Vec::new());
    assert!(matches!(r, Err(AuthError::NotFound)));
    let r = login(&credentials("nobody@b.com", "pw"), Vec::new(), &config());
    assert!(matches!(r, Err(AuthError::NotFound)));
}

#[test]
fn login_wrong_password() {
    let records = vec![stored_user(7, "a@b.com", "right")];
    let r = login(&credentials("a@b.com", "wrong"), records, &config());
    assert!(matches!(r, Err(AuthError::WrongPassword(_))));
}

#[test]
fn login_unreadable_stored_hash_is_hash_error() {
    let mut u = stored_user(7, "a@b.com", "right");
    u.password = "plain text".to_string();
    let r = credentials("a@b.com", "right").login(vec![u]);
    assert!(matches!(r, Err(AuthError::HashError(_))));
}

#[test]
fn login_right_password_gives_user_and_token() {
    let records = vec![stored_user(7, "a@b.com", "right")];
    let (user, token) = login(&credentials("a@b.com", "right"), records, &config()).unwrap();
    assert_eq!(user.id, 7);
    assert_eq!(user.email, "a@b.com");
    assert!(!token.is_empty());
    assert_eq!(decode_token(&token, &config()).unwrap(), alice());
}

#[test]
fn login_looks_at_first_record() {
    let records = vec![stored_user(1, "a@b.com", "first"), stored_user(2, "a@b.com", "second")];
    let user = credentials("a@b.com", "first").login(records).unwrap();
    assert_eq!(user.id, 1);
}

#[test]
fn extract_identity_without_artifact_is_unauthorized() {
    assert!(matches!(extract_identity(None, &config()), Err(AuthError::Unauthorized)));
    assert!(matches!(extract_identity_at(None, SECRET, 0), Err(AuthError::Unauthorized)));
}

#[test]
fn extract_identity_with_invalid_artifact_is_unauthorized() {
    let artifact = Some("{\"id\":7}".to_string());
    assert!(matches!(extract_identity(artifact, &config()), Err(AuthError::Unauthorized)));
}

#[test]
fn extract_identity_with_valid_artifact() {
    let t = create_token(7, "a@b.com", "alice", &config()).unwrap();
    assert_eq!(extract_identity(Some(t.clone()), &config()).unwrap(), alice());
    let t = issue_token(7, "a@b.com", "alice", SECRET, 50).unwrap();
    assert_eq!(extract_identity_at(Some(t), SECRET, 60).unwrap(), alice());
}

#[test]
fn error_response_statuses_and_messages() {
    let cases: Vec<(AuthError, u16, &str)> = vec![
        (AuthError::PasswordMismatch("m".to_string()), 400, "m"),
        (AuthError::WeakPassword("w".to_string()), 400, "w"),
        (AuthError::WrongPassword("p".to_string()), 400, "p"),
        (AuthError::NotFound, 404, "Record not found"),
        (AuthError::StorageUnavailable, 500, "pg error"),
        (AuthError::StorageConflict("dup".to_string()), 400, "dup"),
        (AuthError::StorageError, 500, "db error"),
        (AuthError::Unauthorized, 401, "Unauthorized"),
        (AuthError::BadRequest("bad".to_string()), 400, "bad"),
        (AuthError::InternalServerError, 500, "Internal Server Error, Please try later"),
    ];
    for (e, status, message) in cases {
        let reply = e.error_response();
        assert_eq!(reply.status, status);
        assert_eq!(reply.message, message);
        assert_eq!(e.status(), status);
    }
}

#[test]
fn hash_error_maps_to_bad_request() {
    let e = User::verify_password("x", "garbage").unwrap_err();
    let reply = e.error_response();
    assert_eq!(reply.status, 400);
    assert_eq!(reply.message, "hash error");
    assert!(!e.message().is_empty());
}

#[test]
fn display_messages() {
    assert_eq!(AuthError::Unauthorized.message(), "Unauthorized");
    assert_eq!(AuthError::InternalServerError.message(), "InternalServerError");
    assert_eq!(AuthError::StorageUnavailable.message(), "error obtaining a db connection");
    assert_eq!(AuthError::BadRequest("b".to_string()).message(), "b");
}

#[test]
fn storage_failures_map_to_errors() {
    assert!(matches!(AuthError::from_storage(StorageFailure::Unavailable), AuthError::StorageUnavailable));
    assert!(matches!(AuthError::from_storage(StorageFailure::NotFound), AuthError::NotFound));
    assert!(matches!(AuthError::from_storage(StorageFailure::Other), AuthError::StorageError));
    let with_detail = StorageFailure::UniqueViolation {
        details: Some("Key (email)=(a@b.com) already exists.".to_string()),
        message: "duplicate key".to_string(),
    };
    match AuthError::from_storage(with_detail) {
        AuthError::StorageConflict(d) => assert_eq!(d, "Key (email)=(a@b.com) already exists."),
        other => panic!("unexpected {:?}", other),
    }
    let without_detail = StorageFailure::UniqueViolation { details: None, message: "duplicate key".to_string() };
    match AuthError::from_storage(without_detail) {
        AuthError::StorageConflict(d) => assert_eq!(d, "duplicate key"),
        other => panic!("unexpected {:?}", other),
    }
}

#[test]
fn validation_messages_are_fixed() {
    match registration("a", "b").validates() {
        Err(AuthError::PasswordMismatch(m)) => assert_eq!(m, "Password and Password Confirmation does not match"),
        _ => panic!("expected a mismatch"),
    }
    match registration("", "").validates() {
        Err(AuthError::WeakPassword(m)) => assert_eq!(m, "Wrong Password, check it is not empty"),
        _ => panic!("expected a weak password"),
    }
}

#[test]
fn wrong_password_message_is_fixed() {
    let records = vec![stored_user(7, "a@b.com", "right")];
    match credentials("a@b.com", "wrong").login(records) {
        Err(AuthError::WrongPassword(m)) => assert_eq!(m, "Wrong password, check again please"),
        _ => panic!("expected a wrong password"),
    }
}

#[test]
fn garbage_artifact_is_unauthorized() {
    let r = extract_identity(Some("garbage".to_string()), &config());
    assert!(matches!(r, Err(AuthError::Unauthorized)));
}
