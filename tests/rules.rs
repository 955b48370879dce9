use authcore::config::{ApiError, ApplicationBaseUrl};
use authcore::flows::{AuthError, ChangePasswordError, SignupError};
use authcore::login::LoginError;
use authcore::store::{IdentityStore, IssueError, TokenError, UserStatus};
use authcore::text::{is_email_valid, is_username_valid, meets_password_policy};

fn text(s: &str) -> String {
    s.to_string()
}

#[test]
fn password_policy_examples() {
    assert!(meets_password_policy("House!909"));
    assert!(meets_password_policy("house!909"));
    assert!(!meets_password_policy("H"));
    assert!(!meets_password_policy("House!9"));
    assert!(!meets_password_policy("housesss"));
    assert!(!meets_password_policy("houses909"));
    assert!(meets_password_policy("Houses909"));
    assert!(meets_password_policy(&"Aa1!".repeat(1000)));
    assert!(!meets_password_policy(&"a".repeat(1000)));
}

#[test]
fn username_rules() {
    assert!(is_username_valid("db303"));
    assert!(!is_username_valid(""));
    assert!(!is_username_valid("db 303"));
    assert!(!is_username_valid("<script>"));
    assert!(is_username_valid(&"a".repeat(256)));
    assert!(!is_username_valid(&"a".repeat(257)));
}

#[test]
fn email_rules() {
    assert!(is_email_valid("acid@house.net"));
    assert!(!is_email_valid("acidhouse.net"));
    assert!(!is_email_valid("@house.net"));
    assert!(!is_email_valid("acid@"));
    assert!(!is_email_valid("a@b@c"));
    assert!(!is_email_valid("acid @house.net"));
}

#[test]
fn signup_errors() {
    let mut store = IdentityStore::new(60);
    let pw = text("House!909");
    assert_eq!(
        store.signup(1, text(""), text("a@b.c"), &pw, text("t1"), 0),
        Err(SignupError::InvalidUsername)
    );
    assert_eq!(
        store.signup(1, text("db303"), text("nope"), &pw, text("t1"), 0),
        Err(SignupError::InvalidEmail)
    );
    assert_eq!(
        store.signup(1, text("db303"), text("a@b.c"), &text("short"), text("t1"), 0),
        Err(SignupError::WeakPassword)
    );
    assert_eq!(store.signup(1, text("db303"), text("a@b.c"), &pw, text("t1"), 0), Ok(()));
    assert_eq!(store.accounts[0].status, UserStatus::Pending);
    assert_eq!(
        store.signup(2, text("db303"), text("x@b.c"), &pw, text("t2"), 0),
        Err(SignupError::UsernameTaken)
    );
    assert_eq!(
        store.signup(2, text("db404"), text("a@b.c"), &pw, text("t2"), 0),
        Err(SignupError::EmailTaken)
    );
    assert_eq!(
        store.signup(1, text("db404"), text("x@b.c"), &pw, text("t2"), 0),
        Err(SignupError::UnexpectedError)
    );
    assert_eq!(
        store.signup(2, text("db404"), text("x@b.c"), &pw, text("t1"), 0),
        Err(SignupError::UnexpectedError)
    );
    assert_eq!(store.accounts.len(), 1);
}

#[test]
fn stored_hash_verifies_only_its_password() {
    let mut store = IdentityStore::new(60);
    store.signup(1, text("db303"), text("a@b.c"), &text("House!909"), text("t1"), 0).unwrap();
    assert_ne!(store.accounts[0].password_hash, "House!909");
    assert!(store.accounts[0].password_hash.starts_with("$argon2id$"));
    assert_eq!(
        store.validate_credentials(&text("db303"), &text("House!909")),
        Err(AuthError::InactiveAccount)
    );
    assert_eq!(
        store.validate_credentials(&text("db303"), &text("House!808")),
        Err(AuthError::InvalidCredentials)
    );
    store.activate(&text("t1"), 0).unwrap();
    assert_eq!(store.validate_credentials(&text("db303"), &text("House!909")), Ok(1));
    assert_eq!(
        store.validate_credentials(&text("nobody"), &text("House!909")),
        Err(AuthError::InvalidCredentials)
    );
}

#[test]
fn resend_supersedes_activation_token() {
    let mut store = IdentityStore::new(60);
    store.signup(1, text("db303"), text("a@b.c"), &text("House!909"), text("t1"), 0).unwrap();
    assert_eq!(store.resend_activation(&text("a@b.c"), text("t2"), 5), Ok(Some(1)));
    assert_eq!(store.resend_activation(&text("a@b.c"), text("t2"), 6), Err(IssueError::TokenInUse));
    assert_eq!(store.activate(&text("t1"), 6), Err(TokenError::NotFound));
    assert_eq!(store.activate(&text("t2"), 6), Ok(1));
    assert_eq!(store.accounts[0].status, UserStatus::Active);
    assert_eq!(store.activate(&text("t2"), 6), Err(TokenError::NotFound));
    assert_eq!(store.resend_activation(&text("a@b.c"), text("t3"), 7), Ok(None));
    assert_eq!(store.resend_activation(&text("x@b.c"), text("t3"), 7), Ok(None));
}

#[test]
fn activation_token_expires() {
    let mut store = IdentityStore::new(60);
    store.signup(1, text("db303"), text("a@b.c"), &text("House!909"), text("t1"), 100).unwrap();
    assert_eq!(store.activate(&text("t1"), 161), Err(TokenError::NotFound));
    assert_eq!(store.accounts[0].status, UserStatus::Pending);
    assert_eq!(store.activate(&text("t1"), 160), Ok(1));
}

#[test]
fn issue_errors() {
    let mut store = IdentityStore::new(60);
    assert_eq!(store.issue(9, authcore::store::Purpose::Reset, text("t"), 0), Err(IssueError::UnknownUser));
}

#[test]
fn status_codes() {
    assert_eq!(LoginError::AuthError.status_code(), 401);
    assert_eq!(LoginError::ForbiddenError.status_code(), 403);
    assert_eq!(LoginError::UnexpectedError.status_code(), 500);
    assert_eq!(ChangePasswordError::MissingField.status_code(), 400);
    assert_eq!(ChangePasswordError::PasswordMismatch.status_code(), 401);
    assert_eq!(ChangePasswordError::WeakPassword.status_code(), 400);
    assert_eq!(ChangePasswordError::InvalidToken.status_code(), 401);
    let body = LoginError::ForbiddenError.error_response();
    assert_eq!(body.status, "fail");
    assert_eq!(body.message, "Account is not activated.");
    let body = LoginError::UnexpectedError.error_response();
    assert_eq!(body.status, "error");
    assert_eq!(body.message, "Something went wrong.");
}

#[test]
fn activation_link_is_built_from_base_url() {
    let base = ApplicationBaseUrl(text("http://127.0.0.1:8000"));
    assert_eq!(
        base.activation_link("abc123"),
        "http://127.0.0.1:8000/api/v1/auth/signup/activate?token=abc123"
    );
}

#[test]
fn json_error_cuts_position() {
    assert_eq!(
        ApiError::json_error("missing field `password` at line 1 column 30"),
        "missing field `password`"
    );
    assert_eq!(ApiError::json_error("EOF while parsing"), "EOF while parsing");
    assert_eq!(ApiError::json_error(""), "");
}

#[test]
fn fresh_signup_and_reset_tokens() {
    let mut store = IdentityStore::new(60);
    let (id, activation) = store
        .signup_user(text("db303"), text("a@b.c"), &text("House!909"), 0)
        .unwrap();
    assert_eq!(activation.chars().count(), 25);
    assert!(activation.chars().all(|c| c.is_ascii_alphanumeric()));
    assert_eq!(store.activate(&activation, 1), Ok(id));
    assert_eq!(store.request_password_reset(&text("x@b.c"), 2), Ok(None));
    let first = store.request_password_reset(&text("a@b.c"), 2).unwrap().unwrap();
    let second = store.request_password_reset(&text("a@b.c"), 3).unwrap().unwrap();
    assert_eq!(second.len(), 25);
    assert_ne!(first, second);
    assert_eq!(store.redeem(&first, authcore::store::Purpose::Reset, 4), Err(TokenError::NotFound));
    assert_eq!(store.redeem(&second, authcore::store::Purpose::Reset, 4), Ok(id));
    assert_eq!(
        store.signup_user(text("db303"), text("z@b.c"), &text("House!909"), 0).err(),
        Some(SignupError::UsernameTaken)
    );
}

#[test]
fn resend_activation_email_supersedes_signup_token() {
    let mut store = IdentityStore::new(60);
    let (id, first) = store
        .signup_user(text("db303"), text("a@b.c"), &text("House!909"), 0)
        .unwrap();
    assert_eq!(store.resend_activation_email(&text("x@b.c"), 1), Ok(None));
    let second = store.resend_activation_email(&text("a@b.c"), 1).unwrap().unwrap();
    assert_eq!(second.len(), 25);
    assert_eq!(store.activate(&first, 2), Err(TokenError::NotFound));
    assert_eq!(store.activate(&second, 2), Ok(id));
    assert_eq!(store.resend_activation_email(&text("a@b.c"), 3), Ok(None));
}

#[test]
fn strong_change_after_weak_attempt_succeeds() {
    let mut store = IdentityStore::new(60);
    store.signup(1, text("db303"), text("a@b.c"), &text("House!909"), text("t1"), 0).unwrap();
    store.activate(&text("t1"), 0).unwrap();
    store.request_reset(&text("a@b.c"), text("r1"), 0).unwrap();
    let weak = authcore::flows::ChangePasswordRequest {
        reset_token: Some(text("r1")),
        password: Some(text("H")),
        password_again: Some(text("H")),
    };
    assert_eq!(store.change_password(&weak, 1), Err(ChangePasswordError::WeakPassword));
    let strong = authcore::flows::ChangePasswordRequest {
        reset_token: Some(text("r1")),
        password: Some(text("House!808")),
        password_again: Some(text("House!808")),
    };
    assert_eq!(store.change_password(&strong, 2), Ok(()));
    assert_eq!(store.validate_credentials(&text("db303"), &text("House!808")), Ok(1));
    assert_eq!(
        store.validate_credentials(&text("db303"), &text("House!909")),
        Err(AuthError::InvalidCredentials)
    );
}
