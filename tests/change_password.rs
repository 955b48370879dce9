use authcore::flows::{ChangePasswordError, ChangePasswordRequest};
use authcore::login::{login, LoginError, LoginRequest, Session};
use authcore::store::{IdentityStore, Purpose};

const TTL: u64 = 3600;
const NOW: u64 = 1_000;
const USER_ID: u128 = 303;

fn text(s: &str) -> String {
    s.to_string()
}

/// A store holding the active user db303, as after signup and activation.
fn store_with_active_user() -> IdentityStore {
    let mut store = IdentityStore::new(TTL);
    store
        .signup(
            USER_ID,
            text("db303"),
            text("acid@house.net"),
            &text("House!909"),
            text("activation-token-1"),
            NOW,
        )
        .unwrap();
    assert_eq!(store.activate(&text("activation-token-1"), NOW + 1), Ok(USER_ID));
    store
}

fn change_request(token: &str, password: &str, again: &str) -> ChangePasswordRequest {
    ChangePasswordRequest {
        reset_token: Some(text(token)),
        password: Some(text(password)),
        password_again: Some(text(again)),
    }
}

/// The HTTP status that a login with these credentials answers.
fn login_status(store: &IdentityStore, username: &str, password: &str) -> u16 {
    let mut session = Session::new(1);
    let request = LoginRequest { username: text(username), password: text(password) };
    match login(store, &mut session, &request, 2) {
        Ok(_) => 200,
        Err(e) => e.status_code(),
    }
}

fn change_status(store: &mut IdentityStore, request: &ChangePasswordRequest, now: u64) -> u16 {
    match store.change_password(request, now) {
        Ok(()) => 200,
        Err(e) => e.status_code(),
    }
}

#[test]
fn change_password_changes_password_if_token_is_correct() {
    let mut store = store_with_active_user();
    assert_eq!(store.request_reset(&text("acid@house.net"), text("reset-1"), NOW + 2), Ok(Some(USER_ID)));
    store.change_password(&change_request("reset-1", "House!808", "House!808"), NOW + 3).unwrap();
    assert_eq!(200, login_status(&store, "db303", "House!808"));
}

#[test]
fn change_password_returns_200_if_the_latest_token_is_used() {
    let mut store = store_with_active_user();
    store.request_reset(&text("acid@house.net"), text("reset-1"), NOW + 2).unwrap();
    store.request_reset(&text("acid@house.net"), text("reset-2"), NOW + 3).unwrap();
    store.change_password(&change_request("reset-2", "House!808", "House!808"), NOW + 4).unwrap();
    assert_eq!(200, login_status(&store, "db303", "House!808"));
}

#[test]
fn change_password_returns_401_if_another_token_was_requested() {
    let mut store = store_with_active_user();
    store.request_reset(&text("acid@house.net"), text("reset-1"), NOW + 2).unwrap();
    store.request_reset(&text("acid@house.net"), text("reset-2"), NOW + 3).unwrap();
    let request = change_request("reset-1", "House!808", "House!808");
    assert_eq!(401, change_status(&mut store, &request, NOW + 4));
}

#[test]
fn change_password_returns_400_if_new_password_is_invalid() {
    let mut store = store_with_active_user();
    store.request_reset(&text("acid@house.net"), text("reset-1"), NOW + 2).unwrap();
    let request = change_request("reset-1", "H", "H");
    assert_eq!(400, change_status(&mut store, &request, NOW + 3));
}

#[test]
fn change_password_returns_a_400_when_data_is_missing() {
    let mut store = IdentityStore::new(TTL);
    let no_reset_token = ChangePasswordRequest {
        reset_token: None,
        password: Some(text("House!909")),
        password_again: Some(text("House!909")),
    };
    let no_password = ChangePasswordRequest {
        reset_token: Some(text("12346")),
        password: None,
        password_again: None,
    };
    let no_password_repeat = ChangePasswordRequest {
        reset_token: Some(text("12346")),
        password: Some(text("House!909")),
        password_again: None,
    };
    let nothing = ChangePasswordRequest { reset_token: None, password: None, password_again: None };
    let test_cases = vec![
        (no_reset_token, "missing the reset token"),
        (no_password, "missing the password"),
        (no_password_repeat, "missing the password repeat"),
        (nothing, "missing everything"),
    ];
    for (invalid_body, error_message) in test_cases {
        assert_eq!(
            400,
            change_status(&mut store, &invalid_body, NOW),
            "The API did not fail with 400 Bad Request when the payload was {}.",
            error_message
        );
    }
}

#[test]
fn change_password_returns_a_401_if_passwords_do_not_match() {
    let mut store = IdentityStore::new(TTL);
    let request = change_request("12346", "House!909", "House!303");
    assert_eq!(401, change_status(&mut store, &request, NOW));
}

#[test]
fn change_password_returns_a_401_if_reset_token_is_invalid() {
    let mut store = IdentityStore::new(TTL);
    let request = change_request("12346", "House!909", "House!909");
    assert_eq!(401, change_status(&mut store, &request, NOW));
}

#[test]
fn signup_activate_and_login_succeeds() {
    let store = store_with_active_user();
    assert_eq!(200, login_status(&store, "db303", "House!909"));
}

#[test]
fn login_before_activation_is_forbidden() {
    let mut store = IdentityStore::new(TTL);
    store
        .signup(USER_ID, text("db303"), text("acid@house.net"), &text("House!909"), text("act"), NOW)
        .unwrap();
    assert_eq!(403, login_status(&store, "db303", "House!909"));
    assert_eq!(401, login_status(&store, "db303", "House!808"));
    store.activate(&text("act"), NOW).unwrap();
    assert_eq!(200, login_status(&store, "db303", "House!909"));
}

#[test]
fn login_with_unknown_user_or_wrong_password_is_unauthorized() {
    let store = store_with_active_user();
    assert_eq!(401, login_status(&store, "nobody", "House!909"));
    assert_eq!(401, login_status(&store, "db303", "House!908"));
}

#[test]
fn login_rotates_session_and_binds_user() {
    let store = store_with_active_user();
    let mut session = Session::new(7);
    let request = LoginRequest { username: text("db303"), password: text("House!909") };
    let response = login(&store, &mut session, &request, 8).unwrap();
    assert_eq!(response.status, "success");
    assert_eq!(session.id, 8);
    assert_eq!(session.get_user_id(), Some(USER_ID));
    session.destroy();
    session.destroy();
    assert_eq!(session.get_user_id(), None);
}

#[test]
fn failed_login_leaves_session_alone() {
    let store = store_with_active_user();
    let mut session = Session::new(7);
    let request = LoginRequest { username: text("db303"), password: text("wrong!Pass1") };
    assert_eq!(login(&store, &mut session, &request, 8).err(), Some(LoginError::AuthError));
    assert_eq!(session.id, 7);
    assert_eq!(session.get_user_id(), None);
}

#[test]
fn unknown_reset_token_is_unauthorized() {
    let mut store = store_with_active_user();
    let request = change_request("12346", "House!808", "House!808");
    assert_eq!(store.change_password(&request, NOW), Err(ChangePasswordError::InvalidToken));
    assert_eq!(200, login_status(&store, "db303", "House!909"));
}

#[test]
fn reset_token_redeems_once() {
    let mut store = store_with_active_user();
    store.request_reset(&text("acid@house.net"), text("reset-1"), NOW).unwrap();
    assert_eq!(store.redeem(&text("reset-1"), Purpose::Reset, NOW + 1), Ok(USER_ID));
    assert_eq!(
        store.redeem(&text("reset-1"), Purpose::Reset, NOW + 2),
        Err(authcore::store::TokenError::NotFound)
    );
}

#[test]
fn second_reset_request_supersedes_first() {
    let mut store = store_with_active_user();
    store.request_reset(&text("acid@house.net"), text("reset-1"), NOW).unwrap();
    store.request_reset(&text("acid@house.net"), text("reset-2"), NOW).unwrap();
    assert_eq!(
        store.redeem(&text("reset-1"), Purpose::Reset, NOW),
        Err(authcore::store::TokenError::NotFound)
    );
    assert_eq!(store.redeem(&text("reset-2"), Purpose::Reset, NOW), Ok(USER_ID));
}

#[test]
fn expired_reset_token_is_refused() {
    let mut store = store_with_active_user();
    store.request_reset(&text("acid@house.net"), text("reset-1"), NOW).unwrap();
    assert_eq!(
        store.redeem(&text("reset-1"), Purpose::Reset, NOW + TTL + 1),
        Err(authcore::store::TokenError::Expired)
    );
    let request = change_request("reset-1", "House!808", "House!808");
    assert_eq!(401, change_status(&mut store, &request, NOW + TTL + 1));
    assert_eq!(store.redeem(&text("reset-1"), Purpose::Reset, NOW + TTL), Ok(USER_ID));
}

#[test]
fn reset_for_unknown_email_issues_nothing() {
    let mut store = store_with_active_user();
    assert_eq!(store.request_reset(&text("nobody@house.net"), text("reset-1"), NOW), Ok(None));
    assert_eq!(
        store.redeem(&text("reset-1"), Purpose::Reset, NOW),
        Err(authcore::store::TokenError::NotFound)
    );
}
