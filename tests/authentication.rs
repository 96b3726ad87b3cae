use debt_tracer::authentication::{
    authenticate, check_password_hash, reject_anonymous_users, resolve_identity, validate_credentials,
    AccessError, AuthError, Credentials, HashCheck, StoredCredentials, UserInfo,
    DUMMY_PASSWORD_HASH,
};
use debt_tracer::domain::NewUser;
use debt_tracer::routes::{complete_login, login, LoginError};
use debt_tracer::session_state::{SessionError, SessionStatus, TypedSession};

const ALICE_ID: u128 = 0x67e5504410b1426f9247bb680e5fe0c8;
const ALICE_ID_TEXT: &str = "67e55044-10b1-426f-9247-bb680e5fe0c8";

fn alice() -> UserInfo {
    UserInfo { user_id: ALICE_ID, username: "alice".to_string() }
}

fn hash_of(password: &str) -> String {
    NewUser::new("someone".to_string(), password.to_string(), "someone@example.com".to_string())
        .unwrap()
        .password_hash
}

fn alice_record() -> StoredCredentials {
    StoredCredentials::new(alice(), hash_of("correct"))
}

fn credentials(username: &str, password: &str) -> Credentials {
    Credentials::new(username.to_string(), password.to_string())
}

#[test]
fn unknown_username_is_invalid_credentials() {
    let r = validate_credentials(credentials("nobody", "correct"), None);
    assert_eq!(r, Err(AuthError::InvalidCredentials));
}

#[test]
fn dummy_hash_is_a_real_phc_string() {
    // Unknown usernames pay for a full hash check against it.
    let c = credentials("nobody", "anything");
    assert_eq!(check_password_hash(DUMMY_PASSWORD_HASH, &c.password), HashCheck::Mismatched);
}

#[test]
fn correct_password_yields_the_stored_identity() {
    let r = validate_credentials(credentials("alice", "correct"), Some(alice_record()));
    assert_eq!(r, Ok(alice()));
}

#[test]
fn wrong_password_is_invalid_credentials() {
    let r = validate_credentials(credentials("alice", "correct!"), Some(alice_record()));
    assert_eq!(r, Err(AuthError::InvalidCredentials));
}

#[test]
fn corrupt_stored_hash_is_unexpected() {
    let record = StoredCredentials::new(alice(), "not a phc string".to_string());
    let r = validate_credentials(credentials("alice", "correct"), Some(record));
    assert!(matches!(r, Err(AuthError::UnexpectedError(_))));
    let c = credentials("alice", "correct");
    assert_eq!(check_password_hash("", &c.password), HashCheck::Unparsable);
}

#[test]
fn authenticate_admits_only_a_real_account_that_matched() {
    assert_eq!(authenticate(Some(alice()), HashCheck::Matched), Ok(alice()));
    assert_eq!(authenticate(None, HashCheck::Matched), Err(AuthError::InvalidCredentials));
    assert_eq!(
        authenticate(Some(alice()), HashCheck::Mismatched),
        Err(AuthError::InvalidCredentials)
    );
    assert_eq!(authenticate(None, HashCheck::Mismatched), Err(AuthError::InvalidCredentials));
    assert!(matches!(
        authenticate(Some(alice()), HashCheck::Unparsable),
        Err(AuthError::UnexpectedError(_))
    ));
}

#[test]
fn successful_login_renews_the_session_and_writes_the_identity() {
    let mut session = TypedSession::from_store(None, None);
    assert_eq!(session.status(), SessionStatus::Unchanged);
    assert_eq!(complete_login(Ok(alice()), &mut session), Ok(()));
    assert_eq!(session.status(), SessionStatus::Renewed);
    assert_eq!(session.get_user_id(), Ok(Some(ALICE_ID)));
    assert_eq!(session.get_username(), Some("alice".to_string()));
    assert_eq!(session.stored_user_id(), Some(ALICE_ID_TEXT.to_string()));
}

#[test]
fn failed_login_leaves_the_session_as_it_was() {
    let mut session = TypedSession::anonymous();
    assert_eq!(
        complete_login(Err(AuthError::InvalidCredentials), &mut session),
        Err(LoginError::AuthError)
    );
    assert_eq!(session.status(), SessionStatus::Unchanged);
    assert_eq!(session.get_user_id(), Ok(None));
    let r = complete_login(Err(AuthError::UnexpectedError("db down".to_string())), &mut session);
    assert_eq!(r, Err(LoginError::UnexpectedError("db down".to_string())));
    assert_eq!(session.status(), SessionStatus::Unchanged);
}

#[test]
fn login_errors_map_to_status_codes() {
    assert_eq!(LoginError::AuthError.status_code(), 401);
    assert_eq!(LoginError::UnexpectedError(String::new()).status_code(), 500);
    assert_eq!(AccessError::Unauthorized.status_code(), 401);
    let e = AccessError::Internal(SessionError::MalformedUserId("x".to_string()));
    assert_eq!(e.status_code(), 500);
}

#[test]
fn middleware_refuses_sessions_without_a_full_identity() {
    let sessions = vec![
        TypedSession::anonymous(),
        TypedSession::from_store(Some(ALICE_ID_TEXT.to_string()), None),
        TypedSession::from_store(None, Some("alice".to_string())),
    ];
    for session in &sessions {
        let mut calls = 0;
        let r = reject_anonymous_users(session, |_ctx| {
            calls += 1;
        });
        assert_eq!(r, Err(AccessError::Unauthorized));
        assert_eq!(calls, 0);
    }
}

#[test]
fn middleware_reports_an_unreadable_user_id_as_internal() {
    let session = TypedSession::from_store(Some("garbage".to_string()), Some("alice".to_string()));
    let mut calls = 0;
    let r = reject_anonymous_users(&session, |_ctx| {
        calls += 1;
    });
    assert_eq!(
        r,
        Err(AccessError::Internal(SessionError::MalformedUserId("garbage".to_string())))
    );
    assert_eq!(calls, 0);
    assert_eq!(session.get_user_id(), Err(SessionError::MalformedUserId("garbage".to_string())));
}

#[test]
fn middleware_hands_the_session_identity_to_the_handler() {
    let session =
        TypedSession::from_store(Some(ALICE_ID_TEXT.to_string()), Some("alice".to_string()));
    let mut calls = 0;
    let r = reject_anonymous_users(&session, |ctx| {
        calls += 1;
        (ctx.user_id.as_u128(), ctx.username.as_str().to_string())
    });
    assert_eq!(r, Ok((ALICE_ID, "alice".to_string())));
    assert_eq!(calls, 1);
    let ctx = resolve_identity(&session).unwrap();
    assert_eq!(ctx.user_id.0, ALICE_ID);
    assert_eq!(ctx.username.0, "alice");
}

#[test]
fn session_fields_round_trip() {
    let mut session = TypedSession::anonymous();
    session.insert_user_id(42);
    assert_eq!(session.get_user_id(), Ok(Some(42)));
    assert_eq!(session.status(), SessionStatus::Changed);
    session.insert_username("carol".to_string());
    assert_eq!(session.get_username(), Some("carol".to_string()));
    session.remove_username();
    assert_eq!(session.get_username(), None);
    assert_eq!(session.get_user_id(), Ok(Some(42)));
    session.purge();
    assert_eq!(session.get_user_id(), Ok(None));
    assert_eq!(session.status(), SessionStatus::Purged);
    session.insert_user_id(7);
    assert_eq!(session.status(), SessionStatus::Renewed);
}

#[test]
fn renew_keeps_the_fields() {
    let mut session = TypedSession::from_store(Some(ALICE_ID_TEXT.to_string()), None);
    session.renew();
    assert_eq!(session.status(), SessionStatus::Renewed);
    assert_eq!(session.get_user_id(), Ok(Some(ALICE_ID)));
    session.remove_user_id();
    assert_eq!(session.get_user_id(), Ok(None));
    assert_eq!(session.status(), SessionStatus::Renewed);
}

#[test]
fn alice_logs_in_and_reaches_a_protected_route() {
    let record = alice_record();
    let mut session = TypedSession::anonymous();
    let r = login(credentials("alice", "correct"), Some(record), &mut session);
    assert_eq!(r, Ok(()));
    assert_eq!(session.status(), SessionStatus::Renewed);
    let seen = reject_anonymous_users(&session, |ctx| ctx.username.as_str().to_string());
    assert_eq!(seen, Ok("alice".to_string()));
    let anonymous = TypedSession::anonymous();
    let refused = reject_anonymous_users(&anonymous, |ctx| ctx.username.as_str().to_string());
    assert_eq!(refused.unwrap_err().status_code(), 401);
}

#[test]
fn login_with_a_wrong_password_is_refused() {
    let mut session = TypedSession::anonymous();
    let r = login(credentials("alice", "wrong"), Some(alice_record()), &mut session);
    assert_eq!(r, Err(LoginError::AuthError));
    assert_eq!(session.status(), SessionStatus::Unchanged);
    let r = login(credentials("mallory", "correct"), None, &mut session);
    assert_eq!(r, Err(LoginError::AuthError));
}
