use crate::authentication::{
    access_of, hash_check_of, password_bytes, validate_credentials,
    Access, AuthError, Credentials, HashCheck, StoredCredentials, UserInfo,
};
use crate::authentication::secret_text;
use crate::session_state::{decoded_user_id, SessionStatus, SessionView, TypedSession};
use vstd::prelude::*;

verus! {

/// Why a login fails, as the client may learn it.
#[derive(Debug, Clone, PartialEq, Eq)]
pub enum LoginError {
    /// The credentials were not accepted.
    AuthError,
    /// Something went wrong on this side; the text is for the logs.
    UnexpectedError(String),
}

impl LoginError {
    /// The HTTP status that answers the login.
    pub fn status_code(&self) -> (r: u16)
        ensures
            self is AuthError ==> r == 401,
            self is UnexpectedError ==> r == 500,
    {
        match self {
            LoginError::AuthError => 401,
            LoginError::UnexpectedError(_) => 500,
        }
    }
}

/// Whether a session, after a login as `u`, carries `u` under a new
/// identifier: it is marked for renewal, and both identity fields read back
/// as `u`, so that the middleware admits it as `u`.
pub open spec fn logged_in(v: SessionView, u: UserInfo) -> bool {
    &&& v.status == SessionStatus::Renewed
    &&& decoded_user_id(v) == Ok::<Option<u128>, ()>(Some(u.user_id))
    &&& v.username == Some(u.username@)
    &&& access_of(v) == Access::Granted(u.user_id, u.username@)
}

/// Completes a login from the outcome of the credential check. On success
/// the session is renewed first, then the identity is written into it; on
/// failure the session is left as it was.
pub fn complete_login(outcome: Result<UserInfo, AuthError>, session: &mut TypedSession) -> (r:
    Result<(), LoginError>)
    ensures
        match outcome {
            Ok(u) => r is Ok && logged_in(final(session)@, u),
            Err(AuthError::InvalidCredentials) => r == Err::<(), LoginError>(LoginError::AuthError)
                && final(session)@ == old(session)@,
            Err(AuthError::UnexpectedError(m)) => r == Err::<(), LoginError>(
                LoginError::UnexpectedError(m),
            ) && final(session)@ == old(session)@,
        },
{
    match outcome {
        Ok(u) => {
            session.renew();
            session.insert_user_id(u.user_id);
            session.insert_username(u.username);
            Ok(())
        },
        Err(AuthError::InvalidCredentials) => Err(LoginError::AuthError),
        Err(AuthError::UnexpectedError(m)) => Err(LoginError::UnexpectedError(m)),
    }
}

/// Logs in with credentials, given what the credential store holds for the
/// username (`None` where it holds nothing).
pub fn login(
    credentials: Credentials,
    stored: Option<StoredCredentials>,
    session: &mut TypedSession,
) -> (r: Result<(), LoginError>)
    ensures
        stored is None ==> r == Err::<(), LoginError>(LoginError::AuthError) && final(session)@
            == old(session)@,
        stored matches Some(s) ==> match hash_check_of(
            password_bytes(credentials.password),
            secret_text(s.password_hash),
        ) {
            HashCheck::Matched => r is Ok && logged_in(final(session)@, s.user_info),
            HashCheck::Mismatched => r == Err::<(), LoginError>(LoginError::AuthError)
                && final(session)@ == old(session)@,
            HashCheck::Unparsable => r matches Err(LoginError::UnexpectedError(_))
                && final(session)@ == old(session)@,
        },
{
    let outcome = validate_credentials(credentials, stored);
    complete_login(outcome, session)
}

} // verus!
