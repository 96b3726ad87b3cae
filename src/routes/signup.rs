use crate::authentication::{argon2_accepts, phc_parses};
use crate::domain::NewUser;
use vstd::prelude::*;
use vstd::utf8::encode_utf8;

verus! {

/// What a client submits to sign up.
pub struct SignUpJsonRequestBody {
    pub username: String,
    pub password: String,
    pub email: String,
}

/// Why a sign-up fails.
#[derive(Debug, Clone, PartialEq, Eq)]
pub enum SignUpError {
    /// Something went wrong on this side; the text is for the logs.
    UnexpectedError(String),
}

impl SignUpError {
    /// The HTTP status that answers the sign-up.
    pub fn status_code(&self) -> (r: u16)
        ensures
            r == 500,
    {
        500
    }
}

impl NewUser {
    /// The user that a sign-up request describes.
    pub fn try_from_body(body: SignUpJsonRequestBody) -> (r: Result<NewUser, SignUpError>)
        ensures
            r matches Ok(u) ==> {
                &&& u.username@ == body.username@
                &&& u.email@ == body.email@
                &&& phc_parses(u.password_hash@)
                &&& argon2_accepts(encode_utf8(body.password@), u.password_hash@)
            },
    {
        match NewUser::new(body.username, body.password, body.email) {
            Ok(u) => Ok(u),
            Err(m) => Err(SignUpError::UnexpectedError(m)),
        }
    }
}

} // verus!
