use argon2::password_hash::Error as PasswordHashError;
use argon2::{Argon2, PasswordHash, PasswordVerifier};
use secrecy::{ExposeSecret, Secret};
use vstd::prelude::*;
use vstd::utf8::encode_utf8;

verus! {

#[verifier::external_type_specification]
#[verifier::external_body]
pub struct ExPasswordHash<'a>(PasswordHash<'a>);

#[verifier::external_type_specification]
#[verifier::external_body]
pub struct ExPasswordHashError(PasswordHashError);

/// A password or a password hash. It has no `Debug` and no string
/// conversion: its text leaves only through `expose`.
#[verifier::external_body]
pub struct SecretText {
    inner: Secret<String>,
}

/// The text held by a `SecretText`.
pub uninterp spec fn secret_text(s: SecretText) -> Seq<char>;

/// Whether a string parses in the PHC string format.
pub uninterp spec fn phc_parses(phc: Seq<char>) -> bool;

/// Whether Argon2 accepts a candidate password (as bytes) for a PHC string.
pub uninterp spec fn argon2_accepts(password: Seq<u8>, phc: Seq<char>) -> bool;

impl SecretText {
    /// Relies on `secrecy::Secret::new`: it wraps the string unchanged.
    #[verifier::external_body]
    pub(crate) fn new(text: String) -> (r: SecretText)
        ensures
            secret_text(r) == text@,
    {
        SecretText { inner: Secret::new(text) }
    }

    /// Relies on `secrecy::ExposeSecret::expose_secret`: it hands out the
    /// wrapped string unchanged.
    #[verifier::external_body]
    pub(crate) fn expose(&self) -> (r: &String)
        ensures
            r@ == secret_text(*self),
    {
        self.inner.expose_secret()
    }
}

/// A PHC string together with its parsed form. Only `parse_phc` builds one,
/// so `hash` is always the parse of `phc`.
struct ParsedHash<'a> {
    phc: &'a str,
    hash: PasswordHash<'a>,
}

/// Relies on `password_hash::PasswordHash::new`: whether a PHC string parses
/// depends on the string alone.
#[verifier::external_body]
fn parse_phc<'a>(phc: &'a str) -> (r: Result<ParsedHash<'a>, PasswordHashError>)
    ensures
        r is Ok <==> phc_parses(phc@),
        r matches Ok(h) ==> h.phc@ == phc@,
{
    match PasswordHash::new(phc) {
        Ok(hash) => Ok(ParsedHash { phc, hash }),
        Err(e) => Err(e),
    }
}

/// Relies on `argon2::Argon2::default` and `PasswordVerifier::verify_password`:
/// the default instance holds no secret key and takes algorithm, version,
/// parameters and salt from the hash, so the outcome depends on the candidate
/// bytes and the PHC string alone.
#[verifier::external_body]
fn argon2_verify(password: &[u8], expected: &ParsedHash) -> (r: Result<(), PasswordHashError>)
    ensures
        r is Ok <==> argon2_accepts(password@, expected.phc@),
{
    Argon2::default().verify_password(password, &expected.hash)
}

/// A PHC string that belongs to no account. Unknown usernames are checked
/// against it, so that they cost as much time as known ones.
pub const DUMMY_PASSWORD_HASH: &'static str =
    "$argon2id$v=19$m=15000,t=2,p=1$gZiV/M1gPc22ElAH/Jh1Hw$CWOrkoo7oJBQ/iyh7uJ0LO2aLEfrHwTWllSAxT0zRno";

/// A username and a candidate password, as submitted at login. The password
/// stays wrapped, so it shows in no debug output.
pub struct Credentials {
    pub username: String,
    pub password: SecretText,
}

impl Credentials {
    /// Credentials as submitted; the password is wrapped at once.
    pub fn new(username: String, password: String) -> (r: Credentials)
        ensures
            r.username@ == username@,
            secret_text(r.password) == password@,
    {
        Credentials { username, password: SecretText::new(password) }
    }
}

/// An identity that was verified, by credentials or by a session.
#[derive(Debug, Clone, PartialEq, Eq)]
pub struct UserInfo {
    /// The account's UUID, as its 128-bit value.
    pub user_id: u128,
    pub username: String,
}

/// What the credential store holds for one account.
pub struct StoredCredentials {
    pub user_info: UserInfo,
    /// A PHC string: algorithm, parameters, salt and digest.
    pub password_hash: SecretText,
}

impl StoredCredentials {
    /// A stored record; the hash is wrapped at once.
    pub fn new(user_info: UserInfo, password_hash: String) -> (r: StoredCredentials)
        ensures
            r.user_info == user_info,
            secret_text(r.password_hash) == password_hash@,
    {
        StoredCredentials { user_info, password_hash: SecretText::new(password_hash) }
    }
}

/// Why a login did not produce an identity.
#[derive(Debug, Clone, PartialEq, Eq)]
pub enum AuthError {
    /// Unknown username or wrong password; the two are never told apart.
    InvalidCredentials,
    /// Something that is no fault of the user; the text is for the logs.
    UnexpectedError(String),
}

/// The outcome of checking a candidate password against a PHC string.
#[derive(Debug, Clone, Copy, PartialEq, Eq, Structural)]
pub enum HashCheck {
    Matched,
    Mismatched,
    /// The PHC string does not parse: corrupt stored data.
    Unparsable,
}

/// The bytes of a password, as the hashing function reads them.
pub open spec fn password_bytes(p: SecretText) -> Seq<u8> {
    encode_utf8(secret_text(p))
}

/// The outcome of checking `password` against the PHC string `phc`.
pub open spec fn hash_check_of(password: Seq<u8>, phc: Seq<char>) -> HashCheck {
    if !phc_parses(phc) {
        HashCheck::Unparsable
    } else if argon2_accepts(password, phc) {
        HashCheck::Matched
    } else {
        HashCheck::Mismatched
    }
}

/// Whether `r` is what a login yields for the account found (if any) and
/// the outcome of the hash check.
pub open spec fn authentication_outcome(
    user: Option<UserInfo>,
    check: HashCheck,
    r: Result<UserInfo, AuthError>,
) -> bool {
    match check {
        HashCheck::Unparsable => r matches Err(AuthError::UnexpectedError(_)),
        HashCheck::Mismatched => r == Err::<UserInfo, AuthError>(AuthError::InvalidCredentials),
        HashCheck::Matched => match user {
            Some(u) => r == Ok::<UserInfo, AuthError>(u),
            None => r == Err::<UserInfo, AuthError>(AuthError::InvalidCredentials),
        },
    }
}

/// Checks a candidate password against a PHC string. This is the costly,
/// memory-hard step; it runs whether or not the account exists.
pub fn check_password_hash(phc: &str, candidate: &SecretText) -> (r: HashCheck)
    ensures
        r == hash_check_of(password_bytes(*candidate), phc@),
{
    let parsed = match parse_phc(phc) {
        Ok(parsed) => parsed,
        Err(_) => return HashCheck::Unparsable,
    };
    let password = candidate.expose().as_str().as_bytes();
    match argon2_verify(password, &parsed) {
        Ok(()) => HashCheck::Matched,
        Err(_) => HashCheck::Mismatched,
    }
}

/// Decides a login from the account found (if any) and the outcome of the
/// hash check: an identity only for a real account whose hash matched.
pub fn authenticate(user: Option<UserInfo>, check: HashCheck) -> (r: Result<UserInfo, AuthError>)
    ensures
        authentication_outcome(user, check, r),
{
    match check {
        HashCheck::Unparsable => Err(
            AuthError::UnexpectedError(
                String::from_str("Failed to parse hash in PHC string format."),
            ),
        ),
        HashCheck::Mismatched => Err(AuthError::InvalidCredentials),
        HashCheck::Matched => match user {
            Some(u) => Ok(u),
            None => Err(AuthError::InvalidCredentials),
        },
    }
}

/// Verifies credentials against the record that the credential store holds
/// for the username, or `None` where it holds none. An unknown username is
/// checked against `DUMMY_PASSWORD_HASH`, and always fails.
pub fn validate_credentials(
    credentials: Credentials,
    stored: Option<StoredCredentials>,
) -> (r: Result<UserInfo, AuthError>)
    ensures
        stored is None ==> r == Err::<UserInfo, AuthError>(AuthError::InvalidCredentials),
        stored matches Some(s) ==> authentication_outcome(
            Some(s.user_info),
            hash_check_of(password_bytes(credentials.password), secret_text(s.password_hash)),
            r,
        ),
{
    match stored {
        Some(record) => {
            let check = check_password_hash(
                record.password_hash.expose().as_str(),
                &credentials.password,
            );
            authenticate(Some(record.user_info), check)
        },
        None => {
            // The check runs for its cost alone: no outcome of it admits
            // an unknown username.
            let _check = check_password_hash(DUMMY_PASSWORD_HASH, &credentials.password);
            Err(AuthError::InvalidCredentials)
        },
    }
}

} // verus!
