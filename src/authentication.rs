//! Checking submitted credentials against stored password hashes, and
//! guarding protected routes behind a verified identity.
mod middleware;
mod password;

pub use middleware::{
    access_of, lemma_full_session_is_granted, lemma_missing_field_is_unauthorized,
    reject_anonymous_users, resolve_identity, resolves_to, Access, AccessError,
    RequestContext, UserId, Username,
};
pub use password::{
    argon2_accepts, phc_parses,
    authenticate, authentication_outcome, check_password_hash, hash_check_of, password_bytes,
    validate_credentials, secret_text, AuthError, Credentials, HashCheck, SecretText, StoredCredentials,
    UserInfo, DUMMY_PASSWORD_HASH,
};
