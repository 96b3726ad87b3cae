use crate::authentication::{argon2_accepts, phc_parses};
use crate::uuid_text::{format_uuid, parsed_uuid};
use argon2::password_hash::{Error as PasswordHashError, SaltString};
use argon2::{Algorithm, Argon2, Params, PasswordHasher, Version};
use uuid::Uuid;
use vstd::prelude::*;
use vstd::utf8::encode_utf8;

verus! {

#[verifier::external_type_specification]
#[verifier::external_body]
pub struct ExArgon2Params(Params);

#[verifier::external_type_specification]
#[verifier::external_body]
pub struct ExArgon2Error(argon2::Error);

/// Memory cost of new password hashes, in KiB.
pub const HASH_MEMORY_KIB: u32 = 15000;

/// Iterations of new password hashes.
pub const HASH_ITERATIONS: u32 = 2;

/// Lanes of new password hashes.
pub const HASH_LANES: u32 = 1;

pub assume_specification[ Params::new ](
    m_cost: u32,
    t_cost: u32,
    p_cost: u32,
    output_len: Option<usize>,
) -> (r: Result<Params, argon2::Error>);

/// Relies on `SaltString::generate` over `rand::thread_rng`: a random salt.
#[verifier::external_body]
fn generate_salt() -> (r: String) {
    SaltString::generate(&mut rand::thread_rng()).as_str().to_owned()
}

/// Relies on `uuid::Uuid::new_v4`: a random UUID, as its 128-bit value.
#[verifier::external_body]
fn random_uuid() -> (r: u128) {
    Uuid::new_v4().as_u128()
}

/// Relies on `PasswordHasher::hash_password` of an Argon2id (version 0x13)
/// instance with `params`: on success it gives a PHC string that parses, and
/// that `PasswordVerifier::verify_password` accepts for the same password.
#[verifier::external_body]
fn hash_argon2id(params: Params, password: &[u8], salt: &str) -> (r: Result<String, PasswordHashError>)
    ensures
        r matches Ok(h) ==> phc_parses(h@) && argon2_accepts(password@, h@),
{
    match Argon2::new(Algorithm::Argon2id, Version::V0x13, params).hash_password(password, salt) {
        Ok(hash) => Ok(hash.to_string()),
        Err(e) => Err(e),
    }
}

/// A user about to be signed up: a fresh id and the hash of the password.
pub struct NewUser {
    /// The text of the user's UUID.
    pub user_id: String,
    pub username: String,
    /// A PHC string of the password.
    pub password_hash: String,
    pub email: String,
}

impl NewUser {
    /// A new user with a random id, whose password is hashed with Argon2id
    /// under a random salt. Whether hashing succeeds is up to the hashing
    /// library; the hash then verifies against the same password.
    pub fn new(username: String, password: String, email: String) -> (r: Result<NewUser, String>)
        ensures
            r matches Ok(u) ==> {
                &&& u.username@ == username@
                &&& u.email@ == email@
                &&& parsed_uuid(u.user_id@) is Some
                &&& phc_parses(u.password_hash@)
                &&& argon2_accepts(encode_utf8(password@), u.password_hash@)
            },
    {
        let params = match Params::new(HASH_MEMORY_KIB, HASH_ITERATIONS, HASH_LANES, None) {
            Ok(p) => p,
            Err(_) => return Err(String::from_str("Invalid password hashing parameters")),
        };
        let salt = generate_salt();
        let password_hash = match hash_argon2id(params, password.as_str().as_bytes(), salt.as_str()) {
            Ok(h) => h,
            Err(_) => return Err(String::from_str("Failed to hash the password")),
        };
        let user_id = format_uuid(random_uuid());
        Ok(NewUser { user_id, username, password_hash, email })
    }
}

} // verus!
