//! Hashing login keys and charger passwords with Argon2, and checking a
//! password against a stored hash.

use argon2::{PasswordHasher, PasswordVerifier};
use vstd::prelude::*;
use vstd::utf8::encode_utf8;

use crate::error::{login_error_status, login_status_code, Error};
use crate::random::{is_ascii_alphanumeric, random_alphanumeric, random_bytes};

verus! {

/// Name for what verifying `password` against the stored hash string `hash`
/// with `argon2::Argon2::default()` gives: `None` when `hash` is not a
/// PHC hash string, otherwise whether the password matches.
pub uninterp spec fn argon2_verdict(hash: Seq<char>, password: Seq<u8>) -> Option<bool>;

/// Name for whether `argon2::PasswordHash::new` reads `hash` as a PHC hash
/// string.
pub uninterp spec fn phc_readable(hash: Seq<char>) -> bool;

/// Name for the PHC string that `argon2::Argon2::default().hash_password`
/// gives for `key` and the salt whose bytes are `salt` (base64-encoded into
/// a `SaltString`), or `None` when hashing fails.
pub uninterp spec fn argon2_hashed(key: Seq<u8>, salt: Seq<u8>) -> Option<Seq<char>>;

/// Parses `hash` with `argon2::PasswordHash::new` and calls
/// `argon2::Argon2::default().verify_password`. Trusted: the result is the
/// named verdict, and there is none exactly when the hash string cannot be
/// read.
#[verifier::external_body]
fn argon2_verify(hash: &str, password: &[u8]) -> (r: Option<bool>)
    ensures
        r == argon2_verdict(hash@, password@),
        r is None <==> !phc_readable(hash@),
{
    match argon2::PasswordHash::new(hash) {
        Ok(parsed) => Some(argon2::Argon2::default().verify_password(password, &parsed).is_ok()),
        Err(_) => None,
    }
}

/// Encodes `salt` with `argon2::password_hash::SaltString::encode_b64` and
/// calls `argon2::Argon2::default().hash_password`, turning the hash into
/// its PHC string. Trusted: the result is the named hash, and (as the
/// `PasswordVerifier` contract of the crate gives) verifying `key` against
/// it succeeds. An error becomes its text. With a 16-byte salt and a key of
/// at most `0xFFFF_FFFF` bytes there is no error: the salt encodes within
/// `Salt::MAX_LENGTH` and passes the minimum salt length, and the default
/// parameters fix a valid output length.
#[verifier::external_body]
fn argon2_hash(key: &[u8], salt: &[u8]) -> (r: Result<String, String>)
    ensures
        salt@.len() == 16 && key@.len() <= 0xFFFF_FFFF ==> r is Ok,
        match r {
            Ok(h) => argon2_hashed(key@, salt@) == Some(h@) && argon2_verdict(h@, key@) == Some(true),
            Err(_) => argon2_hashed(key@, salt@) is None,
        },
{
    let salt = match argon2::password_hash::SaltString::encode_b64(salt) {
        Ok(s) => s,
        Err(err) => return Err(err.to_string()),
    };
    match argon2::Argon2::default().hash_password(key, &salt) {
        Ok(hash) => Ok(hash.to_string()),
        Err(err) => Err(err.to_string()),
    }
}

/// The answer to "does `password` match the stored `hash`?": an internal
/// error when the stored hash cannot be read.
pub open spec fn password_verdict(hash: Seq<char>, password: Seq<u8>) -> Result<bool, Error> {
    match argon2_verdict(hash, password) {
        None => Err(Error::InternalError),
        Some(b) => Ok(b),
    }
}

/// Hash a login key with Argon2 and the given 16-byte salt.
pub fn hash_key_with_salt(key: &[u8], salt: &[u8]) -> (r: String)
    requires
        salt@.len() == 16,
        key@.len() <= 0xFFFF_FFFF,
    ensures
        argon2_hashed(key@, salt@) == Some(r@),
        password_verdict(r@, key@) == Ok::<bool, Error>(true),
{
    match argon2_hash(key, salt) {
        Ok(h) => h,
        Err(_) => {
            assert(false);
            String::new()
        },
    }
}

/// Hash a login key with Argon2 and a fresh random 16-byte salt. For a key
/// of at most `0xFFFF_FFFF` bytes only drawing the salt from the operating
/// system can fail, and whether it does is left to the machine; a longer
/// key is refused by Argon2.
pub fn hash_key(key: &[u8]) -> (r: Result<String, String>)
    ensures
        r matches Ok(h) ==> password_verdict(h@, key@) == Ok::<bool, Error>(true)
            && exists|salt: Seq<u8>| salt.len() == 16 && argon2_hashed(key@, salt) == Some(h@),
{
    match random_bytes(16) {
        Some(salt) => {
            if key.len() <= 0xFFFF_FFFF {
                Ok(hash_key_with_salt(key, salt.as_slice()))
            } else {
                argon2_hash(key, salt.as_slice())
            }
        },
        None => Err(String::from_str("failed to draw a salt")),
    }
}

/// Whether the key bytes `key` match the stored hash `hash`.
pub fn key_matches(key: &[u8], hash: &str) -> (r: Result<bool, Error>)
    ensures
        r == password_verdict(hash@, key@),
        !phc_readable(hash@) ==> r == Err::<bool, Error>(Error::InternalError),
        phc_readable(hash@) ==> r is Ok,
{
    match argon2_verify(hash, key) {
        Some(b) => Ok(b),
        None => Err(Error::InternalError),
    }
}

/// Whether `password` matches the hash stored for a charger.
pub fn password_matches(password: &str, password_in_db: &str) -> (r: Result<bool, Error>)
    ensures
        r == password_verdict(password_in_db@, encode_utf8(password@)),
        !phc_readable(password_in_db@) ==> r == Err::<bool, Error>(Error::InternalError),
        phc_readable(password_in_db@) ==> r is Ok,
{
    match argon2_verify(password_in_db, password.as_bytes()) {
        Some(b) => Ok(b),
        None => Err(Error::InternalError),
    }
}

/// A fresh charger password (32 random ASCII letters and digits) and its
/// Argon2 hash.
pub fn generate_password() -> (r: Result<(String, String), Error>)
    ensures
        r matches Err(e) ==> e == Error::InternalError,
        r matches Ok((p, h)) ==> {
            &&& p@.len() == 32
            &&& forall|i: int| 0 <= i < 32 ==> is_ascii_alphanumeric(#[trigger] p@[i])
            &&& password_verdict(h@, encode_utf8(p@)) == Ok::<bool, Error>(true)
        },
{
    let password = random_alphanumeric(32);
    match hash_key(password.as_str().as_bytes()) {
        Ok(hash) => Ok((password, hash)),
        Err(_) => Err(Error::InternalError),
    }
}

/// Calls `num_cpus::get_physical()`. Trusted for nothing: the count
/// depends on the machine.
#[verifier::external_body]
fn physical_cpus() -> (n: usize) {
    num_cpus::get_physical()
}

/// The number of hashing workers for `physical_cpus` physical cores: half
/// of them, at least one.
pub fn hasher_workers(physical_cpus: usize) -> (r: usize)
    ensures
        r == (if physical_cpus / 2 >= 1 { physical_cpus / 2 } else { 1 }),
{
    let half = physical_cpus / 2;
    if half >= 1 { half } else { 1 }
}

/// The number of hashing workers on this machine; at least one.
pub fn default_hasher_workers() -> (r: usize)
    ensures
        r >= 1,
{
    hasher_workers(physical_cpus())
}

/// How a user is looked up.
#[derive(Debug, Clone)]
pub enum FindBy {
    Uuid(u128),
    Email(String),
    Username(String),
}

/// What the login route knows of a user: the id, whether the email address
/// was verified and the hash of the login key.
#[derive(Debug, Clone)]
pub struct UserCredentials {
    pub id: u128,
    pub email_verified: bool,
    pub login_key: String,
}

/// The answer to a login with `pass` for the looked-up user (`None` when no
/// user was found).
pub open spec fn login_verdict(user: Option<UserCredentials>, pass: Seq<u8>) -> Result<u128, Error> {
    match user {
        None => Err(Error::WrongCredentials),
        Some(u) => if !u.email_verified {
            Err(Error::NotVerified)
        } else {
            match argon2_verdict(u.login_key@, pass) {
                None => Err(Error::InternalError),
                Some(false) => Err(Error::WrongCredentials),
                Some(true) => Ok(u.id),
            }
        },
    }
}

/// Check a login key against the looked-up user and give the user's id.
pub fn validate_password(pass: &[u8], user: Option<UserCredentials>) -> (r: Result<u128, Error>)
    ensures
        r == login_verdict(user, pass@),
{
    match user {
        None => Err(Error::WrongCredentials),
        Some(u) => {
            if !u.email_verified {
                return Err(Error::NotVerified);
            }
            match argon2_verify(u.login_key.as_str(), pass) {
                None => Err(Error::InternalError),
                Some(false) => Err(Error::WrongCredentials),
                Some(true) => Ok(u.id),
            }
        },
    }
}

/// The login route's answer for `pass` and the looked-up user: the user's
/// id, or the error with the status code the route documents for it (403
/// for an unverified account, whatever key was sent; 401 for an unknown
/// user or a wrong key).
pub open spec fn login_answer(user: Option<UserCredentials>, pass: Seq<u8>) -> Result<u128, (Error, u16)> {
    match login_verdict(user, pass) {
        Ok(id) => Ok(id),
        Err(e) => Err((e, login_error_status(e))),
    }
}

/// Decide a login: the user's id, or the error and its status code.
pub fn login_decision(pass: &[u8], user: Option<UserCredentials>) -> (r: Result<u128, (Error, u16)>)
    ensures
        r == login_answer(user, pass@),
{
    match validate_password(pass, user) {
        Ok(id) => Ok(id),
        Err(e) => Err((e, login_status_code(e))),
    }
}

} // verus!
