//! Accounts: the rules for a registration, passwords, and the claims of a
//! session token.

use vstd::prelude::*;
use vstd::string::*;
use argon2::password_hash::rand_core::OsRng;
use argon2::password_hash::{PasswordHash, PasswordHasher, PasswordVerifier, SaltString};
use argon2::Argon2;
use crate::pattern::{is_match, pattern_found};
use crate::text::{decimal, decimal_string};

verus! {

/// The pattern of a user name: letters and digits only, at least one.
pub const USERNAME_PATTERN: &'static str = "^[a-zA-Z0-9]+$";

/// The least number of bytes of a password.
pub const MIN_PASSWORD_LEN: usize = 8;

/// How many seconds a session token is valid for: seven days.
pub const TOKEN_LIFETIME: i64 = 604800;

/// What is said of a user name that is refused.
pub const USERNAME_REFUSED: &'static str = "Username must be alphanumeric (a-z, A-Z, 0-9).";

/// The claims of a session token.
#[derive(Debug, Clone, Copy, PartialEq, Eq, Structural)]
pub struct Claims {
    /// The user the token was issued to.
    pub sub: i64,
    /// When the token expires, in seconds since the epoch.
    pub exp: i64,
    /// When the token was issued, in seconds since the epoch.
    pub iat: i64,
}

/// The user on whose behalf a request is handled.
#[derive(Debug, Clone, Copy, PartialEq, Eq, Structural)]
pub struct AuthUser {
    pub user_id: i64,
}

/// Whether `argon2` finds that `password` matches the encoded hash `hash`;
/// `None` where `hash` is no encoded password hash.
pub uninterp spec fn argon2_accepts(password: Seq<char>, hash: Seq<char>) -> Option<bool>;

/// What is said of a password that is too short.
pub open spec fn password_refused() -> Seq<char> {
    "Password must be at least "@ + decimal(MIN_PASSWORD_LEN as nat) + " characters long."@
}

/// The verdict on a registration, from whether the user name fits the
/// pattern and how many bytes the password has. The user name is judged first.
pub open spec fn verdict(username_fits: bool, password_len: int) -> Result<(), Seq<char>> {
    if !username_fits {
        Err(USERNAME_REFUSED@)
    } else if password_len < MIN_PASSWORD_LEN {
        Err(password_refused())
    } else {
        Ok(())
    }
}

/// The view of a verdict.
pub open spec fn verdict_view(r: Result<(), String>) -> Result<(), Seq<char>> {
    match r {
        Ok(()) => Ok(()),
        Err(m) => Err(m@),
    }
}

/// `argon2::password_hash::PasswordHash::new` on the hash and
/// `PasswordVerifier::verify_password` of `Argon2::default()`: whether the
/// crate finds the password to match, and `None` where it cannot read the hash.
#[verifier::external_body]
fn argon2_verify(password: &str, hash: &str) -> (r: Option<bool>)
    ensures
        r == argon2_accepts(password@, hash@),
{
    match PasswordHash::new(hash) {
        Ok(parsed) => Some(Argon2::default().verify_password(password.as_bytes(), &parsed).is_ok()),
        Err(_) => None,
    }
}

/// `SaltString::generate` with the system's random numbers and
/// `PasswordHasher::hash_password` of `Argon2::default()`, with `to_string`
/// on the hash or on the error. The salt is random, so the hash is not
/// named; the crate writes algorithm, version, parameters and salt into the
/// encoded hash and verifies by computing again from them, so a hash that it
/// hands out is one that it accepts for the same password.
#[verifier::external_body]
fn argon2_hash(password: &str) -> (r: Result<String, String>)
    ensures
        r matches Ok(hash) ==> argon2_accepts(password@, hash@) == Some(true),
{
    let salt = SaltString::generate(OsRng);
    match Argon2::default().hash_password(password.as_bytes(), &salt) {
        Ok(hash) => Ok(hash.to_string()),
        Err(e) => Err(e.to_string()),
    }
}

/// The verdict on a registration, from whether the user name fits the
/// pattern and how many bytes the password has.
pub fn registration_verdict(username_fits: bool, password_len: usize) -> (r: Result<(), String>)
    ensures
        verdict_view(r) == verdict(username_fits, password_len as int),
{
    if !username_fits {
        return Err(USERNAME_REFUSED.to_owned());
    }
    if password_len < MIN_PASSWORD_LEN {
        let mut message = "Password must be at least ".to_owned();
        message.append(decimal_string(MIN_PASSWORD_LEN).as_str());
        message.append(" characters long.");
        return Err(message);
    }
    Ok(())
}

/// Judges a registration: the user name must be made of letters and digits
/// only, the password have at least eight bytes.
///
/// The user name is judged first, by the pattern `USERNAME_PATTERN`.
pub fn validate_registration(username: &str, password: &str) -> (r: Result<(), String>)
    ensures
        verdict_view(r) == verdict(
            pattern_found(USERNAME_PATTERN@, username@) == Some(true),
            password.len() as int,
        ),
{
    let fits = match is_match(USERNAME_PATTERN, username) {
        Some(found) => found,
        None => false,
    };
    registration_verdict(fits, password.len())
}

/// A fresh salted hash of the password, encoded as text, or the message of
/// the hasher's error.
///
/// The salt is drawn anew at every call, so the hash is not a function of
/// the password. Whether hashing succeeds is the hasher's to say; a hash
/// that is returned is one that `verify_password` accepts for this password.
pub fn hash_password(password: &str) -> (r: Result<String, String>)
    ensures
        r matches Ok(hash) ==> argon2_accepts(password@, hash@) == Some(true),
{
    argon2_hash(password)
}

/// Whether the password matches the encoded hash. A hash that cannot be
/// read matches nothing.
pub fn verify_password(password: &str, hash: &str) -> (r: bool)
    ensures
        r == (argon2_accepts(password@, hash@) == Some(true)),
{
    match argon2_verify(password, hash) {
        Some(matches) => matches,
        None => false,
    }
}

impl Claims {
    /// The claims of a token issued to `user_id` at `now`, valid for seven days.
    pub fn issue(user_id: i64, now: i64) -> (claims: Claims)
        requires
            now + TOKEN_LIFETIME <= i64::MAX,
        ensures
            claims == (Claims { sub: user_id, exp: (now + TOKEN_LIFETIME) as i64, iat: now }),
    {
        Claims { sub: user_id, exp: now + TOKEN_LIFETIME, iat: now }
    }

    /// Whether the token has expired at `now`.
    pub fn is_expired(&self, now: i64) -> (r: bool)
        ensures
            r == (self.exp < now),
    {
        self.exp < now
    }
}

} // verus!
