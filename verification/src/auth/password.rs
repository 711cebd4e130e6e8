//! Argon2 hashes of passwords, and checks of a password against its stored
//! hash.

use vstd::prelude::*;

use argon2::password_hash::{PasswordHash, PasswordHasher, PasswordVerifier, SaltString};
use argon2::{Algorithm, Argon2, Params, Version};

use crate::error::{AuthError, PasswordError};
use crate::repository::auth_repo::{AuthRepository, SQL_CHANGE_PASSWORD, SQL_LOCK_LIVE_OF_USER, SQL_REVOKE_LIVE_OF_USER};
use crate::repository::query::{QueryBuilder, SqlArgView};
use crate::token::{random_refresh_bytes, REFRESH_TOKEN_BYTES};

verus! {

/// Whether Argon2, keyed with `pepper` as its secret, accepts `password` for
/// the PHC string `password_hash`: the algorithm, version, parameters and
/// salt are the ones the string names, and the hash it computes equals the
/// one the string holds.
pub uninterp spec fn argon2_accepts(password: Seq<char>, password_hash: Seq<char>, pepper: Seq<char>) -> bool;

/// Parses `password_hash` with `PasswordHash::new`, makes an Argon2 hasher
/// keyed with the pepper (`Argon2::new_with_secret`) and asks its
/// `verify_password` whether the password matches; a hash that does not
/// parse, or a pepper too long to be a secret, matches nothing. What comes
/// back depends on the three strings alone: `verify_password` recomputes the
/// hash with what the string names, and only the secret comes from the
/// hasher. Which strings it accepts is named, not stated. A string whose
/// parameters ask for more memory than the allocator can give stops the
/// process; that limit is the machine's and is not stated.
#[verifier::external_body]
fn argon2_verify(password: &str, password_hash: &str, pepper: &str) -> (r: bool)
    ensures
        r == argon2_accepts(password@, password_hash@, pepper@),
{
    let parsed = match PasswordHash::new(password_hash) {
        Ok(parsed) => parsed,
        Err(_) => return false,
    };
    match Argon2::new_with_secret(pepper.as_bytes(), Algorithm::Argon2id, Version::V0x13, Params::default()) {
        Ok(hasher) => hasher.verify_password(password.as_bytes(), &parsed).is_ok(),
        Err(_) => false,
    }
}

/// The error of the `password-hash` crate.
#[verifier::external_type_specification]
#[verifier::external_body]
pub struct ExPasswordHashError(argon2::password_hash::Error);

/// The PHC string of the Argon2id (version 19, default parameters) hash of
/// `password` under the salt `salt` and the secret key `pepper`, or `None`
/// where hashing fails.
pub uninterp spec fn argon2_phc_string(password: Seq<char>, pepper: Seq<char>, salt: Seq<u8>) -> Option<Seq<char>>;

/// Encodes the salt (`SaltString::encode_b64`), makes an Argon2id hasher of
/// version 19 with the default parameters keyed with the pepper
/// (`Argon2::new_with_secret`) and renders its `hash_password` as a PHC
/// string. Claimed: the string is a function of the three arguments (named,
/// not spelled out), and `verify_password` with the same pepper accepts the
/// password for it, since it recomputes the hash with the algorithm,
/// version, parameters and salt that the string names and the same key. A
/// salt of fewer than three bytes encodes to fewer than the four characters
/// that a salt string holds, and `SaltString` panics on it later, so it is
/// left out.
#[verifier::external_body]
fn argon2_hash(password: &str, pepper: &str, salt: &[u8]) -> (r: Result<String, argon2::password_hash::Error>)
    requires
        salt@.len() >= 3,
    ensures
        match r {
            Ok(h) => argon2_phc_string(password@, pepper@, salt@) == Some(h@) && argon2_accepts(password@, h@, pepper@),
            Err(_) => argon2_phc_string(password@, pepper@, salt@) is None,
        },
{
    let salt = SaltString::encode_b64(salt)?;
    let hasher = Argon2::new_with_secret(pepper.as_bytes(), Algorithm::Argon2id, Version::V0x13, Params::default())?;
    Ok(hasher.hash_password(password.as_bytes(), &salt)?.to_string())
}

/// Hashes a password under the given salt (of at least three bytes), with
/// the pepper as the hash's secret key; a failure of the hashing is
/// `PasswordHashingFailed`.
pub fn hash_password_with_salt(password: &str, pepper: &str, salt: &[u8]) -> (r: Result<String, PasswordError>)
    requires
        salt@.len() >= 3,
    ensures
        match argon2_phc_string(password@, pepper@, salt@) {
            Some(h) => r matches Ok(s) && s@ == h,
            None => r == Err::<String, PasswordError>(PasswordError::PasswordHashingFailed),
        },
        r matches Ok(s) ==> argon2_accepts(password@, s@, pepper@),
{
    match argon2_hash(password, pepper, salt) {
        Ok(hash) => Ok(hash),
        Err(_) => Err(PasswordError::PasswordHashingFailed),
    }
}

/// Hashes a password under a fresh random salt of `REFRESH_TOKEN_BYTES`
/// bytes, with the pepper as the hash's secret key. Whatever salt was drawn,
/// the answer is the hash under it, and a stored hash accepts the password
/// with that pepper.
pub fn hash_password(password: &str, pepper: &str) -> (r: Result<String, PasswordError>)
    ensures
        exists|salt: Seq<u8>|
            salt.len() == REFRESH_TOKEN_BYTES && match #[trigger] argon2_phc_string(password@, pepper@, salt) {
                Some(h) => r matches Ok(s) && s@ == h,
                None => r == Err::<String, PasswordError>(PasswordError::PasswordHashingFailed),
            },
        r matches Ok(s) ==> argon2_accepts(password@, s@, pepper@),
{
    let salt = random_refresh_bytes();
    let r = hash_password_with_salt(password, pepper, salt.as_slice());
    r
}

/// Checks a password against its stored hash, with the pepper as the hash's
/// secret key.
pub fn verify_password(password: &str, password_hash: &str, pepper: &str) -> (r: bool)
    ensures
        r == argon2_accepts(password@, password_hash@, pepper@),
{
    argon2_verify(password, password_hash, pepper)
}

/// The statements of a password change of the user `user_id`, once the old
/// password has been checked against the stored hash and the new one
/// hashed: a wrong old password is refused as `InvalidLoginCredentials`, a
/// failed hashing as `HashingFailed`; otherwise the new hash is stored and
/// every live token of the user revoked, in one transaction.
pub fn password_change(
    user_id: i64,
    old_password_matches: bool,
    new_password_hash: Result<String, PasswordError>,
) -> (r: Result<(QueryBuilder, QueryBuilder, QueryBuilder), AuthError>)
    ensures
        !old_password_matches ==> r == Err::<(QueryBuilder, QueryBuilder, QueryBuilder), AuthError>(
            AuthError::InvalidLoginCredentials,
        ),
        old_password_matches && new_password_hash is Err ==> r == Err::<(QueryBuilder, QueryBuilder, QueryBuilder), AuthError>(
            AuthError::HashingFailed,
        ),
        old_password_matches ==> match new_password_hash {
            Ok(h) => r matches Ok(qs) && {
                &&& qs.0.sql@ == SQL_CHANGE_PASSWORD@
                &&& qs.0.arg_views() == seq![SqlArgView::Text(h@), SqlArgView::I64(user_id)]
                &&& qs.1.sql@ == SQL_LOCK_LIVE_OF_USER@
                &&& qs.1.arg_views() == seq![SqlArgView::I64(user_id)]
                &&& qs.2.sql@ == SQL_REVOKE_LIVE_OF_USER@
                &&& qs.2.arg_views() == seq![SqlArgView::I64(user_id)]
            },
            Err(_) => true,
        },
{
    if !old_password_matches {
        return Err(AuthError::InvalidLoginCredentials);
    }
    match new_password_hash {
        Ok(hash) => Ok(AuthRepository::change_password_and_revoke_tokens(user_id, hash.as_str())),
        Err(_) => Err(AuthError::HashingFailed),
    }
}

/// A password change stores a hash that accepts the new password: when the
/// new hash came from `hash_password` of the new password and the pepper,
/// the statement that stores it binds a hash that the check with the same
/// pepper accepts for the new password.
pub proof fn password_change_stores_a_hash_of_the_new_password(
    user_id: i64,
    new_password: &str,
    pepper: &str,
    new_password_hash: Result<String, PasswordError>,
    statements: (QueryBuilder, QueryBuilder, QueryBuilder),
)
    requires
        call_ensures(hash_password, (new_password, pepper), new_password_hash),
        call_ensures(password_change, (user_id, true, new_password_hash), Ok::<(QueryBuilder, QueryBuilder, QueryBuilder), AuthError>(statements)),
    ensures
        new_password_hash is Ok,
        statements.0.arg_views()[0] matches SqlArgView::Text(stored) && argon2_accepts(new_password@, stored, pepper@),
{
}

} // verus!
