//! Signed JSON web tokens that carry the access claims.

use jsonwebtoken::errors::ErrorKind;
use jsonwebtoken::{decode, encode, Algorithm, DecodingKey, EncodingKey, Header, Validation};
use serde_json::Value;
use uuid::Uuid;
use vstd::prelude::*;

use crate::model::UserRole;
use crate::token::{AccessClaims, TokenError};

verus! {

/// The claims of a token payload as read from its JSON object: `jti` as a
/// UUID, then `sub`, `role`, `iat` and `exp` as integers; each is absent when
/// the payload lacks it or holds something else under its name.
pub type RawAccessClaims = (Option<u128>, Option<i64>, Option<i64>, Option<i64>, Option<i64>);

/// Why the token library refused a token.
#[derive(Debug, Clone, Copy, PartialEq, Eq, Structural)]
pub enum JwtFailure {
    /// The token verified but its `exp` lies in the past.
    ExpiredSignature,
    /// Any other reason: bad format, bad signature, bad payload, bad audience.
    Rejected,
}

/// The token that the HS256 encoder of `jsonwebtoken` produces for a payload
/// object with these claims (`jti` written as a hyphenated UUID string), signed
/// with `secret`; none when the encoder fails.
pub uninterp spec fn hs256_access_jwt(jti: u128, sub: i64, role: i16, iat: i64, exp: i64, secret: Seq<char>) -> Option<Seq<char>>;

/// The claims carried by `token` when `jsonwebtoken::decode` accepts it
/// under `secret` with the HS256 signature check alone (no claim validated);
/// none when it refuses it.
pub uninterp spec fn hs256_verified_claims(token: Seq<char>, secret: Seq<char>) -> Option<RawAccessClaims>;

/// The raw form of a set of claims.
pub open spec fn raw_of(jti: u128, sub: i64, role: i16, iat: i64, exp: i64) -> RawAccessClaims {
    (Some(jti), Some(sub), Some(role as i64), Some(iat), Some(exp))
}

/// Encodes an HS256 token whose payload holds exactly these claims.
///
/// Calls `jsonwebtoken::encode` with an HS256 header on a JSON object built
/// from the claims, keyed by the bytes of `secret`. Claimed: it always
/// succeeds (an HMAC key matches the HS256 header, a map of strings and
/// integers always serializes, and HMAC signing cannot fail); the result is
/// the named encoding of its arguments; and the token verifies under the same
/// secret and gives back the same claims when read.
#[verifier::external_body]
fn encode_access_jwt(jti: u128, sub: i64, role: i16, iat: i64, exp: i64, secret: &str) -> (r: Result<String, ()>)
    ensures
        r is Ok,
        hs256_access_jwt(jti, sub, role, iat, exp, secret@) == match r {
            Ok(t) => Some(t@),
            Err(_) => None::<Seq<char>>,
        },
        r matches Ok(t) ==> hs256_verified_claims(t@, secret@) == Some(raw_of(jti, sub, role, iat, exp)),
{
    let mut m = serde_json::Map::new();
    m.insert("jti".to_string(), Value::from(Uuid::from_u128(jti).to_string()));
    m.insert("sub".to_string(), Value::from(sub));
    m.insert("role".to_string(), Value::from(role));
    m.insert("iat".to_string(), Value::from(iat));
    m.insert("exp".to_string(), Value::from(exp));
    encode(&Header::new(Algorithm::HS256), &m, &EncodingKey::from_secret(secret.as_bytes())).map_err(|_| ())
}

/// Verifies and reads an HS256 token.
///
/// Calls `jsonwebtoken::decode` for HS256, then reads the claims out of the
/// payload. With `validate` off, the decoder checks the signature alone (no
/// claim is required or validated); with it on, it also requires `exp`,
/// checks it against the system clock with the library's leeway, and checks
/// the audience against `audience` when the token has one. Claimed: without
/// validation the result is exactly the named claims, or a refusal that is
/// not about expiry; with validation, accepted claims are the named ones, a
/// token without named claims is refused for a reason other than expiry, and
/// a token produced by the encoder above (with a non-negative `exp`) is
/// accepted with its claims or refused as expired. Which of the last two
/// happens depends on the clock and is not stated.
#[verifier::external_body]
fn decode_access_jwt(token: &str, secret: &str, audience: &str, validate: bool) -> (r: Result<RawAccessClaims, JwtFailure>)
    ensures
        !validate ==> (match hs256_verified_claims(token@, secret@) {
            Some(c) => r matches Ok(d) && d == c,
            None => r matches Err(JwtFailure::Rejected),
        }),
        r matches Ok(c) ==> hs256_verified_claims(token@, secret@) == Some(c),
        hs256_verified_claims(token@, secret@) is None ==> r matches Err(JwtFailure::Rejected),
        (forall|jti: u128, sub: i64, role: i16, iat: i64, exp: i64|
            #[trigger] hs256_access_jwt(jti, sub, role, iat, exp, secret@) == Some(token@) && exp >= 0
            ==> (r matches Ok(c) && c == raw_of(jti, sub, role, iat, exp))
                || r matches Err(JwtFailure::ExpiredSignature)),
{
    let mut v = Validation::new(Algorithm::HS256);
    v.set_audience(&[audience]);
    if !validate {
        v.validate_exp = false;
        v.validate_aud = false;
        v.required_spec_claims.clear();
    }
    let d = decode::<Value>(token, &DecodingKey::from_secret(secret.as_bytes()), &v).map_err(|e| match e.into_kind() {
        ErrorKind::ExpiredSignature => JwtFailure::ExpiredSignature,
        _ => JwtFailure::Rejected,
    })?;
    let c = &d.claims;
    let jti = c["jti"].as_str().and_then(|s| Uuid::parse_str(s).ok()).map(|u| u.as_u128());
    Ok((jti, c["sub"].as_i64(), c["role"].as_i64(), c["iat"].as_i64(), c["exp"].as_i64()))
}

/// What a token carries, read through the claims that a token type needs.
pub trait Claims: Sized {
    /// The audience that tokens of this type are issued for.
    spec fn spec_token_type() -> Seq<char>;

    spec fn spec_jti(&self) -> u128;

    spec fn spec_sub(&self) -> i64;

    spec fn spec_iat(&self) -> i64;

    spec fn spec_exp(&self) -> i64;

    fn token_type() -> (r: &'static str)
        ensures
            r@ == Self::spec_token_type(),
    ;

    fn jti(&self) -> (r: u128)
        ensures
            r == self.spec_jti(),
    ;

    fn sub(&self) -> (r: i64)
        ensures
            r == self.spec_sub(),
    ;

    fn iat(&self) -> (r: i64)
        ensures
            r == self.spec_iat(),
    ;

    fn exp(&self) -> (r: i64)
        ensures
            r == self.spec_exp(),
    ;
}

/// The token that `generate_jwt` issues for `claims` under `secret`.
pub open spec fn spec_access_jwt(claims: AccessClaims, secret: Seq<char>) -> Option<Seq<char>> {
    hs256_access_jwt(claims.jti, claims.sub, claims.role.spec_level(), claims.iat, claims.exp, secret)
}

/// The claims that a raw payload stands for, when it holds all of them and a known role.
pub open spec fn claims_of_raw(raw: RawAccessClaims) -> Option<AccessClaims> {
    match raw {
        (Some(jti), Some(sub), Some(role), Some(iat), Some(exp)) => match UserRole::spec_from_level(role) {
            Some(r) => Some(AccessClaims { jti, sub, role: r, iat, exp }),
            None => None,
        },
        _ => None,
    }
}

fn access_claims_from_raw(raw: RawAccessClaims) -> (r: Option<AccessClaims>)
    ensures
        r == claims_of_raw(raw),
{
    match raw {
        (Some(jti), Some(sub), Some(role), Some(iat), Some(exp)) => match UserRole::from_level(role) {
            Some(r) => Some(AccessClaims { jti, sub, role: r, iat, exp }),
            None => None,
        },
        _ => None,
    }
}

/// Generates a signed access token for `claims`.
pub fn generate_jwt(claims: &AccessClaims, secret: &str) -> (r: Result<String, TokenError>)
    ensures
        r is Ok,
        spec_access_jwt(*claims, secret@) == match r {
            Ok(t) => Some(t@),
            Err(_) => None::<Seq<char>>,
        },
        r matches Err(e) ==> e == TokenError::TokenCreationFailed,
{
    let role = claims.role.level();
    match encode_access_jwt(claims.jti, claims.sub, role, claims.iat, claims.exp, secret) {
        Ok(token) => Ok(token),
        Err(_) => Err(TokenError::TokenCreationFailed),
    }
}

/// Validates an access token and returns the claims it carries.
///
/// As the decoder of typed claims does, the claims are read before any of
/// them is validated: a token whose signature verifies but that lacks a
/// claim is invalid, expired or not. A token issued by `generate_jwt` under
/// the same secret (with a non-negative expiry) gives back exactly its claims
/// unless it has expired.
pub fn validate_jwt(token: &str, secret: &str) -> (r: Result<AccessClaims, TokenError>)
    ensures
        r matches Ok(c) ==> hs256_verified_claims(token@, secret@) matches Some(raw)
            && claims_of_raw(raw) == Some(c),
        hs256_verified_claims(token@, secret@) is None ==> r matches Err(TokenError::InvalidToken),
        hs256_verified_claims(token@, secret@) matches Some(raw) && claims_of_raw(raw) is None
            ==> r matches Err(TokenError::InvalidToken),
        r matches Err(e) ==> e == TokenError::InvalidToken || e == TokenError::ExpiredToken,
        forall|c: AccessClaims| #[trigger] spec_access_jwt(c, secret@) == Some(token@) && c.exp >= 0
            ==> (r matches Ok(d) && d == c) || r matches Err(TokenError::ExpiredToken),
{
    let read = decode_access_jwt(token, secret, AccessClaims::token_type(), false);
    let claims = match read {
        Err(_) => return Err(TokenError::InvalidToken),
        Ok(raw) => match access_claims_from_raw(raw) {
            None => return Err(TokenError::InvalidToken),
            Some(claims) => claims,
        },
    };
    let validated = decode_access_jwt(token, secret, AccessClaims::token_type(), true);
    proof {
        assert forall|c: AccessClaims| #[trigger] spec_access_jwt(c, secret@) == Some(token@) && c.exp >= 0
            implies (validated matches Ok(raw) && raw == raw_of(c.jti, c.sub, c.role.spec_level(), c.iat, c.exp))
                || validated matches Err(JwtFailure::ExpiredSignature) by {
            assert(hs256_access_jwt(c.jti, c.sub, c.role.spec_level(), c.iat, c.exp, secret@) == Some(token@));
        }
        assert forall|c: AccessClaims| #[trigger] spec_access_jwt(c, secret@) == Some(token@) && c.exp >= 0
            implies claims == c by {
            assert(hs256_access_jwt(c.jti, c.sub, c.role.spec_level(), c.iat, c.exp, secret@) == Some(token@));
        }
    }
    match validated {
        Err(JwtFailure::ExpiredSignature) => Err(TokenError::ExpiredToken),
        Err(JwtFailure::Rejected) => Err(TokenError::InvalidToken),
        Ok(_) => Ok(claims),
    }
}

} // verus!
