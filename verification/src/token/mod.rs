//! Access and refresh tokens: how they are issued and checked.

use base64::engine::general_purpose::URL_SAFE_NO_PAD;
use base64::Engine;
use uuid::Uuid;
use vstd::prelude::*;

use crate::model::{CurrentUser, UserRole};
use crate::time::{now, Timestamp};

pub mod hash;
pub mod jwt;

pub use jwt::{validate_jwt, Claims};

verus! {

/// Why a token could not be issued or was not accepted.
#[derive(Debug, Clone, Copy, PartialEq, Eq, Structural)]
pub enum TokenError {
    TokenCreationFailed,
    InvalidToken,
    ExpiredToken,
}

/// Secrets and lifetimes of the authentication scheme.
#[derive(Debug, Clone)]
pub struct AuthConfig {
    pub password_pepper: String,
    pub access_token_secret: String,
    pub access_token_expiration_seconds: i64,
    pub refresh_token_secret: String,
    pub refresh_token_expiration_seconds: i64,
    pub refresh_token_pepper: String,
}

/// The claims in the payload of an access token.
#[derive(Debug, Clone, Copy, PartialEq, Eq, Structural)]
pub struct AccessClaims {
    pub jti: u128,
    pub sub: i64,
    pub role: UserRole,
    pub exp: i64,
    pub iat: i64,
}

/// Number of random bytes behind a refresh token.
pub const REFRESH_TOKEN_BYTES: usize = 32;

/// `u` reads as a version-4 UUID: its version nibble is 4 and its variant
/// bits are 10.
pub open spec fn is_uuid_v4(u: u128) -> bool {
    &&& (u >> 76u128) & 0xfu128 == 4u128
    &&& (u >> 62u128) & 0x3u128 == 2u128
}

/// A fresh random UUID (version 4).
///
/// Calls `uuid::Uuid::new_v4` and returns the UUID as a number. Claimed: the
/// version nibble reads 4 and the variant bits read 10, as `new_v4` sets them;
/// the other bits are random and nothing is claimed of them.
#[verifier::external_body]
pub(crate) fn new_uuid_v4() -> (r: u128)
    ensures
        (r >> 76u128) & 0xfu128 == 4u128,
        (r >> 62u128) & 0x3u128 == 2u128,
{
    Uuid::new_v4().as_u128()
}

/// Random bytes for a refresh token, or for the salt of a password hash.
///
/// Calls `rand::fill` on a buffer of `REFRESH_TOKEN_BYTES` bytes. Claimed: the
/// length; the content is random and nothing is claimed of it.
#[verifier::external_body]
pub(crate) fn random_refresh_bytes() -> (r: Vec<u8>)
    ensures
        r@.len() == REFRESH_TOKEN_BYTES,
{
    let mut random_bytes = [0u8; REFRESH_TOKEN_BYTES];
    rand::fill(&mut random_bytes);
    random_bytes.to_vec()
}

/// The character of a 6-bit value in the URL-safe base64 alphabet
/// (`A`-`Z`, `a`-`z`, `0`-`9`, `-`, `_`).
pub open spec fn url_safe_char(v: int) -> char {
    if v < 26 {
        (65 + v) as char
    } else if v < 52 {
        (97 + v - 26) as char
    } else if v < 62 {
        (48 + v - 52) as char
    } else if v == 62 {
        '-'
    } else {
        '_'
    }
}

/// A character of the URL-safe base64 alphabet.
pub open spec fn is_url_safe_char(c: char) -> bool {
    ||| ('A' <= c && c <= 'Z')
    ||| ('a' <= c && c <= 'z')
    ||| ('0' <= c && c <= '9')
    ||| c == '-'
    ||| c == '_'
}

/// The URL-safe base64 encoding of `bytes` without padding (RFC 4648,
/// section 5): each group of three bytes gives four characters, and a last
/// group of one or two bytes gives two or three.
pub open spec fn base64_url_no_pad(bytes: Seq<u8>) -> Seq<char>
    decreases bytes.len(),
{
    if bytes.len() == 0 {
        Seq::empty()
    } else if bytes.len() == 1 {
        seq![url_safe_char((bytes[0] as int) / 4), url_safe_char(((bytes[0] as int) % 4) * 16)]
    } else if bytes.len() == 2 {
        seq![
            url_safe_char((bytes[0] as int) / 4),
            url_safe_char(((bytes[0] as int) % 4) * 16 + (bytes[1] as int) / 16),
            url_safe_char(((bytes[1] as int) % 16) * 4),
        ]
    } else {
        seq![
            url_safe_char((bytes[0] as int) / 4),
            url_safe_char(((bytes[0] as int) % 4) * 16 + (bytes[1] as int) / 16),
            url_safe_char(((bytes[1] as int) % 16) * 4 + (bytes[2] as int) / 64),
            url_safe_char((bytes[2] as int) % 64),
        ] + base64_url_no_pad(bytes.subrange(3, bytes.len() as int))
    }
}

/// Length of the encoding: four characters for every three bytes, and two or
/// three for a last group of one or two.
pub open spec fn base64_len(n: nat) -> nat {
    4 * (n / 3) + if n % 3 == 0 { 0 } else { n % 3 + 1 }
}

proof fn lemma_url_safe_char(v: int)
    requires
        0 <= v < 64,
    ensures
        is_url_safe_char(url_safe_char(v)),
{
}

/// The encoding has `base64_len` characters, all of the URL-safe alphabet.
pub proof fn base64_url_no_pad_shape(bytes: Seq<u8>)
    ensures
        base64_url_no_pad(bytes).len() == base64_len(bytes.len()),
        forall|i: int| 0 <= i < base64_url_no_pad(bytes).len() ==> #[trigger] is_url_safe_char(base64_url_no_pad(bytes)[i]),
    decreases bytes.len(),
{
    let e = base64_url_no_pad(bytes);
    if bytes.len() == 0 {
    } else if bytes.len() == 1 {
        lemma_url_safe_char((bytes[0] as int) / 4);
        lemma_url_safe_char(((bytes[0] as int) % 4) * 16);
    } else if bytes.len() == 2 {
        lemma_url_safe_char((bytes[0] as int) / 4);
        lemma_url_safe_char(((bytes[0] as int) % 4) * 16 + (bytes[1] as int) / 16);
        lemma_url_safe_char(((bytes[1] as int) % 16) * 4);
    } else {
        let rest = bytes.subrange(3, bytes.len() as int);
        base64_url_no_pad_shape(rest);
        lemma_url_safe_char((bytes[0] as int) / 4);
        lemma_url_safe_char(((bytes[0] as int) % 4) * 16 + (bytes[1] as int) / 16);
        lemma_url_safe_char(((bytes[1] as int) % 16) * 4 + (bytes[2] as int) / 64);
        lemma_url_safe_char((bytes[2] as int) % 64);
        let head = seq![
            url_safe_char((bytes[0] as int) / 4),
            url_safe_char(((bytes[0] as int) % 4) * 16 + (bytes[1] as int) / 16),
            url_safe_char(((bytes[1] as int) % 16) * 4 + (bytes[2] as int) / 64),
            url_safe_char((bytes[2] as int) % 64),
        ];
        assert(e == head + base64_url_no_pad(rest));
        assert forall|i: int| 0 <= i < e.len() implies #[trigger] is_url_safe_char(e[i]) by {
            if i >= 4 {
                assert(e[i] == base64_url_no_pad(rest)[i - 4]);
            }
        }
        assert(base64_len(bytes.len()) == 4 + base64_len(rest.len())) by {
            assert(rest.len() == bytes.len() - 3);
            assert((bytes.len() - 3) / 3 == bytes.len() / 3 - 1);
            assert((bytes.len() - 3) % 3 == bytes.len() % 3);
        }
    }
}

/// Every refresh token is 43 characters of the URL-safe base64 alphabet:
/// the encoding of its 32 random bytes, whatever user, role, family and
/// configuration it was issued for.
pub proof fn refresh_tokens_are_43_url_safe_chars(
    pair: TokenPair,
    user_id: i64,
    user_role: UserRole,
    family_id: u128,
    config: AuthConfig,
)
    requires
        issued(pair, user_id, user_role, family_id, config),
    ensures
        pair.refresh_token@.len() == 43,
        forall|i: int| 0 <= i < 43 ==> #[trigger] is_url_safe_char(pair.refresh_token@[i]),
{
    let (now, jti, entropy) = choose|now: Timestamp, jti: u128, entropy: Seq<u8>|
        #![trigger issued_at(pair, user_id, user_role, family_id, config, now, jti, entropy)]
        now.wf() && lifetimes_fit(config, now) && entropy.len() == REFRESH_TOKEN_BYTES
        && issued_at(pair, user_id, user_role, family_id, config, now, jti, entropy);
    base64_url_no_pad_shape(entropy);
}

/// A pair issued at `now` for a user and role: its access token is the
/// HS256 JWT of that user's claims at `now` (under some token id), and its
/// refresh token is 43 characters of the URL-safe base64 alphabet.
pub proof fn issued_pair_shape(
    pair: TokenPair,
    user_id: i64,
    user_role: UserRole,
    family_id: u128,
    config: AuthConfig,
    now: Timestamp,
)
    requires
        issued_at_time(pair, user_id, user_role, family_id, config, now),
    ensures
        exists|jti: u128| #[trigger] hs256_access_jwt_for(jti, user_id, user_role, now, config) == Some(pair.access_token@),
        pair.refresh_token@.len() == 43,
        forall|i: int| 0 <= i < 43 ==> #[trigger] is_url_safe_char(pair.refresh_token@[i]),
{
    let (jti, entropy) = choose|jti: u128, entropy: Seq<u8>|
        #![trigger issued_at(pair, user_id, user_role, family_id, config, now, jti, entropy)]
        entropy.len() == REFRESH_TOKEN_BYTES && issued_at(pair, user_id, user_role, family_id, config, now, jti, entropy);
    base64_url_no_pad_shape(entropy);
    assert(hs256_access_jwt_for(jti, user_id, user_role, now, config) == Some(pair.access_token@));
}

/// A pair issued at `now` carries what it was issued for: its access token
/// is the HS256 JWT, signed with the access-token secret, of the claims with
/// the drawn token id, the user as subject, the user's role, issued at `now`
/// and expiring after the access-token lifetime; its refresh token encodes
/// the drawn bytes, and its row expires after the refresh-token lifetime.
pub proof fn issued_pair_carries_its_claims_and_lifetimes(
    user_id: i64,
    user_role: UserRole,
    family_id: u128,
    config: AuthConfig,
    now: Timestamp,
    jti: u128,
    entropy: &[u8],
    r: Result<TokenPair, TokenError>,
)
    requires
        call_ensures(generate_tokens_at, (user_id, user_role, family_id, &config, now, jti, entropy), r),
        lifetimes_fit(config, now),
    ensures
        r matches Ok(pair) && {
            &&& jwt::spec_access_jwt(
                AccessClaims {
                    jti,
                    sub: user_id,
                    role: user_role,
                    iat: now.secs,
                    exp: now.spec_plus_seconds(config.access_token_expiration_seconds).secs,
                },
                config.access_token_secret@,
            ) == Some(pair.access_token@)
            &&& pair.access_token_id == jti
            &&& pair.user_id == user_id
            &&& pair.family_id == family_id
            &&& pair.refresh_token@ == base64_url_no_pad(entropy@)
            &&& pair.refresh_expires_at == now.spec_plus_seconds(config.refresh_token_expiration_seconds)
        },
{
}

/// Encodes bytes in URL-safe base64 without padding.
///
/// Calls `URL_SAFE_NO_PAD.encode` of the `base64` crate. Claimed: the result
/// is the URL-safe base64 encoding of the bytes without padding, as
/// `base64_url_no_pad` spells it out.
#[verifier::external_body]
fn encode_base64_url(bytes: &[u8]) -> (r: String)
    ensures
        r@ == base64_url_no_pad(bytes@),
{
    URL_SAFE_NO_PAD.encode(bytes)
}

impl AccessClaims {
    /// Claims with a fresh random token id.
    pub fn new(user_id: i64, user_role: UserRole, iat: Timestamp, exp: Timestamp) -> (r: Self)
        ensures
            r.sub == user_id,
            r.role == user_role,
            r.iat == iat.secs,
            r.exp == exp.secs,
    {
        AccessClaims { jti: new_uuid_v4(), sub: user_id, role: user_role, iat: iat.secs, exp: exp.secs }
    }

    /// Claims with a given token id.
    pub fn with_id(jti: u128, user_id: i64, user_role: UserRole, iat: Timestamp, exp: Timestamp) -> (r: Self)
        ensures
            r == (AccessClaims { jti, sub: user_id, role: user_role, iat: iat.secs, exp: exp.secs }),
    {
        AccessClaims { jti, sub: user_id, role: user_role, iat: iat.secs, exp: exp.secs }
    }

    pub fn user_role(&self) -> (r: UserRole)
        ensures
            r == self.role,
    {
        self.role
    }
}

impl Claims for AccessClaims {
    open spec fn spec_token_type() -> Seq<char> {
        "access"@
    }

    open spec fn spec_jti(&self) -> u128 {
        self.jti
    }

    open spec fn spec_sub(&self) -> i64 {
        self.sub
    }

    open spec fn spec_iat(&self) -> i64 {
        self.iat
    }

    open spec fn spec_exp(&self) -> i64 {
        self.exp
    }

    fn token_type() -> (r: &'static str) {
        "access"
    }

    fn jti(&self) -> (r: u128) {
        self.jti
    }

    fn sub(&self) -> (r: i64) {
        self.sub
    }

    fn iat(&self) -> (r: i64) {
        self.iat
    }

    fn exp(&self) -> (r: i64) {
        self.exp
    }
}

/// An access token and a refresh token issued together.
#[derive(Debug, Clone)]
pub struct TokenPair {
    pub access_token: String,
    pub refresh_token: String,
    pub access_token_id: u128,
    pub user_id: i64,
    pub family_id: u128,
    pub refresh_expires_at: Timestamp,
}

/// Both lifetimes of `config` can be added to `now`.
pub open spec fn lifetimes_fit(config: AuthConfig, now: Timestamp) -> bool {
    &&& now.can_add_seconds(config.access_token_expiration_seconds)
    &&& now.can_add_seconds(config.refresh_token_expiration_seconds)
}

/// `pair` is the token pair issued at `now` for this user and family, with
/// token id `jti` and refresh-token bytes `entropy`.
pub open spec fn issued_at(
    pair: TokenPair,
    user_id: i64,
    user_role: UserRole,
    family_id: u128,
    config: AuthConfig,
    now: Timestamp,
    jti: u128,
    entropy: Seq<u8>,
) -> bool {
    &&& pair.user_id == user_id
    &&& pair.family_id == family_id
    &&& pair.access_token_id == jti
    &&& hs256_access_jwt_for(jti, user_id, user_role, now, config) == Some(pair.access_token@)
    &&& pair.refresh_token@ == base64_url_no_pad(entropy)
    &&& pair.refresh_expires_at == now.spec_plus_seconds(config.refresh_token_expiration_seconds)
}

/// The access token issued at `now` with token id `jti`.
pub open spec fn hs256_access_jwt_for(
    jti: u128,
    user_id: i64,
    user_role: UserRole,
    now: Timestamp,
    config: AuthConfig,
) -> Option<Seq<char>> {
    jwt::spec_access_jwt(
        AccessClaims {
            jti,
            sub: user_id,
            role: user_role,
            iat: now.secs,
            exp: now.spec_plus_seconds(config.access_token_expiration_seconds).secs,
        },
        config.access_token_secret@,
    )
}

/// The outcome of issuing a pair at `now` with token id `jti` and
/// refresh-token bytes `entropy`: the pair issued then when both lifetimes
/// can be added to `now`, and `TokenCreationFailed` otherwise.
pub open spec fn issue_outcome_at(
    r: Result<TokenPair, TokenError>,
    user_id: i64,
    user_role: UserRole,
    family_id: u128,
    config: AuthConfig,
    now: Timestamp,
    jti: u128,
    entropy: Seq<u8>,
) -> bool {
    match r {
        Ok(pair) => lifetimes_fit(config, now) && issued_at(pair, user_id, user_role, family_id, config, now, jti, entropy),
        Err(e) => e == TokenError::TokenCreationFailed && !lifetimes_fit(config, now),
    }
}

/// Issues a token pair at a given time, with a given token id and given
/// refresh-token bytes. The refresh token is the bytes in URL-safe base64.
/// A pair is issued exactly when both lifetimes can be added to `now` within
/// the range of dates.
pub fn generate_tokens_at(
    user_id: i64,
    user_role: UserRole,
    family_id: u128,
    config: &AuthConfig,
    now: Timestamp,
    jti: u128,
    entropy: &[u8],
) -> (r: Result<TokenPair, TokenError>)
    ensures
        issue_outcome_at(r, user_id, user_role, family_id, *config, now, jti, entropy@),
        r is Err <==> !lifetimes_fit(*config, now),
        r matches Err(e) ==> e == TokenError::TokenCreationFailed,
        r matches Ok(pair) ==> issued_at(pair, user_id, user_role, family_id, *config, now, jti, entropy@),
{
    if !now.can_add(config.access_token_expiration_seconds) || !now.can_add(config.refresh_token_expiration_seconds) {
        return Err(TokenError::TokenCreationFailed);
    }
    let access_expires_at = now.plus_seconds(config.access_token_expiration_seconds);
    let refresh_expires_at = now.plus_seconds(config.refresh_token_expiration_seconds);
    let access_claims = AccessClaims::with_id(jti, user_id, user_role, now, access_expires_at);
    let access_token = jwt::generate_jwt(&access_claims, config.access_token_secret.as_str())?;
    let refresh_token = encode_base64_url(entropy);
    Ok(TokenPair {
        access_token,
        refresh_token,
        access_token_id: access_claims.jti,
        user_id,
        family_id,
        refresh_expires_at,
    })
}

/// A token pair issued for this user and family at some time that the clock
/// gave, with some token id and some refresh-token bytes of the right length.
pub open spec fn issued(pair: TokenPair, user_id: i64, user_role: UserRole, family_id: u128, config: AuthConfig) -> bool {
    exists|now: Timestamp, jti: u128, entropy: Seq<u8>|
        #![trigger issued_at(pair, user_id, user_role, family_id, config, now, jti, entropy)]
        now.wf() && lifetimes_fit(config, now) && entropy.len() == REFRESH_TOKEN_BYTES
        && issued_at(pair, user_id, user_role, family_id, config, now, jti, entropy)
}

/// The outcome of issuing a pair in `family_id` at the time that the clock
/// gave, with the token id and refresh-token bytes that were drawn.
pub open spec fn issue_outcome(
    r: Result<TokenPair, TokenError>,
    user_id: i64,
    user_role: UserRole,
    family_id: u128,
    config: AuthConfig,
) -> bool {
    exists|now: Timestamp, jti: u128, entropy: Seq<u8>|
        #![trigger issue_outcome_at(r, user_id, user_role, family_id, config, now, jti, entropy)]
        now.wf() && entropy.len() == REFRESH_TOKEN_BYTES
        && issue_outcome_at(r, user_id, user_role, family_id, config, now, jti, entropy)
}

/// `pair` was issued at `now` for this user and family, with some token id
/// and some refresh-token bytes of the right length.
pub open spec fn issued_at_time(
    pair: TokenPair,
    user_id: i64,
    user_role: UserRole,
    family_id: u128,
    config: AuthConfig,
    now: Timestamp,
) -> bool {
    exists|jti: u128, entropy: Seq<u8>|
        #![trigger issued_at(pair, user_id, user_role, family_id, config, now, jti, entropy)]
        entropy.len() == REFRESH_TOKEN_BYTES && issued_at(pair, user_id, user_role, family_id, config, now, jti, entropy)
}

/// Issues a token pair at `now` for this user and family, with a fresh token
/// id and fresh random bytes: it succeeds exactly when both lifetimes can be
/// added to `now`.
pub fn issue_tokens_at(
    user_id: i64,
    user_role: UserRole,
    family_id: u128,
    config: &AuthConfig,
    now: Timestamp,
) -> (r: Result<TokenPair, TokenError>)
    ensures
        r is Err <==> !lifetimes_fit(*config, now),
        r matches Err(e) ==> e == TokenError::TokenCreationFailed,
        r matches Ok(pair) ==> issued_at_time(pair, user_id, user_role, family_id, *config, now),
        exists|jti: u128, entropy: Seq<u8>|
            #![trigger issue_outcome_at(r, user_id, user_role, family_id, *config, now, jti, entropy)]
            entropy.len() == REFRESH_TOKEN_BYTES && issue_outcome_at(r, user_id, user_role, family_id, *config, now, jti, entropy),
{
    let jti = new_uuid_v4();
    let entropy = random_refresh_bytes();
    let r = generate_tokens_at(user_id, user_role, family_id, config, now, jti, entropy.as_slice());
    proof {
        assert(issue_outcome_at(r, user_id, user_role, family_id, *config, now, jti, entropy@));
        if r is Ok {
            assert(issued_at(r->Ok_0, user_id, user_role, family_id, *config, now, jti, entropy@));
        }
    }
    r
}

/// Generates a pair of access and refresh tokens for a given family, at the
/// time that the system clock gives: `issue_tokens_at` with that time.
pub fn generate_tokens_with_family_id(
    user_id: i64,
    user_role: UserRole,
    family_id: u128,
    config: &AuthConfig,
) -> (r: Result<TokenPair, TokenError>)
    ensures
        issue_outcome(r, user_id, user_role, family_id, *config),
        r matches Ok(pair) ==> issued(pair, user_id, user_role, family_id, *config),
        r matches Err(e) ==> e == TokenError::TokenCreationFailed,
{
    let now = now();
    let r = issue_tokens_at(user_id, user_role, family_id, config, now);
    proof {
        let (jti, entropy) = choose|jti: u128, entropy: Seq<u8>|
            #![trigger issue_outcome_at(r, user_id, user_role, family_id, *config, now, jti, entropy)]
            entropy.len() == REFRESH_TOKEN_BYTES && issue_outcome_at(r, user_id, user_role, family_id, *config, now, jti, entropy);
        assert(issue_outcome_at(r, user_id, user_role, family_id, *config, now, jti, entropy));
        if r is Ok {
            assert(issued_at(r->Ok_0, user_id, user_role, family_id, *config, now, jti, entropy));
        }
    }
    r
}

/// Generates a pair of access and refresh tokens that start a new family.
pub fn generate_tokens(user_id: i64, user_role: UserRole, config: &AuthConfig) -> (r: Result<TokenPair, TokenError>)
    ensures
        exists|family_id: u128| #[trigger] issue_outcome(r, user_id, user_role, family_id, *config),
        r matches Ok(pair) ==> issued(pair, user_id, user_role, pair.family_id, *config),
        r matches Ok(pair) ==> is_uuid_v4(pair.family_id),
        r matches Err(e) ==> e == TokenError::TokenCreationFailed,
{
    let family_id = new_uuid_v4();
    let r = generate_tokens_with_family_id(user_id, user_role, family_id, config);
    proof {
        assert(issue_outcome(r, user_id, user_role, family_id, *config));
    }
    r
}

/// The user that an access token speaks for: its subject, with its role.
impl From<AccessClaims> for CurrentUser {
    fn from(claims: AccessClaims) -> (r: CurrentUser)
        ensures
            r == (CurrentUser { id: claims.sub, role: claims.role }),
    {
        CurrentUser { id: claims.sub, role: claims.role }
    }
}

impl vstd::std_specs::convert::FromSpecImpl<AccessClaims> for CurrentUser {
    open spec fn obeys_from_spec() -> bool {
        true
    }

    open spec fn from_spec(v: AccessClaims) -> CurrentUser {
        CurrentUser { id: v.sub, role: v.role }
    }
}

} // verus!
