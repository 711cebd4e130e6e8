use argon2::password_hash::{PasswordHasher, SaltString};
use argon2::{Algorithm, Argon2, Params, Version};
use socky_be::auth::controller::AuthController;
use socky_be::error::{AuthError, ServiceError};
use socky_be::model::{CurrentUser, UserRole};
use socky_be::time::Timestamp;
use socky_be::token::jwt::generate_jwt;
use socky_be::token::{generate_tokens, generate_tokens_at, validate_jwt, AccessClaims, AuthConfig, TokenError};
use socky_be::web::error::WebError;
use socky_be::web::middleware::{authenticate, bearer_token};

fn config() -> AuthConfig {
    AuthConfig {
        password_pepper: "pepper".to_string(),
        access_token_secret: "access-secret".to_string(),
        access_token_expiration_seconds: 900,
        refresh_token_secret: "refresh-secret".to_string(),
        refresh_token_expiration_seconds: 86400,
        refresh_token_pepper: "refresh-pepper".to_string(),
    }
}

#[test]
fn issued_access_token_validates_to_its_claims() {
    let cfg = config();
    let pair = generate_tokens(5, UserRole::Admin, &cfg).expect("tokens are issued");
    let claims = validate_jwt(&pair.access_token, &cfg.access_token_secret).expect("token validates");
    assert_eq!(claims.sub, 5);
    assert_eq!(claims.role, UserRole::Admin);
    assert_eq!(claims.jti, pair.access_token_id);
    assert_eq!(claims.exp - claims.iat, 900);
    assert_eq!(pair.user_id, 5);
}

#[test]
fn refresh_token_is_url_safe_base64_of_32_bytes() {
    let cfg = config();
    let pair = generate_tokens(1, UserRole::Standard, &cfg).expect("tokens are issued");
    assert_eq!(pair.refresh_token.len(), 43);
    assert!(pair
        .refresh_token
        .chars()
        .all(|c| c.is_ascii_alphanumeric() || c == '-' || c == '_'));
}

#[test]
fn new_families_and_token_ids_are_version_4_uuids() {
    let cfg = config();
    let a = generate_tokens(1, UserRole::Standard, &cfg).expect("tokens are issued");
    let b = generate_tokens(1, UserRole::Standard, &cfg).expect("tokens are issued");
    assert_ne!(a.family_id, b.family_id);
    assert_ne!(a.access_token, b.access_token);
    assert_ne!(a.refresh_token, b.refresh_token);
    // Version nibble 4 and RFC 4122 variant bits.
    assert_eq!((a.family_id >> 76) & 0xf, 4);
    assert_eq!((a.family_id >> 62) & 0x3, 2);
    assert_eq!((a.access_token_id >> 76) & 0xf, 4);
}

#[test]
fn refresh_expiry_follows_the_configured_lifetime() {
    let cfg = config();
    let now = Timestamp { secs: 1_700_000_000, nanos: 0 };
    let entropy = [7u8; 32];
    let pair = generate_tokens_at(9, UserRole::Support, 77, &cfg, now, 1234, &entropy).expect("tokens are issued");
    assert_eq!(pair.refresh_expires_at, Timestamp { secs: 1_700_086_400, nanos: 0 });
    assert_eq!(pair.family_id, 77);
    assert_eq!(pair.access_token_id, 1234);
    assert_eq!(pair.refresh_token, "BwcHBwcHBwcHBwcHBwcHBwcHBwcHBwcHBwcHBwcHBwc");
}

#[test]
fn token_under_another_secret_is_invalid() {
    let cfg = config();
    let pair = generate_tokens(5, UserRole::Admin, &cfg).expect("tokens are issued");
    assert_eq!(validate_jwt(&pair.access_token, "another-secret"), Err(TokenError::InvalidToken));
}

#[test]
fn garbage_token_is_invalid() {
    assert_eq!(validate_jwt("not a token", "access-secret"), Err(TokenError::InvalidToken));
    assert_eq!(validate_jwt("", "access-secret"), Err(TokenError::InvalidToken));
}

#[test]
fn token_issued_long_ago_has_expired() {
    let cfg = config();
    let now = Timestamp { secs: 1000, nanos: 0 };
    let entropy = [1u8; 32];
    let pair = generate_tokens_at(3, UserRole::Standard, 1, &cfg, now, 42, &entropy).expect("tokens are issued");
    assert_eq!(validate_jwt(&pair.access_token, &cfg.access_token_secret), Err(TokenError::ExpiredToken));
}

#[test]
fn generated_jwt_gives_back_its_claims() {
    let claims = AccessClaims { jti: 99, sub: -4, role: UserRole::Support, iat: 4_000_000_000, exp: 4_000_000_900 };
    let token = generate_jwt(&claims, "s3cret").expect("token is signed");
    assert_eq!(token.split('.').count(), 3);
    assert_eq!(validate_jwt(&token, "s3cret"), Ok(claims));
}

#[test]
fn verify_access_token_refuses_a_missing_token() {
    let cfg = config();
    let r = AuthController::verify_access_token(None, &cfg);
    assert!(matches!(r, Err(ServiceError::Auth(AuthError::MissingToken))));
}

#[test]
fn verify_access_token_maps_token_errors() {
    let cfg = config();
    let r = AuthController::verify_access_token(Some("x.y.z"), &cfg);
    assert!(matches!(r, Err(ServiceError::Auth(AuthError::InvalidToken))));
}

#[test]
fn bearer_token_strips_the_scheme() {
    assert_eq!(bearer_token("Bearer abc.def"), Some("abc.def".to_string()));
    assert_eq!(bearer_token("Bearer "), Some(String::new()));
    assert_eq!(bearer_token("bearer abc"), None);
    assert_eq!(bearer_token("Bearer"), None);
    assert_eq!(bearer_token("Basic abc"), None);
}

#[test]
fn authenticate_turns_a_bearer_token_into_the_user() {
    let cfg = config();
    let pair = generate_tokens(12, UserRole::Support, &cfg).expect("tokens are issued");
    let header = format!("Bearer {}", pair.access_token);
    let user = authenticate(Some(&header), &cfg).expect("authenticated");
    assert_eq!(user, CurrentUser { id: 12, role: UserRole::Support });
}

#[test]
fn authenticate_refusals() {
    let cfg = config();
    assert!(matches!(authenticate(None, &cfg), Err(WebError::AuthorizationBearer)));
    assert!(matches!(authenticate(Some("Token abc"), &cfg), Err(WebError::AuthorizationBearer)));
    assert!(matches!(
        authenticate(Some("Bearer abc"), &cfg),
        Err(WebError::Controller(ServiceError::Auth(AuthError::InvalidToken)))
    ));
}

#[test]
fn current_user_from_claims() {
    let claims = AccessClaims { jti: 1, sub: 8, role: UserRole::Admin, iat: 0, exp: 10 };
    assert_eq!(CurrentUser::from(claims), CurrentUser { id: 8, role: UserRole::Admin });
}

#[test]
fn auth_error_from_token_error() {
    assert_eq!(AuthError::from(TokenError::InvalidToken), AuthError::InvalidToken);
    assert_eq!(AuthError::from(TokenError::ExpiredToken), AuthError::ExpiredToken);
    assert_eq!(AuthError::from(TokenError::TokenCreationFailed), AuthError::TokenCreationFailed);
}

#[test]
fn refresh_token_hash_is_hmac_sha512() {
    // RFC 4231, test case 2.
    let tag = socky_be::token::hash::hash_refresh_token("what do ya want for nothing?", "Jefe").expect("hashed");
    let hex: String = tag.iter().map(|b| format!("{:02x}", b)).collect();
    assert_eq!(
        hex,
        "164b7a7bfcf819e2e395fbe73b56e0a387bd64222e831fd610270cd7ea2505549758bf75c05a994a6d034f65f8f0e6fdcaeab1a34d4a6b4b636e070a38bce737"
    );
}

#[test]
fn tokens_are_not_issued_when_a_lifetime_overflows() {
    let mut cfg = config();
    cfg.refresh_token_expiration_seconds = 1;
    let latest = Timestamp { secs: socky_be::time::MAX_UTC_SECS, nanos: 0 };
    let entropy = [0u8; 32];
    assert_eq!(
        generate_tokens_at(1, UserRole::Standard, 1, &cfg, latest, 1, &entropy).map(|p| p.user_id),
        Err(TokenError::TokenCreationFailed)
    );
    cfg.access_token_expiration_seconds = i64::MAX;
    assert_eq!(generate_tokens(1, UserRole::Standard, &cfg).map(|p| p.user_id), Err(TokenError::TokenCreationFailed));
}

#[test]
fn short_refresh_encodings() {
    let now = Timestamp { secs: 1_700_000_000, nanos: 0 };
    let cfg = config();
    let one = generate_tokens_at(1, UserRole::Standard, 1, &cfg, now, 1, &[0xfb]).expect("issued");
    assert_eq!(one.refresh_token, "-w");
    let two = generate_tokens_at(1, UserRole::Standard, 1, &cfg, now, 1, &[0xff, 0xfe]).expect("issued");
    assert_eq!(two.refresh_token, "__4");
}

#[test]
fn signed_token_missing_a_claim_is_invalid_even_when_expired() {
    let mut payload = serde_json::Map::new();
    payload.insert("sub".to_string(), serde_json::Value::from(3));
    payload.insert("iat".to_string(), serde_json::Value::from(1000));
    payload.insert("exp".to_string(), serde_json::Value::from(1060));
    let token = jsonwebtoken::encode(
        &jsonwebtoken::Header::new(jsonwebtoken::Algorithm::HS256),
        &payload,
        &jsonwebtoken::EncodingKey::from_secret(b"access-secret"),
    )
    .expect("signed");
    assert_eq!(validate_jwt(&token, "access-secret"), Err(TokenError::InvalidToken));
}

fn argon2_hash(password: &str, pepper: &str) -> String {
    let params = Params::new(8, 1, 1, None).expect("small parameters");
    let hasher = Argon2::new_with_secret(pepper.as_bytes(), Algorithm::Argon2id, Version::V0x13, params).expect("short secret");
    let salt = SaltString::from_b64("c29tZXNhbHQxMjM0NQ").expect("salt");
    hasher.hash_password(password.as_bytes(), &salt).expect("hash").to_string()
}

#[test]
fn stored_password_hash_accepts_only_its_password_and_pepper() {
    let hash = argon2_hash("my_secure_password", "pepper");
    assert!(socky_be::auth::password::verify_password("my_secure_password", &hash, "pepper"));
    assert!(!socky_be::auth::password::verify_password("wrong_password", &hash, "pepper"));
    assert!(!socky_be::auth::password::verify_password("my_secure_password", &hash, "other pepper"));
    assert!(!socky_be::auth::password::verify_password("my_secure_password", "not a hash", "pepper"));
}

#[test]
fn fresh_password_hash_accepts_the_password_with_its_pepper() {
    let hash = socky_be::auth::password::hash_password("new_password", "pepper").expect("hashed");
    assert!(hash.starts_with("$argon2id$v=19$"));
    assert!(socky_be::auth::password::verify_password("new_password", &hash, "pepper"));
    assert!(!socky_be::auth::password::verify_password("new_password", &hash, "other pepper"));
    assert!(!socky_be::auth::password::verify_password("old_password", &hash, "pepper"));
}

#[test]
fn password_hash_under_a_salt_is_fixed_by_it() {
    let salt_a = [7u8; 16];
    let salt_b = [9u8; 16];
    let a = socky_be::auth::password::hash_password_with_salt("pw", "pepper", &salt_a).expect("hashed");
    let again = socky_be::auth::password::hash_password_with_salt("pw", "pepper", &salt_a).expect("hashed");
    let b = socky_be::auth::password::hash_password_with_salt("pw", "pepper", &salt_b).expect("hashed");
    assert_eq!(a, again);
    assert_ne!(a, b);
    assert!(socky_be::auth::password::verify_password("pw", &a, "pepper"));
    assert_eq!(
        socky_be::auth::password::hash_password_with_salt("pw", "pepper", &[1u8; 4]),
        Err(socky_be::error::PasswordError::PasswordHashingFailed)
    );
    assert_eq!(
        socky_be::auth::password::hash_password_with_salt("pw", "pepper", &[1u8; 60]),
        Err(socky_be::error::PasswordError::PasswordHashingFailed)
    );
}

#[test]
fn password_change_checks_the_old_password_first() {
    let refused = socky_be::auth::password::password_change(5, false, Ok("h".to_string()));
    assert!(matches!(refused, Err(AuthError::InvalidLoginCredentials)));
    let failed = socky_be::auth::password::password_change(
        5,
        true,
        Err(socky_be::error::PasswordError::PasswordHashingFailed),
    );
    assert!(matches!(failed, Err(AuthError::HashingFailed)));
    let (change, lock, revoke) =
        socky_be::auth::password::password_change(5, true, Ok("h".to_string())).expect("statements");
    assert_eq!(change.sql, "UPDATE users SET password_hash = $1 WHERE id = $2");
    assert!(lock.sql.starts_with("SELECT id FROM refresh_tokens WHERE user_id = $1"));
    assert_eq!(revoke.sql, "UPDATE refresh_tokens SET is_revoked = true WHERE user_id = $1 AND is_revoked = false");
    assert_eq!(change.args.len(), 2);
}
