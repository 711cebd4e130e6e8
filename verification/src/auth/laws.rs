//! What every login and refresh step keeps, and what they never do.

use vstd::prelude::*;

use crate::error::{AuthError, ServiceError};
use crate::model::{CreateRefreshTokenDto, LoggedUserInfoVo, LoginCredentialsEntity, RefreshTokenEntity, UserStatus};
use crate::time::Timestamp;
use crate::auth::controller::{
    issued_for, login_failed, login_transition, refresh_failed, refresh_start, refresh_transition, LoginAction,
    LoginEvent, LoginState, RefreshAction, RefreshEvent, RefreshState,
};
use crate::token::hash::refresh_token_hash;
use crate::token::{hs256_access_jwt_for, is_url_safe_char, issued_at_time, issued_pair_shape, lifetimes_fit, AuthConfig};
use crate::auth::controller::AuthController;
use crate::auth::password::argon2_accepts;

verus! {

/// Every login step keeps the login state well formed: a password is only
/// checked for an active user, and the tokens carried along were issued for
/// the user who logged in, with the keyed hash of their refresh token.
pub proof fn login_steps_keep_wf(state: LoginState, event: LoginEvent, config: AuthConfig, step: (LoginState, LoginAction))
    requires
        state.wf(config),
        login_transition(state, event, config, step),
    ensures
        step.0.wf(config),
{
    if let LoginState::AwaitingUserInfo { user_id, tokens, .. } = step.0 {
        if let LoginState::AwaitingPasswordCheck { credentials } = state {
            if let LoginEvent::PasswordVerified { now, .. } = event {
                assert(issued_at_time(tokens, user_id, credentials.role, tokens.family_id, config, now));
            }
        }
    }
}

/// A login issues tokens only for an active user whose password was just
/// verified: a new family, issued for that user and role, whose refresh token
/// is carried on with its keyed hash.
pub proof fn login_issues_tokens_only_after_password_check(
    state: LoginState,
    event: LoginEvent,
    config: AuthConfig,
    step: (LoginState, LoginAction),
)
    requires
        state.wf(config),
        login_transition(state, event, config, step),
        step.0 is AwaitingUserInfo,
    ensures
        state matches LoginState::AwaitingPasswordCheck { credentials }
            && credentials.status == UserStatus::Active
            && (event matches LoginEvent::PasswordVerified { verified: Ok(true), now }
            && lifetimes_fit(config, now)
            && (step.0 matches LoginState::AwaitingUserInfo { user_id, tokens, token_hash }
            && user_id == credentials.id
            && issued_at_time(tokens, credentials.id, credentials.role, tokens.family_id, config, now)
            && token_hash@ == refresh_token_hash(tokens.refresh_token@, config.refresh_token_pepper@))),
{
}

/// A login refuses an unknown e-mail address, an account that is not active,
/// and a wrong password; none of these goes on.
pub proof fn login_refusals(state: LoginState, event: LoginEvent, config: AuthConfig, step: (LoginState, LoginAction))
    requires
        login_transition(state, event, config, step),
    ensures
        event matches LoginEvent::CredentialsLoaded(Ok(None))
            ==> login_failed(step, ServiceError::Auth(AuthError::InvalidLoginCredentials)),
        event matches LoginEvent::CredentialsLoaded(Ok(Some(c))) && c.status != UserStatus::Active
            ==> step.0 == LoginState::Finished && (step.1 matches LoginAction::Finish {
                result: Err(ServiceError::UserStatus(_)),
                update_last_login: None,
            }),
        event matches LoginEvent::PasswordVerified { verified: Ok(false), .. }
            ==> login_failed(step, ServiceError::Auth(AuthError::InvalidLoginCredentials)),
{
}

/// The refresh-token row that a login stores belongs to the user who logged
/// in: it holds the keyed hash of the refresh token handed out, the family
/// and the expiry of a pair issued for that user.
pub proof fn login_stores_the_issued_token(
    state: LoginState,
    event: LoginEvent,
    config: AuthConfig,
    step: (LoginState, LoginAction),
)
    requires
        state.wf(config),
        login_transition(state, event, config, step),
        step.1 is StoreRefreshToken,
    ensures
        state matches LoginState::AwaitingUserInfo { user_id, tokens, .. }
            && issued_for(tokens, user_id, config)
            && (step.1 matches LoginAction::StoreRefreshToken { dto }
            && dto.user_id == user_id
            && dto.family_id == tokens.family_id
            && dto.token_hash@ == refresh_token_hash(tokens.refresh_token@, config.refresh_token_pepper@)
            && dto.expires_at == tokens.refresh_expires_at),
{
}

/// A login succeeds only once its refresh token is stored, and hands out the
/// tokens that were issued.
pub proof fn login_succeeds_only_after_storing(
    state: LoginState,
    event: LoginEvent,
    config: AuthConfig,
    step: (LoginState, LoginAction),
)
    requires
        login_transition(state, event, config, step),
        step.1 matches LoginAction::Finish { result: Ok(_), .. },
    ensures
        state matches LoginState::AwaitingStore { user_id, tokens, user_info }
            && (event matches LoginEvent::RefreshTokenStored(Ok(_)))
            && (step.1 matches LoginAction::Finish { result: Ok(response), update_last_login: Some(u) }
            && response.access_token == tokens.access_token
            && response.refresh_token == tokens.refresh_token
            && response.user_info == user_info
            && u == user_id),
{
}

/// A refresh looks a token up under the same keyed hash that a login stored
/// it under: presenting the refresh token that a login handed out asks for
/// the row that the login stored.
pub proof fn refresh_finds_what_login_stored(
    state: LoginState,
    event: LoginEvent,
    config: AuthConfig,
    step: (LoginState, LoginAction),
    presented: String,
    start: (RefreshState, RefreshAction),
)
    requires
        state.wf(config),
        login_transition(state, event, config, step),
        step.1 is StoreRefreshToken,
        state matches LoginState::AwaitingUserInfo { tokens, .. } && presented@ == tokens.refresh_token@,
        refresh_start(Some(presented), config, start),
    ensures
        start.1 matches RefreshAction::LoadRecord { token_hash }
            && (step.1 matches LoginAction::StoreRefreshToken { dto } && dto.token_hash@ == token_hash@),
{
}

/// Every refresh step keeps the refresh state well formed: only a token
/// that was not revoked goes on towards a new pair.
pub proof fn refresh_steps_keep_wf(
    state: RefreshState,
    event: RefreshEvent,
    config: AuthConfig,
    step: (RefreshState, RefreshAction),
)
    requires
        state.wf(),
        refresh_transition(state, event, config, step),
    ensures
        step.0.wf(),
{
}

/// Reuse detection: a revoked refresh token that is presented again gets its
/// whole family revoked, and the refresh is refused whatever the revocation
/// returns.
pub proof fn reused_token_revokes_its_family(
    now: crate::time::Timestamp,
    record: crate::model::RefreshTokenEntity,
    config: AuthConfig,
    step: (RefreshState, RefreshAction),
    revoked: Result<(), crate::error::RepositoryError>,
    next: (RefreshState, RefreshAction),
)
    requires
        record.is_revoked,
        refresh_transition(
            RefreshState::AwaitingRecord,
            RefreshEvent::RecordLoaded { record: Ok(Some(record)), now },
            config,
            step,
        ),
        refresh_transition(step.0, RefreshEvent::FamilyRevoked(revoked), config, next),
    ensures
        step == (RefreshState::AwaitingFamilyRevocation, RefreshAction::RevokeFamily { family_id: record.family_id }),
        next.0 == RefreshState::Finished,
        next.1 matches RefreshAction::Finish(Err(_)),
        revoked is Ok ==> refresh_failed(next, ServiceError::Auth(AuthError::RevokedToken)),
{
}

/// A live refresh token that expired before the time it was read at is refused.
pub proof fn expired_token_is_refused(
    now: crate::time::Timestamp,
    record: crate::model::RefreshTokenEntity,
    config: AuthConfig,
    step: (RefreshState, RefreshAction),
)
    requires
        !record.is_revoked,
        record.expires_at.spec_before(now),
        refresh_transition(
            RefreshState::AwaitingRecord,
            RefreshEvent::RecordLoaded { record: Ok(Some(record)), now },
            config,
            step,
        ),
    ensures
        refresh_failed(step, ServiceError::Auth(AuthError::ExpiredToken)),
{
}

/// Rotation revokes exactly the presented token, which was live, and stores
/// a new pair issued in the same family for the loaded user, under the keyed
/// hash of its refresh token, for the same user row.
pub proof fn rotation_keeps_family_and_user(
    state: RefreshState,
    event: RefreshEvent,
    config: AuthConfig,
    step: (RefreshState, RefreshAction),
)
    requires
        state.wf(),
        refresh_transition(state, event, config, step),
        step.1 is Rotate,
    ensures
        state matches RefreshState::AwaitingUserInfo { record }
            && !record.is_revoked
            && (event matches RefreshEvent::UserInfoLoaded { loaded: Ok(user_info), now }
            && (step.0 matches RefreshState::AwaitingRotation { tokens, .. }
            && issued_at_time(tokens, user_info.id, user_info.role, record.family_id, config, now)
            && (step.1 matches RefreshAction::Rotate { dto, old_token_id }
            && dto.family_id == record.family_id
            && dto.user_id == record.user_id
            && dto.token_hash@ == refresh_token_hash(tokens.refresh_token@, config.refresh_token_pepper@)
            && dto.expires_at == tokens.refresh_expires_at
            && old_token_id == record.id))),
{
}

/// A refresh succeeds only after the rotation went through.
pub proof fn refresh_succeeds_only_after_rotation(
    state: RefreshState,
    event: RefreshEvent,
    config: AuthConfig,
    step: (RefreshState, RefreshAction),
)
    requires
        refresh_transition(state, event, config, step),
        step.1 matches RefreshAction::Finish(Ok(_)),
    ensures
        state matches RefreshState::AwaitingRotation { tokens, .. }
            && (event matches RefreshEvent::Rotated(Ok(_)))
            && (step.1 matches RefreshAction::Finish(Ok(response))
            && response.access_token == tokens.access_token
            && response.refresh_token == tokens.refresh_token),
{
}

/// A login with the right password of an active user succeeds, when the
/// password check ends at a time to which both lifetimes can be added and
/// the user and the new row are read and written without error: it answers
/// with the loaded user, stores the keyed hash of the refresh token it hands
/// out in a row of that user, and records the login of that user.
pub proof fn login_with_valid_credentials_succeeds(
    password: String,
    credentials: LoginCredentialsEntity,
    now: Timestamp,
    user_info: LoggedUserInfoVo,
    stored_id: i64,
    config: AuthConfig,
    s1: (LoginState, LoginAction),
    s2: (LoginState, LoginAction),
    s3: (LoginState, LoginAction),
    s4: (LoginState, LoginAction),
)
    requires
        credentials.status == UserStatus::Active,
        lifetimes_fit(config, now),
        login_transition(
            LoginState::AwaitingCredentials { password },
            LoginEvent::CredentialsLoaded(Ok(Some(credentials))),
            config,
            s1,
        ),
        login_transition(s1.0, LoginEvent::PasswordVerified { verified: Ok(true), now }, config, s2),
        login_transition(s2.0, LoginEvent::UserInfoLoaded(Ok(user_info)), config, s3),
        login_transition(s3.0, LoginEvent::RefreshTokenStored(Ok(stored_id)), config, s4),
    ensures
        s1.1 matches LoginAction::VerifyPassword { password: p, password_hash, .. }
            && p == password && password_hash == credentials.password_hash,
        s4.1 matches LoginAction::Finish { result: Ok(vo), update_last_login: Some(u) }
            && vo.user_info == user_info
            && u == credentials.id
            && (s3.1 matches LoginAction::StoreRefreshToken { dto }
            && dto.user_id == credentials.id
            && dto.token_hash@ == refresh_token_hash(vo.refresh_token@, config.refresh_token_pepper@)),
{
}

/// A refresh of a live, unexpired token succeeds, when the user is loaded at
/// a time to which both lifetimes can be added and the rotation goes
/// through: the presented token is revoked, and a new one is stored in its
/// family for its user, under the keyed hash of the refresh token handed out.
pub proof fn refresh_of_a_live_token_succeeds(
    record: RefreshTokenEntity,
    read_at: Timestamp,
    user_info: LoggedUserInfoVo,
    now: Timestamp,
    new_id: i64,
    config: AuthConfig,
    s1: (RefreshState, RefreshAction),
    s2: (RefreshState, RefreshAction),
    s3: (RefreshState, RefreshAction),
)
    requires
        !record.is_revoked,
        !record.expires_at.spec_before(read_at),
        lifetimes_fit(config, now),
        refresh_transition(
            RefreshState::AwaitingRecord,
            RefreshEvent::RecordLoaded { record: Ok(Some(record)), now: read_at },
            config,
            s1,
        ),
        refresh_transition(s1.0, RefreshEvent::UserInfoLoaded { loaded: Ok(user_info), now }, config, s2),
        refresh_transition(s2.0, RefreshEvent::Rotated(Ok(new_id)), config, s3),
    ensures
        s1.1 == (RefreshAction::LoadUserInfo { user_id: record.user_id }),
        s3.1 matches RefreshAction::Finish(Ok(vo))
            && vo.user_info == user_info
            && (s2.1 matches RefreshAction::Rotate { dto, old_token_id }
            && old_token_id == record.id
            && dto.family_id == record.family_id
            && dto.user_id == record.user_id
            && dto.token_hash@ == refresh_token_hash(vo.refresh_token@, config.refresh_token_pepper@)),
{
}

/// A refresh whose user is read at a time to which both lifetimes can be
/// added, and whose rotation goes through, succeeds and answers with the
/// pair it issued in its rotation:
/// the access token is an HS256 JWT of the loaded user with that user's
/// role, issued at the time the user was read, and the refresh token is 43
/// URL-safe characters whose keyed hash is the one the rotation stores in
/// the token's family for the token's user.
pub proof fn refresh_answers_with_the_issued_pair(
    record: RefreshTokenEntity,
    user_info: LoggedUserInfoVo,
    now: Timestamp,
    new_id: i64,
    config: AuthConfig,
    s2: (RefreshState, RefreshAction),
    s3: (RefreshState, RefreshAction),
)
    requires
        call_ensures(
            AuthController::refresh_step,
            (RefreshState::AwaitingUserInfo { record }, RefreshEvent::UserInfoLoaded { loaded: Ok(user_info), now }, &config),
            s2,
        ),
        call_ensures(AuthController::refresh_step, (s2.0, RefreshEvent::Rotated(Ok(new_id)), &config), s3),
        lifetimes_fit(config, now),
    ensures
        s3.1 matches RefreshAction::Finish(Ok(vo)) && {
            &&& vo.user_info == user_info
            &&& exists|jti: u128| #[trigger] hs256_access_jwt_for(jti, user_info.id, user_info.role, now, config)
                == Some(vo.access_token@)
            &&& vo.refresh_token@.len() == 43
            &&& forall|i: int| 0 <= i < 43 ==> #[trigger] is_url_safe_char(vo.refresh_token@[i])
            &&& s2.1 matches RefreshAction::Rotate { dto, old_token_id } && {
                &&& dto.token_hash@ == refresh_token_hash(vo.refresh_token@, config.refresh_token_pepper@)
                &&& dto.family_id == record.family_id
                &&& dto.user_id == record.user_id
                &&& old_token_id == record.id
            }
        },
{
    if let RefreshState::AwaitingRotation { tokens, .. } = s2.0 {
        issued_pair_shape(tokens, user_info.id, user_info.role, record.family_id, config, now);
    }
}

/// A login asks to check the given password against the stored hash under
/// the password pepper: when the stored hash accepts the password under that
/// pepper (as a hash made by `hash_password` with it does), the check asked
/// for accepts it, and a check that answers so lets the login go on to the
/// user's tokens instead of refusing the credentials.
pub proof fn login_checks_the_password_under_the_password_pepper(
    password: String,
    credentials: LoginCredentialsEntity,
    config: AuthConfig,
    now: Timestamp,
    s1: (LoginState, LoginAction),
    verified: bool,
    s2: (LoginState, LoginAction),
)
    requires
        credentials.status == UserStatus::Active,
        argon2_accepts(password@, credentials.password_hash@, config.password_pepper@),
        call_ensures(
            AuthController::login_step,
            (LoginState::AwaitingCredentials { password }, LoginEvent::CredentialsLoaded(Ok(Some(credentials))), &config),
            s1,
        ),
        s1.1 matches LoginAction::VerifyPassword { password: p, password_hash: h, pepper }
            && verified == argon2_accepts(p@, h@, pepper@),
        call_ensures(AuthController::login_step, (s1.0, LoginEvent::PasswordVerified { verified: Ok(verified), now }, &config), s2),
    ensures
        s1.1 matches LoginAction::VerifyPassword { password: p, password_hash: h, pepper }
            && p == password && h == credentials.password_hash && argon2_accepts(p@, h@, pepper@),
        verified,
        !(s2.1 matches LoginAction::Finish { result: Err(ServiceError::Auth(AuthError::InvalidLoginCredentials)), .. }),
        lifetimes_fit(config, now) ==> s2.1 == (LoginAction::LoadUserInfo { user_id: credentials.id }),
{
}

/// A login starts a new token family: the family of the pair it issues, and
/// of the token it stores, reads as a version-4 UUID (version nibble 4,
/// variant bits 10), as drawn by `Uuid::new_v4`.
pub proof fn login_starts_a_new_family(
    credentials: LoginCredentialsEntity,
    config: AuthConfig,
    now: Timestamp,
    s2: (LoginState, LoginAction),
    user_info: LoggedUserInfoVo,
    s3: (LoginState, LoginAction),
)
    requires
        lifetimes_fit(config, now),
        call_ensures(
            AuthController::login_step,
            (LoginState::AwaitingPasswordCheck { credentials }, LoginEvent::PasswordVerified { verified: Ok(true), now }, &config),
            s2,
        ),
        call_ensures(AuthController::login_step, (s2.0, LoginEvent::UserInfoLoaded(Ok(user_info)), &config), s3),
    ensures
        s2.0 matches LoginState::AwaitingUserInfo { tokens, .. }
            && (tokens.family_id >> 76u128) & 0xfu128 == 4u128
            && (tokens.family_id >> 62u128) & 0x3u128 == 2u128,
        s3.1 matches LoginAction::StoreRefreshToken { dto }
            && (dto.family_id >> 76u128) & 0xfu128 == 4u128
            && (dto.family_id >> 62u128) & 0x3u128 == 2u128
            && dto.user_id == credentials.id,
{
}

/// A login that succeeds answers with the pair it issued: the access token
/// is an HS256 JWT of the user with the user's role, issued when the
/// password check ended, and the refresh token is 43 URL-safe characters
/// whose keyed hash is the one stored for the user.
pub proof fn login_answers_with_the_issued_pair(
    credentials: LoginCredentialsEntity,
    config: AuthConfig,
    now: Timestamp,
    user_info: LoggedUserInfoVo,
    stored_id: i64,
    s2: (LoginState, LoginAction),
    s3: (LoginState, LoginAction),
    s4: (LoginState, LoginAction),
)
    requires
        lifetimes_fit(config, now),
        call_ensures(
            AuthController::login_step,
            (LoginState::AwaitingPasswordCheck { credentials }, LoginEvent::PasswordVerified { verified: Ok(true), now }, &config),
            s2,
        ),
        call_ensures(AuthController::login_step, (s2.0, LoginEvent::UserInfoLoaded(Ok(user_info)), &config), s3),
        call_ensures(AuthController::login_step, (s3.0, LoginEvent::RefreshTokenStored(Ok(stored_id)), &config), s4),
    ensures
        s4.1 matches LoginAction::Finish { result: Ok(vo), update_last_login: Some(u) } && {
            &&& u == credentials.id
            &&& vo.user_info == user_info
            &&& exists|jti: u128| #[trigger] hs256_access_jwt_for(jti, credentials.id, credentials.role, now, config)
                == Some(vo.access_token@)
            &&& vo.refresh_token@.len() == 43
            &&& forall|i: int| 0 <= i < 43 ==> #[trigger] is_url_safe_char(vo.refresh_token@[i])
            &&& s3.1 matches LoginAction::StoreRefreshToken { dto }
                && dto.token_hash@ == refresh_token_hash(vo.refresh_token@, config.refresh_token_pepper@)
                && dto.user_id == credentials.id
        },
{
    if let LoginState::AwaitingUserInfo { tokens, .. } = s2.0 {
        issued_pair_shape(tokens, credentials.id, credentials.role, tokens.family_id, config, now);
    }
}

} // verus!
