//! What the steps of the authentication service and of the login service
//! keep, and what they never do.

use vstd::prelude::*;

use crate::auth::controller::{LoginEvent, LoginState, RefreshEvent, RefreshState};
use crate::auth::login_service::{
    login_service_failed, login_service_transition, LoginServiceAction, LoginServiceError, LoginServiceEvent,
    LoginServiceState,
};
use crate::auth::service::{
    logout_transition, service_login_failed, service_login_transition, service_refresh_failed,
    service_refresh_transition, AuthServiceError, LogoutAction, LogoutEvent, LogoutState, ServiceLoginAction,
    ServiceRefreshAction,
};
use crate::token::hash::refresh_token_hash;
use crate::error::RepositoryError;
use crate::model::{RefreshTokenEntity, UserStatus};
use crate::time::Timestamp;
use crate::token::{hs256_access_jwt_for, is_url_safe_char, issued_at_time, issued_pair_shape, lifetimes_fit, AuthConfig};
use crate::auth::service::AuthService;
use crate::auth::password::argon2_accepts;
use crate::model::{LoggedUserInfoVo, LoginCredentialsEntity};

verus! {

/// Every login step of the service keeps the login state well formed: a
/// password is only checked for an active user, and the tokens carried along
/// were issued for that user, with the keyed hash of their refresh token.
pub proof fn service_login_steps_keep_wf(
    state: LoginState,
    event: LoginEvent,
    config: AuthConfig,
    step: (LoginState, ServiceLoginAction),
)
    requires
        state.wf(config),
        service_login_transition(state, event, config, step),
    ensures
        step.0.wf(config),
{
    if let LoginState::AwaitingUserInfo { user_id, tokens, .. } = step.0 {
        if let LoginState::AwaitingPasswordCheck { credentials } = state {
            if let LoginEvent::PasswordVerified { now, .. } = event {
                assert(issued_at_time(tokens, user_id, credentials.role, tokens.family_id, config, now));
            }
        }
    }
}

/// The service refuses an unknown username, an account that is not active
/// and a wrong password, each with its own error.
pub proof fn service_login_refusals(
    state: LoginState,
    event: LoginEvent,
    config: AuthConfig,
    step: (LoginState, ServiceLoginAction),
)
    requires
        service_login_transition(state, event, config, step),
    ensures
        event matches LoginEvent::CredentialsLoaded(Ok(None))
            ==> service_login_failed(step, AuthServiceError::UserNotFound),
        event matches LoginEvent::CredentialsLoaded(Ok(Some(c))) ==> (c.status != UserStatus::Active
            ==> service_login_failed(step, AuthServiceError::InvalidUser(c.status.spec_check()->Err_0))),
        event matches LoginEvent::PasswordVerified { verified: Ok(false), .. }
            ==> service_login_failed(step, AuthServiceError::WrongPassword),
{
}

/// The refresh-token row that a login of the service stores belongs to the
/// user who logged in, under the keyed hash of the token handed out.
pub proof fn service_login_stores_the_issued_token(
    state: LoginState,
    event: LoginEvent,
    config: AuthConfig,
    step: (LoginState, ServiceLoginAction),
)
    requires
        state.wf(config),
        service_login_transition(state, event, config, step),
        step.1 is StoreRefreshToken,
    ensures
        state matches LoginState::AwaitingUserInfo { user_id, tokens, .. }
            && (step.1 matches ServiceLoginAction::StoreRefreshToken { dto }
            && dto.user_id == user_id
            && dto.family_id == tokens.family_id
            && dto.token_hash@ == refresh_token_hash(tokens.refresh_token@, config.refresh_token_pepper@)
            && dto.expires_at == tokens.refresh_expires_at),
{
}

/// Every refresh step of the service keeps its state well formed: only a
/// token that was not revoked goes on towards a new pair.
pub proof fn service_refresh_steps_keep_wf(
    state: RefreshState,
    event: RefreshEvent,
    config: AuthConfig,
    step: (RefreshState, ServiceRefreshAction),
)
    requires
        state.wf(),
        service_refresh_transition(state, event, config, step),
    ensures
        step.0.wf(),
{
}

/// Reuse detection in the service: a revoked token presented again gets its
/// whole family revoked, and the refresh is refused whatever the revocation
/// returns.
pub proof fn service_reused_token_revokes_its_family(
    now: Timestamp,
    record: RefreshTokenEntity,
    config: AuthConfig,
    step: (RefreshState, ServiceRefreshAction),
    revoked: Result<(), RepositoryError>,
    next: (RefreshState, ServiceRefreshAction),
)
    requires
        record.is_revoked,
        service_refresh_transition(
            RefreshState::AwaitingRecord,
            RefreshEvent::RecordLoaded { record: Ok(Some(record)), now },
            config,
            step,
        ),
        service_refresh_transition(step.0, RefreshEvent::FamilyRevoked(revoked), config, next),
    ensures
        step == (
            RefreshState::AwaitingFamilyRevocation,
            ServiceRefreshAction::RevokeFamily { family_id: record.family_id },
        ),
        next.0 == RefreshState::Finished,
        next.1 matches ServiceRefreshAction::Finish(Err(_)),
        revoked is Ok ==> service_refresh_failed(next, AuthServiceError::RevokedRefreshToken),
{
}

/// The service refuses a live token that expired before the time it was read at.
pub proof fn service_expired_token_is_refused(
    now: Timestamp,
    record: RefreshTokenEntity,
    config: AuthConfig,
    step: (RefreshState, ServiceRefreshAction),
)
    requires
        !record.is_revoked,
        record.expires_at.spec_before(now),
        service_refresh_transition(
            RefreshState::AwaitingRecord,
            RefreshEvent::RecordLoaded { record: Ok(Some(record)), now },
            config,
            step,
        ),
    ensures
        service_refresh_failed(step, AuthServiceError::ExpiredRefreshToken),
{
}

/// The service's rotation revokes exactly the presented, live token and
/// stores a pair issued in the same family for the loaded user, under the
/// keyed hash of its refresh token, for the same user row.
pub proof fn service_refresh_keeps_family_and_user(
    state: RefreshState,
    event: RefreshEvent,
    config: AuthConfig,
    step: (RefreshState, ServiceRefreshAction),
)
    requires
        state.wf(),
        service_refresh_transition(state, event, config, step),
        step.1 is Rotate,
    ensures
        state matches RefreshState::AwaitingUserInfo { record }
            && !record.is_revoked
            && (event matches RefreshEvent::UserInfoLoaded { loaded: Ok(user_info), now }
            && (step.0 matches RefreshState::AwaitingRotation { tokens, .. }
            && issued_at_time(tokens, user_info.id, user_info.role, record.family_id, config, now)
            && (step.1 matches ServiceRefreshAction::Rotate { dto, old_token_id }
            && dto.family_id == record.family_id
            && dto.user_id == record.user_id
            && dto.token_hash@ == refresh_token_hash(tokens.refresh_token@, config.refresh_token_pepper@)
            && old_token_id == record.id))),
{
}

/// A logout revokes the family of the token stored under the hash of the
/// presented token, and a token that is not stored logs out nothing and
/// still succeeds.
pub proof fn logout_revokes_the_stored_family(
    state: LogoutState,
    event: LogoutEvent,
    step: (LogoutState, LogoutAction),
)
    requires
        logout_transition(state, event, step),
    ensures
        step.1 matches LogoutAction::RevokeFamily { family_id } ==> (
            event matches LogoutEvent::RecordLoaded(Ok(Some(record))) && family_id == record.family_id),
        event matches LogoutEvent::RecordLoaded(Ok(None))
            ==> step == (LogoutState::Finished, LogoutAction::Finish(Ok(()))),
{
}

/// The login service loads a user, and records its login, only after the
/// password of that active user matched; it answers with the session token
/// only after the user was loaded.
pub proof fn login_service_answers_only_after_password_check(
    state: LoginServiceState,
    event: LoginServiceEvent,
    step: (LoginServiceState, LoginServiceAction),
)
    requires
        state.wf(),
        login_service_transition(state, event, step),
    ensures
        step.0.wf(),
        step.1 matches LoginServiceAction::RecordLoginAndLoadUserInfo { user_id } ==> (
            state matches LoginServiceState::AwaitingPasswordCheck { credentials }
                && credentials.status == UserStatus::Active
                && credentials.id == user_id
                && (event matches LoginServiceEvent::PasswordVerified(true))),
        step.1 matches LoginServiceAction::Finish(Ok(_)) ==> (
            state == LoginServiceState::AwaitingUserInfo && (event matches LoginServiceEvent::UserInfoLoaded(Ok(_)))),
        event matches LoginServiceEvent::PasswordVerified(false)
            ==> login_service_failed(step, LoginServiceError::InvalidCredentials),
{
}

/// A refresh of the service whose user is read at a time to which both
/// lifetimes can be added, and whose rotation goes through, succeeds and
/// answers with the pair it issued in its rotation: the access token is an HS256 JWT of the loaded user with
/// that user's role, issued at the time the user was read, and the refresh
/// token is 43 URL-safe characters whose keyed hash is the one the rotation
/// stores in the token's family for the token's user.
pub proof fn service_refresh_answers_with_the_issued_pair(
    record: RefreshTokenEntity,
    user_info: LoggedUserInfoVo,
    now: Timestamp,
    new_id: i64,
    config: AuthConfig,
    s2: (RefreshState, ServiceRefreshAction),
    s3: (RefreshState, ServiceRefreshAction),
)
    requires
        call_ensures(
            AuthService::refresh_step,
            (RefreshState::AwaitingUserInfo { record }, RefreshEvent::UserInfoLoaded { loaded: Ok(user_info), now }, &config),
            s2,
        ),
        call_ensures(AuthService::refresh_step, (s2.0, RefreshEvent::Rotated(Ok(new_id)), &config), s3),
        lifetimes_fit(config, now),
    ensures
        s3.1 matches ServiceRefreshAction::Finish(Ok(vo)) && {
            &&& vo.user_info == user_info
            &&& exists|jti: u128| #[trigger] hs256_access_jwt_for(jti, user_info.id, user_info.role, now, config)
                == Some(vo.access_token@)
            &&& vo.refresh_token@.len() == 43
            &&& forall|i: int| 0 <= i < 43 ==> #[trigger] is_url_safe_char(vo.refresh_token@[i])
            &&& s2.1 matches ServiceRefreshAction::Rotate { dto, old_token_id } && {
                &&& dto.token_hash@ == refresh_token_hash(vo.refresh_token@, config.refresh_token_pepper@)
                &&& dto.family_id == record.family_id
                &&& dto.user_id == record.user_id
                &&& old_token_id == record.id
            }
        },
{
    if let RefreshState::AwaitingRotation { tokens, .. } = s2.0 {
        issued_pair_shape(tokens, user_info.id, user_info.role, record.family_id, config, now);
    }
}

/// A login of the service asks to check the given password against the
/// stored hash under the password pepper: when the stored hash accepts the
/// password under that pepper (as a hash made by `hash_password` with it
/// does), the check asked for accepts it, and a check that answers so lets
/// the login go on to the user's tokens instead of refusing the password.
pub proof fn service_login_checks_the_password_under_the_password_pepper(
    password: String,
    credentials: LoginCredentialsEntity,
    config: AuthConfig,
    now: Timestamp,
    s1: (LoginState, ServiceLoginAction),
    verified: bool,
    s2: (LoginState, ServiceLoginAction),
)
    requires
        credentials.status == UserStatus::Active,
        argon2_accepts(password@, credentials.password_hash@, config.password_pepper@),
        call_ensures(
            AuthService::login_step,
            (LoginState::AwaitingCredentials { password }, LoginEvent::CredentialsLoaded(Ok(Some(credentials))), &config),
            s1,
        ),
        s1.1 matches ServiceLoginAction::VerifyPassword { password: p, password_hash: h, pepper }
            && verified == argon2_accepts(p@, h@, pepper@),
        call_ensures(AuthService::login_step, (s1.0, LoginEvent::PasswordVerified { verified: Ok(verified), now }, &config), s2),
    ensures
        s1.1 matches ServiceLoginAction::VerifyPassword { password: p, password_hash: h, pepper }
            && p == password && h == credentials.password_hash && argon2_accepts(p@, h@, pepper@),
        verified,
        s2.1 != (ServiceLoginAction::Finish { result: Err(AuthServiceError::WrongPassword), update_last_login: None }),
        lifetimes_fit(config, now) ==> s2.1 == (ServiceLoginAction::LoadUserInfo { user_id: credentials.id }),
{
}

/// A login of the service starts a new token family: the family of the pair
/// it issues, and of the token it stores, reads as a version-4 UUID (version
/// nibble 4, variant bits 10), as drawn by `Uuid::new_v4`.
pub proof fn service_login_starts_a_new_family(
    credentials: LoginCredentialsEntity,
    config: AuthConfig,
    now: Timestamp,
    s2: (LoginState, ServiceLoginAction),
    user_info: LoggedUserInfoVo,
    s3: (LoginState, ServiceLoginAction),
)
    requires
        lifetimes_fit(config, now),
        call_ensures(
            AuthService::login_step,
            (LoginState::AwaitingPasswordCheck { credentials }, LoginEvent::PasswordVerified { verified: Ok(true), now }, &config),
            s2,
        ),
        call_ensures(AuthService::login_step, (s2.0, LoginEvent::UserInfoLoaded(Ok(user_info)), &config), s3),
    ensures
        s2.0 matches LoginState::AwaitingUserInfo { tokens, .. }
            && (tokens.family_id >> 76u128) & 0xfu128 == 4u128
            && (tokens.family_id >> 62u128) & 0x3u128 == 2u128,
        s3.1 matches ServiceLoginAction::StoreRefreshToken { dto }
            && (dto.family_id >> 76u128) & 0xfu128 == 4u128
            && (dto.family_id >> 62u128) & 0x3u128 == 2u128
            && dto.user_id == credentials.id,
{
}

/// A login of the service that succeeds answers with the pair it issued:
/// the access token is an HS256 JWT of the user with the user's role, issued
/// when the password check ended, and the refresh token is 43 URL-safe
/// characters whose keyed hash is the one stored for the user.
pub proof fn service_login_answers_with_the_issued_pair(
    credentials: LoginCredentialsEntity,
    config: AuthConfig,
    now: Timestamp,
    user_info: LoggedUserInfoVo,
    stored_id: i64,
    s2: (LoginState, ServiceLoginAction),
    s3: (LoginState, ServiceLoginAction),
    s4: (LoginState, ServiceLoginAction),
)
    requires
        lifetimes_fit(config, now),
        call_ensures(
            AuthService::login_step,
            (LoginState::AwaitingPasswordCheck { credentials }, LoginEvent::PasswordVerified { verified: Ok(true), now }, &config),
            s2,
        ),
        call_ensures(AuthService::login_step, (s2.0, LoginEvent::UserInfoLoaded(Ok(user_info)), &config), s3),
        call_ensures(AuthService::login_step, (s3.0, LoginEvent::RefreshTokenStored(Ok(stored_id)), &config), s4),
    ensures
        s4.1 matches ServiceLoginAction::Finish { result: Ok(vo), update_last_login: Some(u) } && {
            &&& u == credentials.id
            &&& vo.user_info == user_info
            &&& exists|jti: u128| #[trigger] hs256_access_jwt_for(jti, credentials.id, credentials.role, now, config)
                == Some(vo.access_token@)
            &&& vo.refresh_token@.len() == 43
            &&& forall|i: int| 0 <= i < 43 ==> #[trigger] is_url_safe_char(vo.refresh_token@[i])
            &&& s3.1 matches ServiceLoginAction::StoreRefreshToken { dto }
                && dto.token_hash@ == refresh_token_hash(vo.refresh_token@, config.refresh_token_pepper@)
                && dto.user_id == credentials.id
        },
{
    if let LoginState::AwaitingUserInfo { tokens, .. } = s2.0 {
        issued_pair_shape(tokens, credentials.id, credentials.role, tokens.family_id, config, now);
    }
}

} // verus!
