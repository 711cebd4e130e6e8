//! The authentication controller.
//!
//! Each flow is a state machine. The caller performs the action that a step
//! returns (a database query, a hash, issuing tokens) and hands the outcome
//! back as the next event, until the machine answers with `Finish`.

use vstd::prelude::*;
use vstd::string::*;

use crate::error::{AuthError, RepositoryError, ServiceError};
use crate::model::{
    AuthResponseVo, CreateRefreshTokenDto, LoggedUserInfoVo, LoginCredentialsEntity, RefreshTokenEntity,
    UserRole, UserStatus,
};
use crate::time::Timestamp;
use crate::token::hash::{hash_refresh_token, refresh_token_hash};
use crate::token::{is_uuid_v4, issue_tokens_at, issued_at_time, lifetimes_fit, new_uuid_v4, AccessClaims, AuthConfig, TokenError, TokenPair};
use crate::token::jwt::{claims_of_raw, hs256_verified_claims, spec_access_jwt, validate_jwt};

verus! {

pub struct AuthController;

/// Credentials of a login request.
#[derive(Debug, Clone)]
pub struct LoginRequestDto {
    pub email: String,
    pub password: String,
}

/// The blocking task that checked the password could not be joined.
#[derive(Debug, Clone, Copy, PartialEq, Eq, Structural)]
pub struct JoinFailure;

pub open spec fn join_failure_message() -> Seq<char> {
    "Password verification blocking thread failed to join"@
}

// ---------------------------------------------------------------------------
// Login
// ---------------------------------------------------------------------------

/// Where a login stands.
#[derive(Debug)]
pub enum LoginState {
    /// The credentials stored under the e-mail address are being loaded.
    AwaitingCredentials { password: String },
    /// The password is being checked against the stored hash of an active user.
    AwaitingPasswordCheck { credentials: LoginCredentialsEntity },
    /// Tokens were issued and the refresh token hashed; what the client
    /// learns of the user is being loaded.
    AwaitingUserInfo { user_id: i64, tokens: TokenPair, token_hash: Vec<u8> },
    /// The hash of the new refresh token is being stored.
    AwaitingStore { user_id: i64, tokens: TokenPair, user_info: LoggedUserInfoVo },
    /// The login has been answered.
    Finished,
}

/// Outcome of the action that a login step asked for.
#[derive(Debug)]
pub enum LoginEvent {
    CredentialsLoaded(Result<Option<LoginCredentialsEntity>, RepositoryError>),
    /// The outcome of the password check, and the time at which it ended.
    PasswordVerified { verified: Result<bool, JoinFailure>, now: Timestamp },
    UserInfoLoaded(Result<LoggedUserInfoVo, RepositoryError>),
    RefreshTokenStored(Result<i64, RepositoryError>),
}

/// What a login step asks the caller to do.
#[derive(Debug)]
pub enum LoginAction {
    /// Load the login credentials of the (non-ghost) user with this e-mail address.
    LoadCredentials { email: String },
    /// Check `password` with `pepper` against `password_hash`, off the async executor.
    VerifyPassword { password: String, password_hash: String, pepper: String },
    /// Load the user with this id.
    LoadUserInfo { user_id: i64 },
    /// Store this refresh token.
    StoreRefreshToken { dto: CreateRefreshTokenDto },
    /// Answer the login; on success, record the login time of `update_last_login`
    /// without waiting for it.
    Finish { result: Result<AuthResponseVo, ServiceError>, update_last_login: Option<i64> },
}

/// `tokens` were issued for user `user_id` (with some role) in their own
/// family, under `config`.
pub open spec fn issued_for(tokens: TokenPair, user_id: i64, config: AuthConfig) -> bool {
    exists|role: UserRole, now: Timestamp| #[trigger] issued_at_time(tokens, user_id, role, tokens.family_id, config, now)
        && lifetimes_fit(config, now)
}

impl LoginState {
    /// The event is the outcome of the action that led to this state.
    pub open spec fn accepts(&self, event: LoginEvent) -> bool {
        match (*self, event) {
            (LoginState::AwaitingCredentials { .. }, LoginEvent::CredentialsLoaded(_)) => true,
            (LoginState::AwaitingPasswordCheck { .. }, LoginEvent::PasswordVerified { .. }) => true,
            (LoginState::AwaitingUserInfo { .. }, LoginEvent::UserInfoLoaded(_)) => true,
            (LoginState::AwaitingStore { .. }, LoginEvent::RefreshTokenStored(_)) => true,
            _ => false,
        }
    }

    pub fn accepts_event(&self, event: &LoginEvent) -> (r: bool)
        ensures
            r == self.accepts(*event),
    {
        match (self, event) {
            (LoginState::AwaitingCredentials { .. }, LoginEvent::CredentialsLoaded(_)) => true,
            (LoginState::AwaitingPasswordCheck { .. }, LoginEvent::PasswordVerified { .. }) => true,
            (LoginState::AwaitingUserInfo { .. }, LoginEvent::UserInfoLoaded(_)) => true,
            (LoginState::AwaitingStore { .. }, LoginEvent::RefreshTokenStored(_)) => true,
            _ => false,
        }
    }

    /// What holds of every state that a login reaches: a password is only
    /// ever checked for an active user, and the tokens carried along were
    /// issued for the user who logged in, with the refresh token's keyed hash.
    pub open spec fn wf(&self, config: AuthConfig) -> bool {
        match *self {
            LoginState::AwaitingPasswordCheck { credentials } => credentials.status == UserStatus::Active,
            LoginState::AwaitingUserInfo { user_id, tokens, token_hash } => {
                &&& issued_for(tokens, user_id, config)
                &&& token_hash@ == refresh_token_hash(tokens.refresh_token@, config.refresh_token_pepper@)
            },
            LoginState::AwaitingStore { user_id, tokens, .. } => issued_for(tokens, user_id, config),
            _ => true,
        }
    }
}

/// A finished login that failed with `error`.
pub open spec fn login_failed(step: (LoginState, LoginAction), error: ServiceError) -> bool {
    step == (LoginState::Finished, LoginAction::Finish { result: Err(error), update_last_login: None })
}

/// The step after the password of `credentials` matched at `now`: a new
/// token family is issued at `now` for the user and its refresh token hashed,
/// when both lifetimes can be added to `now`; otherwise issuing fails.
pub open spec fn tokens_issued_step(
    credentials: LoginCredentialsEntity,
    config: AuthConfig,
    now: Timestamp,
    step: (LoginState, LoginAction),
) -> bool {
    if lifetimes_fit(config, now) {
        &&& step.0 matches LoginState::AwaitingUserInfo { user_id, tokens, token_hash }
        &&& user_id == credentials.id
        &&& issued_at_time(tokens, credentials.id, credentials.role, tokens.family_id, config, now)
        &&& is_uuid_v4(tokens.family_id)
        &&& token_hash@ == refresh_token_hash(tokens.refresh_token@, config.refresh_token_pepper@)
        &&& step.1 == (LoginAction::LoadUserInfo { user_id: credentials.id })
    } else {
        login_failed(step, ServiceError::Auth(AuthError::TokenCreationFailed))
    }
}

/// The step that a login takes from `state` on `event`.
pub open spec fn login_transition(
    state: LoginState,
    event: LoginEvent,
    config: AuthConfig,
    step: (LoginState, LoginAction),
) -> bool {
    match (state, event) {
        (LoginState::AwaitingCredentials { password }, LoginEvent::CredentialsLoaded(loaded)) => match loaded {
            Err(e) => login_failed(step, ServiceError::Repository(e)),
            Ok(None) => login_failed(step, ServiceError::Auth(AuthError::InvalidLoginCredentials)),
            Ok(Some(credentials)) => match credentials.status.spec_check() {
                Err(e) => login_failed(step, ServiceError::UserStatus(e)),
                Ok(_) => step == (
                    LoginState::AwaitingPasswordCheck { credentials },
                    LoginAction::VerifyPassword {
                        password,
                        password_hash: credentials.password_hash,
                        pepper: config.password_pepper,
                    },
                ),
            },
        },
        (LoginState::AwaitingPasswordCheck { credentials }, LoginEvent::PasswordVerified { verified, now }) => match verified {
            Err(_) => step.0 == LoginState::Finished && (step.1 matches LoginAction::Finish {
                result: Err(ServiceError::Internal(m)),
                update_last_login: None,
            } && m@ == join_failure_message()),
            Ok(false) => login_failed(step, ServiceError::Auth(AuthError::InvalidLoginCredentials)),
            Ok(true) => tokens_issued_step(credentials, config, now, step),
        },
        (LoginState::AwaitingUserInfo { user_id, tokens, token_hash }, LoginEvent::UserInfoLoaded(loaded)) => match loaded {
            Err(e) => login_failed(step, ServiceError::Repository(e)),
            Ok(user_info) => step == (
                LoginState::AwaitingStore { user_id, tokens, user_info },
                LoginAction::StoreRefreshToken {
                    dto: CreateRefreshTokenDto {
                        user_id,
                        family_id: tokens.family_id,
                        token_hash,
                        expires_at: tokens.refresh_expires_at,
                    },
                },
            ),
        },
        (LoginState::AwaitingStore { user_id, tokens, user_info }, LoginEvent::RefreshTokenStored(stored)) => match stored {
            Err(e) => login_failed(step, ServiceError::Repository(e)),
            Ok(_) => step == (
                LoginState::Finished,
                LoginAction::Finish {
                    result: Ok(AuthResponseVo {
                        access_token: tokens.access_token,
                        refresh_token: tokens.refresh_token,
                        user_info,
                    }),
                    update_last_login: Some(user_id),
                },
            ),
        },
        _ => false,
    }
}

fn login_failure(error: ServiceError) -> (r: (LoginState, LoginAction))
    ensures
        login_failed(r, error),
{
    (LoginState::Finished, LoginAction::Finish { result: Err(error), update_last_login: None })
}

/// Issues a new token family at `now` for the user whose password matched
/// and hashes its refresh token.
fn issue_login_tokens(credentials: LoginCredentialsEntity, config: &AuthConfig, now: Timestamp) -> (r: (LoginState, LoginAction))
    ensures
        tokens_issued_step(credentials, *config, now, r),
{
    let user_id = credentials.id;
    match issue_tokens_at(user_id, credentials.role, new_uuid_v4(), config, now) {
        Err(e) => login_failure(ServiceError::Auth(AuthError::from(e))),
        Ok(tokens) => match hash_refresh_token(tokens.refresh_token.as_str(), config.refresh_token_pepper.as_str()) {
            Err(_) => login_failure(ServiceError::Auth(AuthError::HashingFailed)),
            Ok(token_hash) => (LoginState::AwaitingUserInfo { user_id, tokens, token_hash }, LoginAction::LoadUserInfo { user_id }),
        },
    }
}

impl AuthController {
    /// Starts a login: the credentials stored under the e-mail address are loaded first.
    pub fn login(request: LoginRequestDto) -> (r: (LoginState, LoginAction))
        ensures
            r == (
                LoginState::AwaitingCredentials { password: request.password },
                LoginAction::LoadCredentials { email: request.email },
            ),
    {
        (
            LoginState::AwaitingCredentials { password: request.password },
            LoginAction::LoadCredentials { email: request.email },
        )
    }

    /// Takes the next login step. Once the password matched, the step issues
    /// the tokens of a new family itself and hashes the refresh token.
    pub fn login_step(state: LoginState, event: LoginEvent, config: &AuthConfig) -> (r: (LoginState, LoginAction))
        requires
            state.accepts(event),
        ensures
            login_transition(state, event, *config, r),
    {
        match state {
            LoginState::AwaitingCredentials { password } => match event {
                LoginEvent::CredentialsLoaded(loaded) => match loaded {
                    Err(e) => login_failure(ServiceError::Repository(e)),
                    Ok(None) => login_failure(ServiceError::Auth(AuthError::InvalidLoginCredentials)),
                    Ok(Some(credentials)) => match credentials.status.check_status() {
                        Err(e) => login_failure(ServiceError::UserStatus(e)),
                        Ok(_) => {
                            let password_hash = credentials.password_hash.clone();
                            (
                                LoginState::AwaitingPasswordCheck { credentials },
                                LoginAction::VerifyPassword {
                                    password,
                                    password_hash,
                                    pepper: config.password_pepper.clone(),
                                },
                            )
                        },
                    },
                },
                // Ruled out by `accepts`.
                _ => login_failure(ServiceError::CurrentUserExtractionError),
            },
            LoginState::AwaitingPasswordCheck { credentials } => match event {
                LoginEvent::PasswordVerified { verified, now } => match verified {
                    Err(_) => login_failure(ServiceError::Internal(
                        String::from_str("Password verification blocking thread failed to join"),
                    )),
                    Ok(false) => login_failure(ServiceError::Auth(AuthError::InvalidLoginCredentials)),
                    Ok(true) => issue_login_tokens(credentials, config, now),
                },
                _ => login_failure(ServiceError::CurrentUserExtractionError),
            },
            LoginState::AwaitingUserInfo { user_id, tokens, token_hash } => match event {
                LoginEvent::UserInfoLoaded(loaded) => match loaded {
                    Err(e) => login_failure(ServiceError::Repository(e)),
                    Ok(user_info) => {
                        let dto = CreateRefreshTokenDto {
                            user_id,
                            family_id: tokens.family_id,
                            token_hash,
                            expires_at: tokens.refresh_expires_at,
                        };
                        (LoginState::AwaitingStore { user_id, tokens, user_info }, LoginAction::StoreRefreshToken { dto })
                    },
                },
                _ => login_failure(ServiceError::CurrentUserExtractionError),
            },
            LoginState::AwaitingStore { user_id, tokens, user_info } => match event {
                LoginEvent::RefreshTokenStored(stored) => match stored {
                    Err(e) => login_failure(ServiceError::Repository(e)),
                    Ok(_) => (
                        LoginState::Finished,
                        LoginAction::Finish {
                            result: Ok(AuthResponseVo {
                                access_token: tokens.access_token,
                                refresh_token: tokens.refresh_token,
                                user_info,
                            }),
                            update_last_login: Some(user_id),
                        },
                    ),
                },
                _ => login_failure(ServiceError::CurrentUserExtractionError),
            },
            LoginState::Finished => login_failure(ServiceError::CurrentUserExtractionError),
        }
    }
}


// ---------------------------------------------------------------------------
// Refresh
// ---------------------------------------------------------------------------

/// Where a refresh stands.
#[derive(Debug)]
pub enum RefreshState {
    /// The stored token under the hash of the presented one is being looked up.
    AwaitingRecord,
    /// A revoked token was presented again: its whole family is being revoked.
    AwaitingFamilyRevocation,
    /// The token is live; its user is being loaded.
    AwaitingUserInfo { record: RefreshTokenEntity },
    /// A new pair was issued in the token's family: the old token is being
    /// revoked and the new one stored, in one transaction.
    AwaitingRotation { user_info: LoggedUserInfoVo, tokens: TokenPair },
    /// The refresh has been answered.
    Finished,
}

/// Outcome of the action that a refresh step asked for.
#[derive(Debug)]
pub enum RefreshEvent {
    /// The stored token, if any, and the time at which it was read.
    RecordLoaded { record: Result<Option<RefreshTokenEntity>, RepositoryError>, now: Timestamp },
    FamilyRevoked(Result<(), RepositoryError>),
    /// The user, and the time at which it was read.
    UserInfoLoaded { loaded: Result<LoggedUserInfoVo, RepositoryError>, now: Timestamp },
    Rotated(Result<i64, RepositoryError>),
}

/// What a refresh step asks the caller to do.
#[derive(Debug)]
pub enum RefreshAction {
    /// Load the stored token with this hash.
    LoadRecord { token_hash: Vec<u8> },
    /// Revoke every token of this family.
    RevokeFamily { family_id: u128 },
    /// Load the user with this id.
    LoadUserInfo { user_id: i64 },
    /// In one transaction: revoke the token `old_token_id`, store `dto`.
    Rotate { dto: CreateRefreshTokenDto, old_token_id: i64 },
    /// Answer the refresh.
    Finish(Result<AuthResponseVo, ServiceError>),
}

impl RefreshState {
    /// The event is the outcome of the action that led to this state.
    pub open spec fn accepts(&self, event: RefreshEvent) -> bool {
        match (*self, event) {
            (RefreshState::AwaitingRecord, RefreshEvent::RecordLoaded { .. }) => true,
            (RefreshState::AwaitingFamilyRevocation, RefreshEvent::FamilyRevoked(_)) => true,
            (RefreshState::AwaitingUserInfo { .. }, RefreshEvent::UserInfoLoaded { .. }) => true,
            (RefreshState::AwaitingRotation { .. }, RefreshEvent::Rotated(_)) => true,
            _ => false,
        }
    }

    pub fn accepts_event(&self, event: &RefreshEvent) -> (r: bool)
        ensures
            r == self.accepts(*event),
    {
        match (self, event) {
            (RefreshState::AwaitingRecord, RefreshEvent::RecordLoaded { .. }) => true,
            (RefreshState::AwaitingFamilyRevocation, RefreshEvent::FamilyRevoked(_)) => true,
            (RefreshState::AwaitingUserInfo { .. }, RefreshEvent::UserInfoLoaded { .. }) => true,
            (RefreshState::AwaitingRotation { .. }, RefreshEvent::Rotated(_)) => true,
            _ => false,
        }
    }

    /// What holds of every state that a refresh reaches: only a token that
    /// was not revoked goes on towards a new pair.
    pub open spec fn wf(&self) -> bool {
        match *self {
            RefreshState::AwaitingUserInfo { record } => !record.is_revoked,
            _ => true,
        }
    }
}

/// A finished refresh that failed with `error`.
pub open spec fn refresh_failed(step: (RefreshState, RefreshAction), error: ServiceError) -> bool {
    step == (RefreshState::Finished, RefreshAction::Finish(Err(error)))
}

/// The first step of a refresh on the presented token: a missing token is
/// refused; a present one is looked up under its keyed hash.
pub open spec fn refresh_start(input_token: Option<String>, config: AuthConfig, step: (RefreshState, RefreshAction)) -> bool {
    match input_token {
        None => refresh_failed(step, ServiceError::Auth(AuthError::MissingToken)),
        Some(token) => step.0 == RefreshState::AwaitingRecord
            && (step.1 matches RefreshAction::LoadRecord { token_hash }
            && token_hash@ == refresh_token_hash(token@, config.refresh_token_pepper@)),
    }
}

/// The step after the user of a live `record` was loaded at `now`: a new
/// pair is issued at `now` in the record's family for that user and its
/// refresh token hashed, and the rotation revokes the record and stores the
/// new token for the record's user; when a lifetime cannot be added to `now`,
/// issuing fails.
pub open spec fn rotation_step(
    record: RefreshTokenEntity,
    user_info: LoggedUserInfoVo,
    config: AuthConfig,
    now: Timestamp,
    step_state: RefreshState,
    rotate: Option<(CreateRefreshTokenDto, i64)>,
) -> bool {
    match rotate {
        None => !lifetimes_fit(config, now),
        Some((dto, old_token_id)) => {
            &&& lifetimes_fit(config, now)
            &&& step_state matches RefreshState::AwaitingRotation { user_info: u, tokens }
            &&& u == user_info
            &&& issued_at_time(tokens, user_info.id, user_info.role, record.family_id, config, now)
            &&& dto.user_id == record.user_id
            &&& dto.family_id == record.family_id
            &&& dto.token_hash@ == refresh_token_hash(tokens.refresh_token@, config.refresh_token_pepper@)
            &&& dto.expires_at == tokens.refresh_expires_at
            &&& old_token_id == record.id
        },
    }
}

/// The step that a refresh takes from `state` on `event`.
pub open spec fn refresh_transition(
    state: RefreshState,
    event: RefreshEvent,
    config: AuthConfig,
    step: (RefreshState, RefreshAction),
) -> bool {
    match (state, event) {
        (RefreshState::AwaitingRecord, RefreshEvent::RecordLoaded { record, now }) => match record {
            Err(e) => refresh_failed(step, ServiceError::Repository(e)),
            Ok(None) => refresh_failed(step, ServiceError::Auth(AuthError::InvalidToken)),
            Ok(Some(record)) => if record.is_revoked {
                step == (
                    RefreshState::AwaitingFamilyRevocation,
                    RefreshAction::RevokeFamily { family_id: record.family_id },
                )
            } else if record.expires_at.spec_before(now) {
                refresh_failed(step, ServiceError::Auth(AuthError::ExpiredToken))
            } else {
                step == (
                    RefreshState::AwaitingUserInfo { record },
                    RefreshAction::LoadUserInfo { user_id: record.user_id },
                )
            },
        },
        (RefreshState::AwaitingFamilyRevocation, RefreshEvent::FamilyRevoked(revoked)) => match revoked {
            Err(e) => refresh_failed(step, ServiceError::Repository(e)),
            Ok(_) => refresh_failed(step, ServiceError::Auth(AuthError::RevokedToken)),
        },
        (RefreshState::AwaitingUserInfo { record }, RefreshEvent::UserInfoLoaded { loaded, now }) => match loaded {
            Err(e) => refresh_failed(step, ServiceError::Repository(e)),
            Ok(user_info) => match step.1 {
                RefreshAction::Rotate { dto, old_token_id } => rotation_step(record, user_info, config, now, step.0, Some((dto, old_token_id))),
                _ => rotation_step(record, user_info, config, now, step.0, None)
                    && refresh_failed(step, ServiceError::Auth(AuthError::TokenCreationFailed)),
            },
        },
        (RefreshState::AwaitingRotation { user_info, tokens }, RefreshEvent::Rotated(rotated)) => match rotated {
            Err(e) => refresh_failed(step, ServiceError::Repository(e)),
            Ok(_) => step == (
                RefreshState::Finished,
                RefreshAction::Finish(Ok(AuthResponseVo {
                    access_token: tokens.access_token,
                    refresh_token: tokens.refresh_token,
                    user_info,
                })),
            ),
        },
        _ => false,
    }
}

fn refresh_failure(error: ServiceError) -> (r: (RefreshState, RefreshAction))
    ensures
        refresh_failed(r, error),
{
    (RefreshState::Finished, RefreshAction::Finish(Err(error)))
}

impl AuthController {
    /// Starts a refresh: a missing token is refused, a present one is hashed
    /// so that its stored record can be found.
    pub fn refresh(input_token: Option<String>, config: &AuthConfig) -> (r: (RefreshState, RefreshAction))
        ensures
            refresh_start(input_token, *config, r),
    {
        match input_token {
            None => refresh_failure(ServiceError::Auth(AuthError::MissingToken)),
            Some(token) => match hash_refresh_token(token.as_str(), config.refresh_token_pepper.as_str()) {
                Ok(token_hash) => (RefreshState::AwaitingRecord, RefreshAction::LoadRecord { token_hash }),
                Err(_) => refresh_failure(ServiceError::Auth(AuthError::HashingFailed)),
            },
        }
    }

    /// Takes the next refresh step. Once the user of a live token is loaded,
    /// the step issues the new pair in the token's family itself.
    pub fn refresh_step(state: RefreshState, event: RefreshEvent, config: &AuthConfig) -> (r: (RefreshState, RefreshAction))
        requires
            state.accepts(event),
        ensures
            refresh_transition(state, event, *config, r),
    {
        match state {
            RefreshState::AwaitingRecord => match event {
                RefreshEvent::RecordLoaded { record, now } => match record {
                    Err(e) => refresh_failure(ServiceError::Repository(e)),
                    Ok(None) => refresh_failure(ServiceError::Auth(AuthError::InvalidToken)),
                    Ok(Some(record)) => {
                        if record.is_revoked {
                            // A revoked token presented again means it leaked:
                            // the whole family goes.
                            let family_id = record.family_id;
                            (RefreshState::AwaitingFamilyRevocation, RefreshAction::RevokeFamily { family_id })
                        } else if record.expires_at.is_before(&now) {
                            refresh_failure(ServiceError::Auth(AuthError::ExpiredToken))
                        } else {
                            let user_id = record.user_id;
                            (RefreshState::AwaitingUserInfo { record }, RefreshAction::LoadUserInfo { user_id })
                        }
                    },
                },
                // Ruled out by `accepts`.
                _ => refresh_failure(ServiceError::CurrentUserExtractionError),
            },
            RefreshState::AwaitingFamilyRevocation => match event {
                RefreshEvent::FamilyRevoked(revoked) => match revoked {
                    Err(e) => refresh_failure(ServiceError::Repository(e)),
                    Ok(_) => refresh_failure(ServiceError::Auth(AuthError::RevokedToken)),
                },
                _ => refresh_failure(ServiceError::CurrentUserExtractionError),
            },
            RefreshState::AwaitingUserInfo { record } => match event {
                RefreshEvent::UserInfoLoaded { loaded, now } => match loaded {
                    Err(e) => refresh_failure(ServiceError::Repository(e)),
                    Ok(user_info) => match issue_tokens_at(
                        user_info.id,
                        user_info.role,
                        record.family_id,
                        config,
                        now,
                    ) {
                        Err(e) => refresh_failure(ServiceError::Auth(AuthError::from(e))),
                        Ok(tokens) => match hash_refresh_token(
                            tokens.refresh_token.as_str(),
                            config.refresh_token_pepper.as_str(),
                        ) {
                            Err(_) => refresh_failure(ServiceError::Auth(AuthError::HashingFailed)),
                            Ok(token_hash) => {
                                let dto = CreateRefreshTokenDto {
                                    user_id: record.user_id,
                                    family_id: record.family_id,
                                    token_hash,
                                    expires_at: tokens.refresh_expires_at,
                                };
                                let old_token_id = record.id;
                                (RefreshState::AwaitingRotation { user_info, tokens }, RefreshAction::Rotate { dto, old_token_id })
                            },
                        },
                    },
                },
                _ => refresh_failure(ServiceError::CurrentUserExtractionError),
            },
            RefreshState::AwaitingRotation { user_info, tokens } => match event {
                RefreshEvent::Rotated(rotated) => match rotated {
                    Err(e) => refresh_failure(ServiceError::Repository(e)),
                    Ok(_) => (
                        RefreshState::Finished,
                        RefreshAction::Finish(Ok(AuthResponseVo {
                            access_token: tokens.access_token,
                            refresh_token: tokens.refresh_token,
                            user_info,
                        })),
                    ),
                },
                _ => refresh_failure(ServiceError::CurrentUserExtractionError),
            },
            RefreshState::Finished => refresh_failure(ServiceError::CurrentUserExtractionError),
        }
    }
}

// ---------------------------------------------------------------------------
// Logout and access tokens
// ---------------------------------------------------------------------------

/// What a logout asks the caller to do: revoke every token of the family.
#[derive(Debug, Clone, Copy, PartialEq, Eq, Structural)]
pub struct RevokeFamily {
    pub family_id: u128,
}

/// The answer to a verification of the access token `token`: claims that
/// the token verifies to under the access secret, or an invalid or expired
/// token.
pub open spec fn access_verdict(token: Seq<char>, config: AuthConfig, r: Result<AccessClaims, ServiceError>) -> bool {
    match r {
        Ok(c) => hs256_verified_claims(token, config.access_token_secret@) matches Some(raw)
            && claims_of_raw(raw) == Some(c),
        Err(ServiceError::Auth(e)) => e == AuthError::InvalidToken || e == AuthError::ExpiredToken,
        Err(_) => false,
    }
}

/// The answer to a verification of an access token, present or not.
pub open spec fn verified_access(token: Option<&str>, config: AuthConfig, r: Result<AccessClaims, ServiceError>) -> bool {
    match token {
        None => r == Err::<AccessClaims, ServiceError>(ServiceError::Auth(AuthError::MissingToken)),
        Some(t) => access_verdict(t@, config, r),
    }
}

impl AuthController {
    /// Starts a logout: the whole family of the session is revoked.
    pub fn logout(family_id: u128) -> (r: RevokeFamily)
        ensures
            r.family_id == family_id,
    {
        RevokeFamily { family_id }
    }

    /// Answers a logout once its family was revoked, or not.
    pub fn logout_finished(revoked: Result<(), RepositoryError>) -> (r: Result<(), ServiceError>)
        ensures
            match revoked {
                Ok(_) => r is Ok,
                Err(e) => r == Err::<(), ServiceError>(ServiceError::Repository(e)),
            },
    {
        match revoked {
            Ok(_) => Ok(()),
            Err(e) => Err(ServiceError::Repository(e)),
        }
    }

    /// Verifies an access token and returns its claims.
    ///
    /// A missing token is refused as missing; a token that does not verify
    /// under the access secret is refused as invalid; a token issued under
    /// the access secret gives back its claims unless it has expired.
    pub fn verify_access_token(token: Option<&str>, auth_config: &AuthConfig) -> (r: Result<AccessClaims, ServiceError>)
        ensures
            verified_access(token, *auth_config, r),
            token matches Some(t) && hs256_verified_claims(t@, auth_config.access_token_secret@) is None
                ==> r == Err::<AccessClaims, ServiceError>(ServiceError::Auth(AuthError::InvalidToken)),
            token matches Some(t) ==> (forall|c: AccessClaims|
                #[trigger] spec_access_jwt(c, auth_config.access_token_secret@) == Some(t@) && c.exp >= 0
                ==> (r matches Ok(d) && d == c) || r == Err::<AccessClaims, ServiceError>(ServiceError::Auth(AuthError::ExpiredToken))),
    {
        match token {
            None => Err(ServiceError::Auth(AuthError::MissingToken)),
            Some(token) => match validate_jwt(token, auth_config.access_token_secret.as_str()) {
                Ok(claims) => Ok(claims),
                Err(e) => Err(ServiceError::Auth(AuthError::from(e))),
            },
        }
    }
}

} // verus!
