//! The authentication service: login by username, refresh and logout by
//! refresh token, with errors of its own.
//!
//! As in the controller, each flow is a state machine whose caller performs
//! the action of each step and hands its outcome back as the next event.

use vstd::prelude::*;

use crate::auth::controller::{rotation_step, LoginEvent, LoginState, RefreshEvent, RefreshState};
use crate::error::{InvalidLength, RepositoryError};
use crate::model::{AuthResponseVo, CreateRefreshTokenDto, LoginCredentialsEntity, RefreshTokenEntity, UserStatusError};
use crate::token::hash::{hash_refresh_token, refresh_token_hash};
use crate::time::Timestamp;
use crate::token::{is_uuid_v4, issue_tokens_at, issued_at_time, lifetimes_fit, new_uuid_v4, AuthConfig, TokenError};

verus! {

/// Why an operation of the authentication service failed.
#[derive(Debug, Clone)]
pub enum AuthServiceError {
    Repository(RepositoryError),
    UserNotFound,
    WrongPassword,
    InvalidUser(UserStatusError),
    InvalidRefreshToken,
    ExpiredRefreshToken,
    RevokedRefreshToken,
    InternalError,
}

/// The service error that stands for a token error: a failure to create a
/// token is an internal error.
pub open spec fn service_error_of_token_error(e: TokenError) -> AuthServiceError {
    match e {
        TokenError::InvalidToken => AuthServiceError::InvalidRefreshToken,
        TokenError::ExpiredToken => AuthServiceError::ExpiredRefreshToken,
        TokenError::TokenCreationFailed => AuthServiceError::InternalError,
    }
}

impl From<TokenError> for AuthServiceError {
    fn from(error: TokenError) -> (r: AuthServiceError)
        ensures
            r == service_error_of_token_error(error),
    {
        match error {
            TokenError::InvalidToken => AuthServiceError::InvalidRefreshToken,
            TokenError::ExpiredToken => AuthServiceError::ExpiredRefreshToken,
            TokenError::TokenCreationFailed => AuthServiceError::InternalError,
        }
    }
}

impl vstd::std_specs::convert::FromSpecImpl<TokenError> for AuthServiceError {
    open spec fn obeys_from_spec() -> bool {
        true
    }

    open spec fn from_spec(v: TokenError) -> AuthServiceError {
        service_error_of_token_error(v)
    }
}

impl From<InvalidLength> for AuthServiceError {
    fn from(error: InvalidLength) -> (r: AuthServiceError)
        ensures
            r == AuthServiceError::InternalError,
    {
        AuthServiceError::InternalError
    }
}

impl vstd::std_specs::convert::FromSpecImpl<InvalidLength> for AuthServiceError {
    open spec fn obeys_from_spec() -> bool {
        true
    }

    open spec fn from_spec(v: InvalidLength) -> AuthServiceError {
        AuthServiceError::InternalError
    }
}

pub struct AuthService;

/// Credentials of a login by username.
#[derive(Debug, Clone)]
pub struct LoginRequestDto {
    pub username: String,
    pub password: String,
}

// ---------------------------------------------------------------------------
// Login
// ---------------------------------------------------------------------------

/// What a login step of the service asks the caller to do.
#[derive(Debug)]
pub enum ServiceLoginAction {
    /// Load the login credentials of the (non-ghost) user with this username.
    LoadCredentials { username: String },
    /// Check `password` with `pepper` against `password_hash`, off the async executor.
    VerifyPassword { password: String, password_hash: String, pepper: String },
    /// Load the user with this id.
    LoadUserInfo { user_id: i64 },
    /// Store this refresh token.
    StoreRefreshToken { dto: CreateRefreshTokenDto },
    /// Answer the login; on success, record the login time of `update_last_login`
    /// without waiting for it.
    Finish { result: Result<AuthResponseVo, AuthServiceError>, update_last_login: Option<i64> },
}

/// A finished login that failed with `error`.
pub open spec fn service_login_failed(step: (LoginState, ServiceLoginAction), error: AuthServiceError) -> bool {
    step == (LoginState::Finished, ServiceLoginAction::Finish { result: Err(error), update_last_login: None })
}

/// The step after the password of `credentials` matched at `now`: a new
/// token family is issued at `now` for the user and its refresh token hashed,
/// when both lifetimes can be added to `now`; otherwise issuing fails.
pub open spec fn service_tokens_issued_step(
    credentials: LoginCredentialsEntity,
    config: AuthConfig,
    now: Timestamp,
    step: (LoginState, ServiceLoginAction),
) -> bool {
    if lifetimes_fit(config, now) {
        &&& step.0 matches LoginState::AwaitingUserInfo { user_id, tokens, token_hash }
        &&& user_id == credentials.id
        &&& issued_at_time(tokens, credentials.id, credentials.role, tokens.family_id, config, now)
        &&& is_uuid_v4(tokens.family_id)
        &&& token_hash@ == refresh_token_hash(tokens.refresh_token@, config.refresh_token_pepper@)
        &&& step.1 == (ServiceLoginAction::LoadUserInfo { user_id: credentials.id })
    } else {
        service_login_failed(step, AuthServiceError::InternalError)
    }
}

/// The step that a login of the service takes from `state` on `event`.
pub open spec fn service_login_transition(
    state: LoginState,
    event: LoginEvent,
    config: AuthConfig,
    step: (LoginState, ServiceLoginAction),
) -> bool {
    match (state, event) {
        (LoginState::AwaitingCredentials { password }, LoginEvent::CredentialsLoaded(loaded)) => match loaded {
            Err(e) => service_login_failed(step, AuthServiceError::Repository(e)),
            Ok(None) => service_login_failed(step, AuthServiceError::UserNotFound),
            Ok(Some(credentials)) => match credentials.status.spec_check() {
                Err(e) => service_login_failed(step, AuthServiceError::InvalidUser(e)),
                Ok(_) => step == (
                    LoginState::AwaitingPasswordCheck { credentials },
                    ServiceLoginAction::VerifyPassword {
                        password,
                        password_hash: credentials.password_hash,
                        pepper: config.password_pepper,
                    },
                ),
            },
        },
        (LoginState::AwaitingPasswordCheck { credentials }, LoginEvent::PasswordVerified { verified, now }) => match verified {
            Err(_) => service_login_failed(step, AuthServiceError::InternalError),
            Ok(false) => service_login_failed(step, AuthServiceError::WrongPassword),
            Ok(true) => service_tokens_issued_step(credentials, config, now, step),
        },
        (LoginState::AwaitingUserInfo { user_id, tokens, token_hash }, LoginEvent::UserInfoLoaded(loaded)) => match loaded {
            Err(e) => service_login_failed(step, AuthServiceError::Repository(e)),
            Ok(user_info) => step == (
                LoginState::AwaitingStore { user_id, tokens, user_info },
                ServiceLoginAction::StoreRefreshToken {
                    dto: CreateRefreshTokenDto {
                        user_id,
                        family_id: tokens.family_id,
                        token_hash,
                        expires_at: tokens.refresh_expires_at,
                    },
                },
            ),
        },
        (LoginState::AwaitingStore { user_id, tokens, user_info }, LoginEvent::RefreshTokenStored(stored)) => match stored {
            Err(e) => service_login_failed(step, AuthServiceError::Repository(e)),
            Ok(_) => step == (
                LoginState::Finished,
                ServiceLoginAction::Finish {
                    result: Ok(AuthResponseVo {
                        access_token: tokens.access_token,
                        refresh_token: tokens.refresh_token,
                        user_info,
                    }),
                    update_last_login: Some(user_id),
                },
            ),
        },
        _ => false,
    }
}

fn login_failure(error: AuthServiceError) -> (r: (LoginState, ServiceLoginAction))
    ensures
        service_login_failed(r, error),
{
    (LoginState::Finished, ServiceLoginAction::Finish { result: Err(error), update_last_login: None })
}

fn issue_login_tokens(credentials: LoginCredentialsEntity, config: &AuthConfig, now: Timestamp) -> (r: (LoginState, ServiceLoginAction))
    ensures
        service_tokens_issued_step(credentials, *config, now, r),
{
    let user_id = credentials.id;
    match issue_tokens_at(user_id, credentials.role, new_uuid_v4(), config, now) {
        Err(e) => login_failure(AuthServiceError::from(e)),
        Ok(tokens) => match hash_refresh_token(tokens.refresh_token.as_str(), config.refresh_token_pepper.as_str()) {
            Err(e) => login_failure(AuthServiceError::from(e)),
            Ok(token_hash) => (LoginState::AwaitingUserInfo { user_id, tokens, token_hash }, ServiceLoginAction::LoadUserInfo { user_id }),
        },
    }
}

impl AuthService {
    /// Starts a login: the credentials stored under the username are loaded first.
    pub fn login(request: LoginRequestDto) -> (r: (LoginState, ServiceLoginAction))
        ensures
            r == (
                LoginState::AwaitingCredentials { password: request.password },
                ServiceLoginAction::LoadCredentials { username: request.username },
            ),
    {
        (
            LoginState::AwaitingCredentials { password: request.password },
            ServiceLoginAction::LoadCredentials { username: request.username },
        )
    }

    /// Takes the next login step. Once the password matched, the step issues
    /// the tokens of a new family itself and hashes the refresh token.
    pub fn login_step(state: LoginState, event: LoginEvent, config: &AuthConfig) -> (r: (LoginState, ServiceLoginAction))
        requires
            state.accepts(event),
        ensures
            service_login_transition(state, event, *config, r),
    {
        match state {
            LoginState::AwaitingCredentials { password } => match event {
                LoginEvent::CredentialsLoaded(loaded) => match loaded {
                    Err(e) => login_failure(AuthServiceError::Repository(e)),
                    Ok(None) => login_failure(AuthServiceError::UserNotFound),
                    Ok(Some(credentials)) => match credentials.status.check_status() {
                        Err(e) => login_failure(AuthServiceError::InvalidUser(e)),
                        Ok(_) => {
                            let password_hash = credentials.password_hash.clone();
                            (
                                LoginState::AwaitingPasswordCheck { credentials },
                                ServiceLoginAction::VerifyPassword {
                                    password,
                                    password_hash,
                                    pepper: config.password_pepper.clone(),
                                },
                            )
                        },
                    },
                },
                // Ruled out by `accepts`.
                _ => login_failure(AuthServiceError::InternalError),
            },
            LoginState::AwaitingPasswordCheck { credentials } => match event {
                LoginEvent::PasswordVerified { verified, now } => match verified {
                    Err(_) => login_failure(AuthServiceError::InternalError),
                    Ok(false) => login_failure(AuthServiceError::WrongPassword),
                    Ok(true) => issue_login_tokens(credentials, config, now),
                },
                _ => login_failure(AuthServiceError::InternalError),
            },
            LoginState::AwaitingUserInfo { user_id, tokens, token_hash } => match event {
                LoginEvent::UserInfoLoaded(loaded) => match loaded {
                    Err(e) => login_failure(AuthServiceError::Repository(e)),
                    Ok(user_info) => {
                        let dto = CreateRefreshTokenDto {
                            user_id,
                            family_id: tokens.family_id,
                            token_hash,
                            expires_at: tokens.refresh_expires_at,
                        };
                        (LoginState::AwaitingStore { user_id, tokens, user_info }, ServiceLoginAction::StoreRefreshToken { dto })
                    },
                },
                _ => login_failure(AuthServiceError::InternalError),
            },
            LoginState::AwaitingStore { user_id, tokens, user_info } => match event {
                LoginEvent::RefreshTokenStored(stored) => match stored {
                    Err(e) => login_failure(AuthServiceError::Repository(e)),
                    Ok(_) => (
                        LoginState::Finished,
                        ServiceLoginAction::Finish {
                            result: Ok(AuthResponseVo {
                                access_token: tokens.access_token,
                                refresh_token: tokens.refresh_token,
                                user_info,
                            }),
                            update_last_login: Some(user_id),
                        },
                    ),
                },
                _ => login_failure(AuthServiceError::InternalError),
            },
            LoginState::Finished => login_failure(AuthServiceError::InternalError),
        }
    }
}

// ---------------------------------------------------------------------------
// Refresh
// ---------------------------------------------------------------------------

/// What a refresh step of the service asks the caller to do. The states and
/// events are those of the controller's refresh.
#[derive(Debug)]
pub enum ServiceRefreshAction {
    /// Load the stored token with this hash.
    LoadRecord { token_hash: Vec<u8> },
    /// Revoke every token of this family.
    RevokeFamily { family_id: u128 },
    /// Load the user with this id.
    LoadUserInfo { user_id: i64 },
    /// In one transaction: revoke the token `old_token_id`, store `dto`.
    Rotate { dto: CreateRefreshTokenDto, old_token_id: i64 },
    /// Answer the refresh.
    Finish(Result<AuthResponseVo, AuthServiceError>),
}

/// A finished refresh that failed with `error`.
pub open spec fn service_refresh_failed(step: (RefreshState, ServiceRefreshAction), error: AuthServiceError) -> bool {
    step == (RefreshState::Finished, ServiceRefreshAction::Finish(Err(error)))
}

/// The step that a refresh of the service takes from `state` on `event`.
pub open spec fn service_refresh_transition(
    state: RefreshState,
    event: RefreshEvent,
    config: AuthConfig,
    step: (RefreshState, ServiceRefreshAction),
) -> bool {
    match (state, event) {
        (RefreshState::AwaitingRecord, RefreshEvent::RecordLoaded { record, now }) => match record {
            Err(e) => service_refresh_failed(step, AuthServiceError::Repository(e)),
            Ok(None) => service_refresh_failed(step, AuthServiceError::InvalidRefreshToken),
            Ok(Some(record)) => if record.is_revoked {
                step == (
                    RefreshState::AwaitingFamilyRevocation,
                    ServiceRefreshAction::RevokeFamily { family_id: record.family_id },
                )
            } else if record.expires_at.spec_before(now) {
                service_refresh_failed(step, AuthServiceError::ExpiredRefreshToken)
            } else {
                step == (
                    RefreshState::AwaitingUserInfo { record },
                    ServiceRefreshAction::LoadUserInfo { user_id: record.user_id },
                )
            },
        },
        (RefreshState::AwaitingFamilyRevocation, RefreshEvent::FamilyRevoked(revoked)) => match revoked {
            Err(e) => service_refresh_failed(step, AuthServiceError::Repository(e)),
            Ok(_) => service_refresh_failed(step, AuthServiceError::RevokedRefreshToken),
        },
        (RefreshState::AwaitingUserInfo { record }, RefreshEvent::UserInfoLoaded { loaded, now }) => match loaded {
            Err(e) => service_refresh_failed(step, AuthServiceError::Repository(e)),
            Ok(user_info) => match step.1 {
                ServiceRefreshAction::Rotate { dto, old_token_id } => rotation_step(record, user_info, config, now, step.0, Some((dto, old_token_id))),
                _ => rotation_step(record, user_info, config, now, step.0, None)
                    && service_refresh_failed(step, AuthServiceError::InternalError),
            },
        },
        (RefreshState::AwaitingRotation { user_info, tokens }, RefreshEvent::Rotated(rotated)) => match rotated {
            Err(e) => service_refresh_failed(step, AuthServiceError::Repository(e)),
            Ok(_) => step == (
                RefreshState::Finished,
                ServiceRefreshAction::Finish(Ok(AuthResponseVo {
                    access_token: tokens.access_token,
                    refresh_token: tokens.refresh_token,
                    user_info,
                })),
            ),
        },
        _ => false,
    }
}

fn refresh_failure(error: AuthServiceError) -> (r: (RefreshState, ServiceRefreshAction))
    ensures
        service_refresh_failed(r, error),
{
    (RefreshState::Finished, ServiceRefreshAction::Finish(Err(error)))
}

impl AuthService {
    /// Starts a refresh: the presented token is hashed so that its stored
    /// record can be found.
    pub fn refresh(input_token: String, config: &AuthConfig) -> (r: (RefreshState, ServiceRefreshAction))
        ensures
            r.0 == RefreshState::AwaitingRecord,
            r.1 matches ServiceRefreshAction::LoadRecord { token_hash }
                && token_hash@ == refresh_token_hash(input_token@, config.refresh_token_pepper@),
    {
        match hash_refresh_token(input_token.as_str(), config.refresh_token_pepper.as_str()) {
            Ok(token_hash) => (RefreshState::AwaitingRecord, ServiceRefreshAction::LoadRecord { token_hash }),
            Err(e) => refresh_failure(AuthServiceError::from(e)),
        }
    }

    /// Takes the next refresh step. Once the user of a live token is loaded,
    /// the step issues the new pair in the token's family itself.
    pub fn refresh_step(state: RefreshState, event: RefreshEvent, config: &AuthConfig) -> (r: (RefreshState, ServiceRefreshAction))
        requires
            state.accepts(event),
        ensures
            service_refresh_transition(state, event, *config, r),
    {
        match state {
            RefreshState::AwaitingRecord => match event {
                RefreshEvent::RecordLoaded { record, now } => match record {
                    Err(e) => refresh_failure(AuthServiceError::Repository(e)),
                    Ok(None) => refresh_failure(AuthServiceError::InvalidRefreshToken),
                    Ok(Some(record)) => {
                        if record.is_revoked {
                            // A revoked token presented again means it leaked:
                            // the whole family goes.
                            let family_id = record.family_id;
                            (RefreshState::AwaitingFamilyRevocation, ServiceRefreshAction::RevokeFamily { family_id })
                        } else if record.expires_at.is_before(&now) {
                            refresh_failure(AuthServiceError::ExpiredRefreshToken)
                        } else {
                            let user_id = record.user_id;
                            (RefreshState::AwaitingUserInfo { record }, ServiceRefreshAction::LoadUserInfo { user_id })
                        }
                    },
                },
                // Ruled out by `accepts`.
                _ => refresh_failure(AuthServiceError::InternalError),
            },
            RefreshState::AwaitingFamilyRevocation => match event {
                RefreshEvent::FamilyRevoked(revoked) => match revoked {
                    Err(e) => refresh_failure(AuthServiceError::Repository(e)),
                    Ok(_) => refresh_failure(AuthServiceError::RevokedRefreshToken),
                },
                _ => refresh_failure(AuthServiceError::InternalError),
            },
            RefreshState::AwaitingUserInfo { record } => match event {
                RefreshEvent::UserInfoLoaded { loaded, now } => match loaded {
                    Err(e) => refresh_failure(AuthServiceError::Repository(e)),
                    Ok(user_info) => match issue_tokens_at(
                        user_info.id,
                        user_info.role,
                        record.family_id,
                        config,
                        now,
                    ) {
                        Err(e) => refresh_failure(AuthServiceError::from(e)),
                        Ok(tokens) => match hash_refresh_token(
                            tokens.refresh_token.as_str(),
                            config.refresh_token_pepper.as_str(),
                        ) {
                            Err(e) => refresh_failure(AuthServiceError::from(e)),
                            Ok(token_hash) => {
                                let dto = CreateRefreshTokenDto {
                                    user_id: record.user_id,
                                    family_id: record.family_id,
                                    token_hash,
                                    expires_at: tokens.refresh_expires_at,
                                };
                                let old_token_id = record.id;
                                (
                                    RefreshState::AwaitingRotation { user_info, tokens },
                                    ServiceRefreshAction::Rotate { dto, old_token_id },
                                )
                            },
                        },
                    },
                },
                _ => refresh_failure(AuthServiceError::InternalError),
            },
            RefreshState::AwaitingRotation { user_info, tokens } => match event {
                RefreshEvent::Rotated(rotated) => match rotated {
                    Err(e) => refresh_failure(AuthServiceError::Repository(e)),
                    Ok(_) => (
                        RefreshState::Finished,
                        ServiceRefreshAction::Finish(Ok(AuthResponseVo {
                            access_token: tokens.access_token,
                            refresh_token: tokens.refresh_token,
                            user_info,
                        })),
                    ),
                },
                _ => refresh_failure(AuthServiceError::InternalError),
            },
            RefreshState::Finished => refresh_failure(AuthServiceError::InternalError),
        }
    }
}

// ---------------------------------------------------------------------------
// Logout
// ---------------------------------------------------------------------------

/// Where a logout of the service stands.
#[derive(Debug, Clone, Copy, PartialEq, Eq, Structural)]
pub enum LogoutState {
    /// The stored token under the hash of the presented one is being looked up.
    AwaitingRecord,
    /// The family of the stored token is being revoked.
    AwaitingRevocation,
    /// The logout has been answered.
    Finished,
}

/// Outcome of the action that a logout step asked for.
#[derive(Debug)]
pub enum LogoutEvent {
    RecordLoaded(Result<Option<RefreshTokenEntity>, RepositoryError>),
    FamilyRevoked(Result<(), RepositoryError>),
}

/// What a logout step asks the caller to do.
#[derive(Debug)]
pub enum LogoutAction {
    LoadRecord { token_hash: Vec<u8> },
    RevokeFamily { family_id: u128 },
    Finish(Result<(), AuthServiceError>),
}

impl LogoutState {
    /// The event is the outcome of the action that led to this state.
    pub open spec fn accepts(&self, event: LogoutEvent) -> bool {
        match (*self, event) {
            (LogoutState::AwaitingRecord, LogoutEvent::RecordLoaded(_)) => true,
            (LogoutState::AwaitingRevocation, LogoutEvent::FamilyRevoked(_)) => true,
            _ => false,
        }
    }

    pub fn accepts_event(&self, event: &LogoutEvent) -> (r: bool)
        ensures
            r == self.accepts(*event),
    {
        match (self, event) {
            (LogoutState::AwaitingRecord, LogoutEvent::RecordLoaded(_)) => true,
            (LogoutState::AwaitingRevocation, LogoutEvent::FamilyRevoked(_)) => true,
            _ => false,
        }
    }
}

/// The step that a logout takes from `state` on `event`. A token that is not
/// stored logs out nothing and still succeeds.
pub open spec fn logout_transition(state: LogoutState, event: LogoutEvent, step: (LogoutState, LogoutAction)) -> bool {
    match (state, event) {
        (LogoutState::AwaitingRecord, LogoutEvent::RecordLoaded(loaded)) => match loaded {
            Err(e) => step == (LogoutState::Finished, LogoutAction::Finish(Err(AuthServiceError::Repository(e)))),
            Ok(None) => step == (LogoutState::Finished, LogoutAction::Finish(Ok(()))),
            Ok(Some(record)) => step == (
                LogoutState::AwaitingRevocation,
                LogoutAction::RevokeFamily { family_id: record.family_id },
            ),
        },
        (LogoutState::AwaitingRevocation, LogoutEvent::FamilyRevoked(revoked)) => match revoked {
            Err(e) => step == (LogoutState::Finished, LogoutAction::Finish(Err(AuthServiceError::Repository(e)))),
            Ok(_) => step == (LogoutState::Finished, LogoutAction::Finish(Ok(()))),
        },
        _ => false,
    }
}

impl AuthService {
    /// Starts a logout: the stored token under the keyed hash of the
    /// presented one is looked up, to find its family.
    pub fn logout(refresh_token: String, config: &AuthConfig) -> (r: (LogoutState, LogoutAction))
        ensures
            r.0 == LogoutState::AwaitingRecord,
            r.1 matches LogoutAction::LoadRecord { token_hash }
                && token_hash@ == refresh_token_hash(refresh_token@, config.refresh_token_pepper@),
    {
        match hash_refresh_token(refresh_token.as_str(), config.refresh_token_pepper.as_str()) {
            Ok(token_hash) => (LogoutState::AwaitingRecord, LogoutAction::LoadRecord { token_hash }),
            Err(e) => (LogoutState::Finished, LogoutAction::Finish(Err(AuthServiceError::from(e)))),
        }
    }

    /// Takes the next logout step.
    pub fn logout_step(state: LogoutState, event: LogoutEvent) -> (r: (LogoutState, LogoutAction))
        requires
            state.accepts(event),
        ensures
            logout_transition(state, event, r),
    {
        match (state, event) {
            (LogoutState::AwaitingRecord, LogoutEvent::RecordLoaded(loaded)) => match loaded {
                Err(e) => (LogoutState::Finished, LogoutAction::Finish(Err(AuthServiceError::Repository(e)))),
                // Already gone: logging out again is harmless.
                Ok(None) => (LogoutState::Finished, LogoutAction::Finish(Ok(()))),
                Ok(Some(record)) => (LogoutState::AwaitingRevocation, LogoutAction::RevokeFamily { family_id: record.family_id }),
            },
            (LogoutState::AwaitingRevocation, LogoutEvent::FamilyRevoked(revoked)) => match revoked {
                Err(e) => (LogoutState::Finished, LogoutAction::Finish(Err(AuthServiceError::Repository(e)))),
                Ok(_) => (LogoutState::Finished, LogoutAction::Finish(Ok(()))),
            },
            _ => (LogoutState::Finished, LogoutAction::Finish(Err(AuthServiceError::InternalError))),
        }
    }
}

} // verus!
