//! The login service: checks a username and password and answers with the
//! session token and what the client learns of the user.
//!
//! A state machine, as the other flows: the caller performs the action of
//! each step and hands its outcome back as the next event.

use vstd::prelude::*;
use vstd::string::*;

use crate::auth::service::LoginRequestDto;
use crate::error::RepositoryError;
use crate::model::{LoggedUserInfoVo, LoginCredentialsEntity, UserStatus, UserStatusError};

verus! {

/// Why a login of the login service failed.
#[derive(Debug, Clone)]
pub enum LoginServiceError {
    Repository(RepositoryError),
    NotFoundCredentials,
    InvalidCredentials,
    InvalidUser(UserStatusError),
}

/// Answer to a successful login.
#[derive(Debug, Clone)]
pub struct LoginVo {
    pub token: String,
    pub user_info: LoggedUserInfoVo,
}

pub struct LoginService;

/// The session token that a login hands out: a fixed value for now.
pub open spec fn session_token() -> Seq<char> {
    "my_jwt"@
}

/// Where a login stands.
#[derive(Debug)]
pub enum LoginServiceState {
    /// The credentials stored under the username are being loaded.
    AwaitingCredentials { password: String },
    /// The password of an active user is being checked.
    AwaitingPasswordCheck { credentials: LoginCredentialsEntity },
    /// The user whose password matched is being loaded.
    AwaitingUserInfo,
    /// The login has been answered.
    Finished,
}

/// Outcome of the action that a login step asked for.
#[derive(Debug)]
pub enum LoginServiceEvent {
    CredentialsLoaded(Result<Option<LoginCredentialsEntity>, RepositoryError>),
    PasswordVerified(bool),
    UserInfoLoaded(Result<LoggedUserInfoVo, RepositoryError>),
}

/// What a login step asks the caller to do.
#[derive(Debug)]
pub enum LoginServiceAction {
    /// Load the login credentials of the (non-ghost) user with this username.
    LoadCredentials { username: String },
    /// Check `password` against `password_hash`.
    VerifyPassword { password: String, password_hash: String },
    /// Record the login time of the user without waiting for it, then load the user.
    RecordLoginAndLoadUserInfo { user_id: i64 },
    /// Answer the login.
    Finish(Result<LoginVo, LoginServiceError>),
}

impl LoginServiceState {
    /// The event is the outcome of the action that led to this state.
    pub open spec fn accepts(&self, event: LoginServiceEvent) -> bool {
        match (*self, event) {
            (LoginServiceState::AwaitingCredentials { .. }, LoginServiceEvent::CredentialsLoaded(_)) => true,
            (LoginServiceState::AwaitingPasswordCheck { .. }, LoginServiceEvent::PasswordVerified(_)) => true,
            (LoginServiceState::AwaitingUserInfo, LoginServiceEvent::UserInfoLoaded(_)) => true,
            _ => false,
        }
    }

    /// A password is only ever checked for an active user.
    pub open spec fn wf(&self) -> bool {
        match *self {
            LoginServiceState::AwaitingPasswordCheck { credentials } => credentials.status == UserStatus::Active,
            _ => true,
        }
    }
}

/// A finished login that failed with `error`.
pub open spec fn login_service_failed(step: (LoginServiceState, LoginServiceAction), error: LoginServiceError) -> bool {
    step == (LoginServiceState::Finished, LoginServiceAction::Finish(Err(error)))
}

/// The step that a login takes from `state` on `event`.
pub open spec fn login_service_transition(
    state: LoginServiceState,
    event: LoginServiceEvent,
    step: (LoginServiceState, LoginServiceAction),
) -> bool {
    match (state, event) {
        (LoginServiceState::AwaitingCredentials { password }, LoginServiceEvent::CredentialsLoaded(loaded)) => match loaded {
            Err(e) => login_service_failed(step, LoginServiceError::Repository(e)),
            Ok(None) => login_service_failed(step, LoginServiceError::NotFoundCredentials),
            Ok(Some(credentials)) => match credentials.status.spec_check() {
                Err(e) => login_service_failed(step, LoginServiceError::InvalidUser(e)),
                Ok(_) => step == (
                    LoginServiceState::AwaitingPasswordCheck { credentials },
                    LoginServiceAction::VerifyPassword { password, password_hash: credentials.password_hash },
                ),
            },
        },
        (LoginServiceState::AwaitingPasswordCheck { credentials }, LoginServiceEvent::PasswordVerified(valid)) => if valid {
            step == (
                LoginServiceState::AwaitingUserInfo,
                LoginServiceAction::RecordLoginAndLoadUserInfo { user_id: credentials.id },
            )
        } else {
            login_service_failed(step, LoginServiceError::InvalidCredentials)
        },
        (LoginServiceState::AwaitingUserInfo, LoginServiceEvent::UserInfoLoaded(loaded)) => match loaded {
            Err(e) => login_service_failed(step, LoginServiceError::Repository(e)),
            Ok(user_info) => step.0 == LoginServiceState::Finished
                && (step.1 matches LoginServiceAction::Finish(Ok(vo)) && vo.token@ == session_token() && vo.user_info == user_info),
        },
        _ => false,
    }
}

fn failure(error: LoginServiceError) -> (r: (LoginServiceState, LoginServiceAction))
    ensures
        login_service_failed(r, error),
{
    (LoginServiceState::Finished, LoginServiceAction::Finish(Err(error)))
}

impl LoginService {
    /// Starts a login: the credentials stored under the username are loaded first.
    pub fn login(request: LoginRequestDto) -> (r: (LoginServiceState, LoginServiceAction))
        ensures
            r == (
                LoginServiceState::AwaitingCredentials { password: request.password },
                LoginServiceAction::LoadCredentials { username: request.username },
            ),
    {
        (
            LoginServiceState::AwaitingCredentials { password: request.password },
            LoginServiceAction::LoadCredentials { username: request.username },
        )
    }

    /// Takes the next login step.
    pub fn login_step(state: LoginServiceState, event: LoginServiceEvent) -> (r: (LoginServiceState, LoginServiceAction))
        requires
            state.accepts(event),
        ensures
            login_service_transition(state, event, r),
    {
        match state {
            LoginServiceState::AwaitingCredentials { password } => match event {
                LoginServiceEvent::CredentialsLoaded(loaded) => match loaded {
                    Err(e) => failure(LoginServiceError::Repository(e)),
                    Ok(None) => failure(LoginServiceError::NotFoundCredentials),
                    Ok(Some(credentials)) => match credentials.status.check_status() {
                        Err(e) => failure(LoginServiceError::InvalidUser(e)),
                        Ok(_) => {
                            let password_hash = credentials.password_hash.clone();
                            (
                                LoginServiceState::AwaitingPasswordCheck { credentials },
                                LoginServiceAction::VerifyPassword { password, password_hash },
                            )
                        },
                    },
                },
                _ => failure(LoginServiceError::InvalidCredentials),
            },
            LoginServiceState::AwaitingPasswordCheck { credentials } => match event {
                LoginServiceEvent::PasswordVerified(valid) => {
                    if valid {
                        (
                            LoginServiceState::AwaitingUserInfo,
                            LoginServiceAction::RecordLoginAndLoadUserInfo { user_id: credentials.id },
                        )
                    } else {
                        failure(LoginServiceError::InvalidCredentials)
                    }
                },
                _ => failure(LoginServiceError::InvalidCredentials),
            },
            LoginServiceState::AwaitingUserInfo => match event {
                LoginServiceEvent::UserInfoLoaded(loaded) => match loaded {
                    Err(e) => failure(LoginServiceError::Repository(e)),
                    Ok(user_info) => {
                        let token = String::from_str("my_jwt");
                        (LoginServiceState::Finished, LoginServiceAction::Finish(Ok(LoginVo { token, user_info })))
                    },
                },
                _ => failure(LoginServiceError::InvalidCredentials),
            },
            LoginServiceState::Finished => failure(LoginServiceError::InvalidCredentials),
        }
    }
}

} // verus!
