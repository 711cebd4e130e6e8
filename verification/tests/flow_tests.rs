use socky_be::auth::controller::{
    AuthController, JoinFailure, LoginAction, LoginEvent, LoginRequestDto, LoginState, RefreshAction, RefreshEvent,
    RefreshState,
};
use socky_be::token::hash::hash_refresh_token;
use socky_be::token::validate_jwt;
use socky_be::auth::login_service::{LoginService, LoginServiceAction, LoginServiceError, LoginServiceEvent, LoginServiceState};
use socky_be::auth::service::{
    AuthService, AuthServiceError, LoginRequestDto as UsernameLogin, LogoutAction, LogoutEvent, LogoutState,
    ServiceLoginAction, ServiceRefreshAction,
};
use socky_be::error::{AuthError, InvalidLength, RepositoryError, ServiceError};
use socky_be::model::{
    LoggedUserInfoVo, LoginCredentialsEntity, RefreshTokenEntity, UserRole, UserStatus, UserStatusError,
};
use socky_be::time::Timestamp;
use socky_be::token::{AuthConfig, TokenError};

fn clock() -> Timestamp {
    socky_be::time::now()
}

fn config() -> AuthConfig {
    AuthConfig {
        password_pepper: "pepper".to_string(),
        access_token_secret: "access-secret".to_string(),
        access_token_expiration_seconds: 900,
        refresh_token_secret: "refresh-secret".to_string(),
        refresh_token_expiration_seconds: 86400,
        refresh_token_pepper: "refresh-pepper".to_string(),
    }
}

fn credentials(status: UserStatus) -> LoginCredentialsEntity {
    LoginCredentialsEntity { id: 7, password_hash: "hash".to_string(), role: UserRole::Support, status }
}

fn user_info() -> LoggedUserInfoVo {
    LoggedUserInfoVo { id: 7, username: "ann".to_string(), email: "a@b.c".to_string(), role: UserRole::Support }
}

fn record(revoked: bool, expires_secs: i64) -> RefreshTokenEntity {
    RefreshTokenEntity {
        id: 31,
        user_id: 7,
        family_id: 555,
        token_hash: vec![1, 2, 3],
        is_revoked: revoked,
        expires_at: Timestamp { secs: expires_secs, nanos: 0 },
    }
}

fn login_request() -> LoginRequestDto {
    LoginRequestDto { email: "a@b.c".to_string(), password: "pw".to_string() }
}

fn login_error(action: LoginAction) -> ServiceError {
    match action {
        LoginAction::Finish { result: Err(e), update_last_login: None } => e,
        other => panic!("not a failed login: {:?}", other),
    }
}

fn hash(token: &str) -> Vec<u8> {
    hash_refresh_token(token, "refresh-pepper").expect("hashed")
}

#[test]
fn login_runs_to_a_stored_token() {
    let cfg = config();
    let (state, action) = AuthController::login(login_request());
    assert!(matches!(action, LoginAction::LoadCredentials { ref email } if email == "a@b.c"));
    let (state, action) =
        AuthController::login_step(state, LoginEvent::CredentialsLoaded(Ok(Some(credentials(UserStatus::Active)))), &cfg);
    match &action {
        LoginAction::VerifyPassword { password, password_hash, pepper } => {
            assert_eq!(password, "pw");
            assert_eq!(password_hash, "hash");
            assert_eq!(pepper, "pepper");
        },
        other => panic!("unexpected {:?}", other),
    }
    let (state, action) = AuthController::login_step(state, LoginEvent::PasswordVerified { verified: Ok(true), now: clock() }, &cfg);
    assert!(matches!(action, LoginAction::LoadUserInfo { user_id: 7 }));
    let (state, action) = AuthController::login_step(state, LoginEvent::UserInfoLoaded(Ok(user_info())), &cfg);
    let dto = match action {
        LoginAction::StoreRefreshToken { dto } => dto,
        other => panic!("unexpected {:?}", other),
    };
    assert_eq!(dto.user_id, 7);
    let (state, action) = AuthController::login_step(state, LoginEvent::RefreshTokenStored(Ok(1)), &cfg);
    assert!(matches!(state, LoginState::Finished));
    match action {
        LoginAction::Finish { result: Ok(vo), update_last_login: Some(7) } => {
            assert_eq!(vo.user_info.email, "a@b.c");
            // The stored row is the keyed hash of the token handed out.
            assert_eq!(dto.token_hash, hash(&vo.refresh_token));
            assert_eq!(dto.token_hash.len(), 64);
            let claims = validate_jwt(&vo.access_token, &cfg.access_token_secret).expect("valid access token");
            assert_eq!(claims.sub, 7);
            assert_eq!(claims.role, UserRole::Support);
            assert_eq!(dto.expires_at.secs - claims.iat, 86400);
        },
        other => panic!("unexpected {:?}", other),
    }
}

#[test]
fn login_refuses_unknown_email() {
    let cfg = config();
    let (state, _) = AuthController::login(login_request());
    let (_, action) = AuthController::login_step(state, LoginEvent::CredentialsLoaded(Ok(None)), &cfg);
    assert!(matches!(login_error(action), ServiceError::Auth(AuthError::InvalidLoginCredentials)));
}

#[test]
fn login_refuses_inactive_accounts() {
    let cfg = config();
    for (status, expected) in [
        (UserStatus::Disabled, UserStatusError::Disabled),
        (UserStatus::Pending, UserStatusError::Pending),
        (UserStatus::Locked, UserStatusError::Locked),
    ] {
        let (state, _) = AuthController::login(login_request());
        let (_, action) = AuthController::login_step(state, LoginEvent::CredentialsLoaded(Ok(Some(credentials(status)))), &cfg);
        assert!(matches!(login_error(action), ServiceError::UserStatus(e) if e == expected));
    }
}

#[test]
fn login_refuses_wrong_password_and_reports_join_failure() {
    let cfg = config();
    let (state, _) = AuthController::login(login_request());
    let (state, _) = AuthController::login_step(state, LoginEvent::CredentialsLoaded(Ok(Some(credentials(UserStatus::Active)))), &cfg);
    let (_, action) = AuthController::login_step(state, LoginEvent::PasswordVerified { verified: Ok(false), now: clock() }, &cfg);
    assert!(matches!(login_error(action), ServiceError::Auth(AuthError::InvalidLoginCredentials)));

    let (state, _) = AuthController::login(login_request());
    let (state, _) = AuthController::login_step(state, LoginEvent::CredentialsLoaded(Ok(Some(credentials(UserStatus::Active)))), &cfg);
    let (_, action) = AuthController::login_step(state, LoginEvent::PasswordVerified { verified: Err(JoinFailure), now: clock() }, &cfg);
    match login_error(action) {
        ServiceError::Internal(m) => assert_eq!(m, "Password verification blocking thread failed to join"),
        other => panic!("unexpected {:?}", other),
    }
}

#[test]
fn login_maps_step_failures() {
    let cfg = config();
    let (state, _) = AuthController::login(login_request());
    let (_, action) = AuthController::login_step(
        state,
        LoginEvent::CredentialsLoaded(Err(RepositoryError::DatabaseQueryFailed("down".to_string()))),
        &cfg,
    );
    assert!(matches!(login_error(action), ServiceError::Repository(RepositoryError::DatabaseQueryFailed(_))));

    // A lifetime that cannot be added to any date: no pair is issued.
    let mut bad = config();
    bad.access_token_expiration_seconds = i64::MAX;
    let (state, _) = AuthController::login(login_request());
    let (state, _) = AuthController::login_step(state, LoginEvent::CredentialsLoaded(Ok(Some(credentials(UserStatus::Active)))), &bad);
    let (_, action) = AuthController::login_step(state, LoginEvent::PasswordVerified { verified: Ok(true), now: clock() }, &bad);
    assert!(matches!(login_error(action), ServiceError::Auth(AuthError::TokenCreationFailed)));
}

fn refresh_to_record(cfg: &AuthConfig) -> RefreshState {
    let (state, action) = AuthController::refresh(Some("presented".to_string()), cfg);
    assert!(matches!(action, RefreshAction::LoadRecord { ref token_hash } if *token_hash == hash("presented")));
    state
}

#[test]
fn refresh_refuses_a_missing_token() {
    let cfg = config();
    let (state, action) = AuthController::refresh(None, &cfg);
    assert!(matches!(state, RefreshState::Finished));
    assert!(matches!(action, RefreshAction::Finish(Err(ServiceError::Auth(AuthError::MissingToken)))));
}

#[test]
fn refresh_of_an_unknown_token_is_invalid() {
    let cfg = config();
    let state = refresh_to_record(&cfg);
    let now = Timestamp { secs: 1000, nanos: 0 };
    let (_, action) = AuthController::refresh_step(state, RefreshEvent::RecordLoaded { record: Ok(None), now }, &cfg);
    assert!(matches!(action, RefreshAction::Finish(Err(ServiceError::Auth(AuthError::InvalidToken)))));
}

#[test]
fn reused_refresh_token_revokes_its_family() {
    let cfg = config();
    let state = refresh_to_record(&cfg);
    let now = Timestamp { secs: 1000, nanos: 0 };
    let (state, action) =
        AuthController::refresh_step(state, RefreshEvent::RecordLoaded { record: Ok(Some(record(true, 5000))), now }, &cfg);
    assert!(matches!(action, RefreshAction::RevokeFamily { family_id: 555 }));
    let (_, action) = AuthController::refresh_step(state, RefreshEvent::FamilyRevoked(Ok(())), &cfg);
    assert!(matches!(action, RefreshAction::Finish(Err(ServiceError::Auth(AuthError::RevokedToken)))));
}

#[test]
fn expired_refresh_token_is_refused() {
    let cfg = config();
    let state = refresh_to_record(&cfg);
    let now = Timestamp { secs: 1000, nanos: 1 };
    let (_, action) =
        AuthController::refresh_step(state, RefreshEvent::RecordLoaded { record: Ok(Some(record(false, 1000))), now }, &cfg);
    assert!(matches!(action, RefreshAction::Finish(Err(ServiceError::Auth(AuthError::ExpiredToken)))));
}

#[test]
fn refresh_rotates_within_the_family() {
    let cfg = config();
    let state = refresh_to_record(&cfg);
    let now = Timestamp { secs: 1000, nanos: 0 };
    let (state, action) =
        AuthController::refresh_step(state, RefreshEvent::RecordLoaded { record: Ok(Some(record(false, 1000))), now }, &cfg);
    assert!(matches!(action, RefreshAction::LoadUserInfo { user_id: 7 }));
    let (state, action) = AuthController::refresh_step(state, RefreshEvent::UserInfoLoaded { loaded: Ok(user_info()), now: clock() }, &cfg);
    let (dto, old_token_id) = match action {
        RefreshAction::Rotate { dto, old_token_id } => (dto, old_token_id),
        other => panic!("unexpected {:?}", other),
    };
    assert_eq!(old_token_id, 31);
    assert_eq!(dto.family_id, 555);
    assert_eq!(dto.user_id, 7);
    let (state, action) = AuthController::refresh_step(state, RefreshEvent::Rotated(Ok(32)), &cfg);
    assert!(matches!(state, RefreshState::Finished));
    match action {
        RefreshAction::Finish(Ok(vo)) => assert_eq!(dto.token_hash, hash(&vo.refresh_token)),
        other => panic!("unexpected {:?}", other),
    }
}

#[test]
fn logout_revokes_the_session_family() {
    assert_eq!(AuthController::logout(42).family_id, 42);
    assert!(AuthController::logout_finished(Ok(())).is_ok());
    assert!(matches!(
        AuthController::logout_finished(Err(RepositoryError::NotFound { entity: "refresh_tokens", id: 1 })),
        Err(ServiceError::Repository(RepositoryError::NotFound { id: 1, .. }))
    ));
}

#[test]
fn service_login_errors_are_its_own() {
    let cfg = config();
    let request = || UsernameLogin { username: "ann".to_string(), password: "pw".to_string() };
    let (state, action) = AuthService::login(request());
    assert!(matches!(action, ServiceLoginAction::LoadCredentials { ref username } if username == "ann"));
    let (_, action) = AuthService::login_step(state, LoginEvent::CredentialsLoaded(Ok(None)), &cfg);
    assert!(matches!(action, ServiceLoginAction::Finish { result: Err(AuthServiceError::UserNotFound), .. }));

    let (state, _) = AuthService::login(request());
    let (_, action) =
        AuthService::login_step(state, LoginEvent::CredentialsLoaded(Ok(Some(credentials(UserStatus::Locked)))), &cfg);
    assert!(matches!(
        action,
        ServiceLoginAction::Finish { result: Err(AuthServiceError::InvalidUser(UserStatusError::Locked)), .. }
    ));

    let (state, _) = AuthService::login(request());
    let (state, _) =
        AuthService::login_step(state, LoginEvent::CredentialsLoaded(Ok(Some(credentials(UserStatus::Active)))), &cfg);
    let (_, action) = AuthService::login_step(state, LoginEvent::PasswordVerified { verified: Ok(false), now: clock() }, &cfg);
    assert!(matches!(action, ServiceLoginAction::Finish { result: Err(AuthServiceError::WrongPassword), .. }));

    let mut bad = config();
    bad.refresh_token_expiration_seconds = i64::MIN;
    let (state, _) = AuthService::login(request());
    let (state, _) =
        AuthService::login_step(state, LoginEvent::CredentialsLoaded(Ok(Some(credentials(UserStatus::Active)))), &bad);
    let (_, action) = AuthService::login_step(state, LoginEvent::PasswordVerified { verified: Ok(true), now: clock() }, &bad);
    assert!(matches!(action, ServiceLoginAction::Finish { result: Err(AuthServiceError::InternalError), .. }));
}

#[test]
fn service_login_succeeds_after_storing() {
    let cfg = config();
    let (state, _) = AuthService::login(UsernameLogin { username: "ann".to_string(), password: "pw".to_string() });
    let (state, _) =
        AuthService::login_step(state, LoginEvent::CredentialsLoaded(Ok(Some(credentials(UserStatus::Active)))), &cfg);
    let (state, action) = AuthService::login_step(state, LoginEvent::PasswordVerified { verified: Ok(true), now: clock() }, &cfg);
    assert!(matches!(action, ServiceLoginAction::LoadUserInfo { user_id: 7 }));
    let (state, action) = AuthService::login_step(state, LoginEvent::UserInfoLoaded(Ok(user_info())), &cfg);
    assert!(matches!(action, ServiceLoginAction::StoreRefreshToken { ref dto } if dto.user_id == 7));
    let (_, action) = AuthService::login_step(state, LoginEvent::RefreshTokenStored(Ok(9)), &cfg);
    assert!(matches!(action, ServiceLoginAction::Finish { result: Ok(_), update_last_login: Some(7) }));
}

#[test]
fn service_refresh_rotates_within_the_family() {
    let cfg = config();
    let (state, action) = AuthService::refresh("presented".to_string(), &cfg);
    assert!(matches!(action, ServiceRefreshAction::LoadRecord { ref token_hash } if *token_hash == hash("presented")));
    let now = Timestamp { secs: 10, nanos: 0 };
    let (state, action) =
        AuthService::refresh_step(state, RefreshEvent::RecordLoaded { record: Ok(Some(record(false, 20))), now }, &cfg);
    assert!(matches!(action, ServiceRefreshAction::LoadUserInfo { user_id: 7 }));
    let (state, action) = AuthService::refresh_step(state, RefreshEvent::UserInfoLoaded { loaded: Ok(user_info()), now: clock() }, &cfg);
    assert!(matches!(action, ServiceRefreshAction::Rotate { old_token_id: 31, ref dto } if dto.family_id == 555));
    let (state, action) = AuthService::refresh_step(state, RefreshEvent::Rotated(Ok(32)), &cfg);
    assert!(matches!(state, RefreshState::Finished));
    assert!(matches!(action, ServiceRefreshAction::Finish(Ok(_))));
}

#[test]
fn service_refresh_refusals() {
    let cfg = config();
    let now = Timestamp { secs: 10, nanos: 0 };

    let (state, _) = AuthService::refresh("t".to_string(), &cfg);
    let (_, action) = AuthService::refresh_step(state, RefreshEvent::RecordLoaded { record: Ok(None), now }, &cfg);
    assert!(matches!(action, ServiceRefreshAction::Finish(Err(AuthServiceError::InvalidRefreshToken))));

    let (state, _) = AuthService::refresh("t".to_string(), &cfg);
    let (state, action) =
        AuthService::refresh_step(state, RefreshEvent::RecordLoaded { record: Ok(Some(record(true, 20))), now }, &cfg);
    assert!(matches!(action, ServiceRefreshAction::RevokeFamily { family_id: 555 }));
    let (_, action) = AuthService::refresh_step(state, RefreshEvent::FamilyRevoked(Ok(())), &cfg);
    assert!(matches!(action, ServiceRefreshAction::Finish(Err(AuthServiceError::RevokedRefreshToken))));

    let (state, _) = AuthService::refresh("t".to_string(), &cfg);
    let (_, action) =
        AuthService::refresh_step(state, RefreshEvent::RecordLoaded { record: Ok(Some(record(false, 5))), now }, &cfg);
    assert!(matches!(action, ServiceRefreshAction::Finish(Err(AuthServiceError::ExpiredRefreshToken))));
}

#[test]
fn service_error_from_token_error() {
    assert!(matches!(AuthServiceError::from(TokenError::InvalidToken), AuthServiceError::InvalidRefreshToken));
    assert!(matches!(AuthServiceError::from(TokenError::ExpiredToken), AuthServiceError::ExpiredRefreshToken));
    assert!(matches!(AuthServiceError::from(TokenError::TokenCreationFailed), AuthServiceError::InternalError));
    assert!(matches!(AuthServiceError::from(InvalidLength), AuthServiceError::InternalError));
}

#[test]
fn service_logout_revokes_the_stored_family_or_nothing() {
    let cfg = config();
    let (state, action) = AuthService::logout("t".to_string(), &cfg);
    assert!(matches!(action, LogoutAction::LoadRecord { ref token_hash } if *token_hash == hash("t")));
    let (state, action) = AuthService::logout_step(state, LogoutEvent::RecordLoaded(Ok(Some(record(false, 1)))));
    assert!(matches!(action, LogoutAction::RevokeFamily { family_id: 555 }));
    let (state, action) = AuthService::logout_step(state, LogoutEvent::FamilyRevoked(Ok(())));
    assert_eq!(state, LogoutState::Finished);
    assert!(matches!(action, LogoutAction::Finish(Ok(()))));

    let (state, _) = AuthService::logout("t".to_string(), &cfg);
    let (_, action) = AuthService::logout_step(state, LogoutEvent::RecordLoaded(Ok(None)));
    assert!(matches!(action, LogoutAction::Finish(Ok(()))));
}

#[test]
fn login_service_hands_out_the_session_token() {
    let (state, action) = LoginService::login(UsernameLogin { username: "ann".to_string(), password: "pw".to_string() });
    assert!(matches!(action, LoginServiceAction::LoadCredentials { ref username } if username == "ann"));
    let (state, action) =
        LoginService::login_step(state, LoginServiceEvent::CredentialsLoaded(Ok(Some(credentials(UserStatus::Active)))));
    assert!(matches!(action, LoginServiceAction::VerifyPassword { ref password, ref password_hash } if password == "pw" && password_hash == "hash"));
    let (state, action) = LoginService::login_step(state, LoginServiceEvent::PasswordVerified(true));
    assert!(matches!(action, LoginServiceAction::RecordLoginAndLoadUserInfo { user_id: 7 }));
    let (state, action) = LoginService::login_step(state, LoginServiceEvent::UserInfoLoaded(Ok(user_info())));
    assert!(matches!(state, LoginServiceState::Finished));
    match action {
        LoginServiceAction::Finish(Ok(vo)) => {
            assert_eq!(vo.token, "my_jwt");
            assert_eq!(vo.user_info.id, 7);
        },
        other => panic!("unexpected {:?}", other),
    }
}

#[test]
fn login_service_refusals() {
    let request = || UsernameLogin { username: "ann".to_string(), password: "pw".to_string() };
    let (state, _) = LoginService::login(request());
    let (_, action) = LoginService::login_step(state, LoginServiceEvent::CredentialsLoaded(Ok(None)));
    assert!(matches!(action, LoginServiceAction::Finish(Err(LoginServiceError::NotFoundCredentials))));

    let (state, _) = LoginService::login(request());
    let (_, action) =
        LoginService::login_step(state, LoginServiceEvent::CredentialsLoaded(Ok(Some(credentials(UserStatus::Pending)))));
    assert!(matches!(action, LoginServiceAction::Finish(Err(LoginServiceError::InvalidUser(UserStatusError::Pending)))));

    let (state, _) = LoginService::login(request());
    let (state, _) =
        LoginService::login_step(state, LoginServiceEvent::CredentialsLoaded(Ok(Some(credentials(UserStatus::Active)))));
    let (_, action) = LoginService::login_step(state, LoginServiceEvent::PasswordVerified(false));
    assert!(matches!(action, LoginServiceAction::Finish(Err(LoginServiceError::InvalidCredentials))));

    let (state, _) = LoginService::login(request());
    let (state, _) =
        LoginService::login_step(state, LoginServiceEvent::CredentialsLoaded(Ok(Some(credentials(UserStatus::Active)))));
    let (state, _) = LoginService::login_step(state, LoginServiceEvent::PasswordVerified(true));
    let (_, action) = LoginService::login_step(
        state,
        LoginServiceEvent::UserInfoLoaded(Err(RepositoryError::ConsistencyViolation("bad".to_string()))),
    );
    assert!(matches!(action, LoginServiceAction::Finish(Err(LoginServiceError::Repository(_)))));
}
