use socky_be::auth::controller::{AuthController, LoginAction, LoginEvent, LoginRequestDto, RefreshAction, RefreshEvent};
use socky_be::auth::service::{AuthService, LogoutAction, LogoutEvent};
use socky_be::auth::password::password_change;
use socky_be::repository::auth_repo::{AuthRepository, SQL_CHANGE_PASSWORD, SQL_LOCK_LIVE_OF_USER, SQL_REVOKE_LIVE_OF_USER};
use socky_be::repository::query::{QueryBuilder, SqlArg};
use socky_be::error::ServiceError;
use socky_be::model::{
    AuthResponseVo, LoggedUserInfoVo, LoginCredentialsEntity, RefreshTokenEntity, UserRole, UserStatus,
};
use socky_be::time::Timestamp;
use socky_be::token::AuthConfig;
use socky_be::web::error::{get_status_code_and_message, WebError};
use socky_be::web::middleware::authenticate;

/// An in-memory stand-in for the users and refresh-token tables, driven by
/// the library's machines and statements. Passwords are stored as they are.
struct TestApp {
    config: AuthConfig,
    users: Vec<(LoginCredentialsEntity, String)>,
    tokens: Vec<RefreshTokenEntity>,
    clock: Timestamp,
}

impl TestApp {
    fn new() -> TestApp {
        TestApp {
            config: AuthConfig {
                password_pepper: "pepper".to_string(),
                access_token_secret: "access-secret".to_string(),
                access_token_expiration_seconds: 900,
                refresh_token_secret: "refresh-secret".to_string(),
                refresh_token_expiration_seconds: 86400,
                refresh_token_pepper: "refresh-pepper".to_string(),
            },
            users: Vec::new(),
            tokens: Vec::new(),
            clock: socky_be::time::now(),
        }
    }

    fn create_user(&mut self, email: &str, password: &str) {
        let id = self.users.len() as i64 + 1;
        let credentials = LoginCredentialsEntity {
            id,
            password_hash: password.to_string(),
            role: UserRole::Standard,
            status: UserStatus::Active,
        };
        self.users.push((credentials, email.to_string()));
    }

    fn user_info(&self, user_id: i64) -> LoggedUserInfoVo {
        let (credentials, email) = self.users.iter().find(|(c, _)| c.id == user_id).expect("user exists");
        LoggedUserInfoVo { id: user_id, username: format!("user{}", user_id), email: email.clone(), role: credentials.role }
    }

    fn login(&mut self, email: &str, password: &str) -> (u16, Option<AuthResponseVo>) {
        let config = self.config.clone();
        let request = LoginRequestDto { email: email.to_string(), password: password.to_string() };
        let (mut state, mut action) = AuthController::login(request);
        loop {
            let event = match action {
                LoginAction::LoadCredentials { email } => LoginEvent::CredentialsLoaded(Ok(self
                    .users
                    .iter()
                    .find(|(_, e)| *e == email)
                    .map(|(c, _)| c.clone()))),
                LoginAction::VerifyPassword { password, password_hash, .. } => {
                    LoginEvent::PasswordVerified { verified: Ok(password == password_hash), now: self.clock }
                },
                LoginAction::LoadUserInfo { user_id } => LoginEvent::UserInfoLoaded(Ok(self.user_info(user_id))),
                LoginAction::StoreRefreshToken { dto } => {
                    let id = self.tokens.len() as i64 + 1;
                    self.tokens.push(RefreshTokenEntity {
                        id,
                        user_id: dto.user_id,
                        family_id: dto.family_id,
                        token_hash: dto.token_hash,
                        is_revoked: false,
                        expires_at: dto.expires_at,
                    });
                    LoginEvent::RefreshTokenStored(Ok(id))
                },
                LoginAction::Finish { result, .. } => return answer(result),
            };
            assert!(state.accepts_event(&event));
            let (s, a) = AuthController::login_step(state, event, &config);
            state = s;
            action = a;
        }
    }

    fn refresh(&mut self, refresh_token: Option<&str>) -> (u16, Option<AuthResponseVo>) {
        let config = self.config.clone();
        let (mut state, mut action) = AuthController::refresh(refresh_token.map(|t| t.to_string()), &config);
        loop {
            let event = match action {
                RefreshAction::LoadRecord { token_hash } => RefreshEvent::RecordLoaded {
                    record: Ok(self.tokens.iter().find(|t| t.token_hash == token_hash).cloned()),
                    now: self.clock,
                },
                RefreshAction::RevokeFamily { family_id } => {
                    self.revoke_family(family_id);
                    RefreshEvent::FamilyRevoked(Ok(()))
                },
                RefreshAction::LoadUserInfo { user_id } => {
                    RefreshEvent::UserInfoLoaded { loaded: Ok(self.user_info(user_id)), now: self.clock }
                },
                RefreshAction::Rotate { dto, old_token_id } => {
                    for t in self.tokens.iter_mut().filter(|t| t.id == old_token_id) {
                        t.is_revoked = true;
                    }
                    let id = self.tokens.len() as i64 + 1;
                    self.tokens.push(RefreshTokenEntity {
                        id,
                        user_id: dto.user_id,
                        family_id: dto.family_id,
                        token_hash: dto.token_hash,
                        is_revoked: false,
                        expires_at: dto.expires_at,
                    });
                    RefreshEvent::Rotated(Ok(id))
                },
                RefreshAction::Finish(result) => return answer(result),
            };
            assert!(state.accepts_event(&event));
            let (s, a) = AuthController::refresh_step(state, event, &config);
            state = s;
            action = a;
        }
    }

    fn revoke_family(&mut self, family_id: u128) {
        for t in self.tokens.iter_mut().filter(|t| t.family_id == family_id) {
            t.is_revoked = true;
        }
    }

    fn logout(&mut self, refresh_token: &str) -> u16 {
        let (mut state, mut action) = AuthService::logout(refresh_token.to_string(), &self.config);
        loop {
            let event = match action {
                LogoutAction::LoadRecord { token_hash } => {
                    LogoutEvent::RecordLoaded(Ok(self.tokens.iter().find(|t| t.token_hash == token_hash).cloned()))
                },
                LogoutAction::RevokeFamily { family_id } => {
                    self.revoke_family(family_id);
                    LogoutEvent::FamilyRevoked(Ok(()))
                },
                LogoutAction::Finish(result) => return if result.is_ok() { 200 } else { 500 },
            };
            assert!(state.accepts_event(&event));
            let (s, a) = AuthService::logout_step(state, event);
            state = s;
            action = a;
        }
    }

    /// Runs the library's statements on the stand-in tables.
    fn run(&mut self, statement: &QueryBuilder) {
        let int_arg = |i: usize| match statement.args[i] {
            SqlArg::I64(v) => v,
            _ => panic!("not an integer"),
        };
        if statement.sql == SQL_LOCK_LIVE_OF_USER {
            assert!(matches!(statement.args[0], SqlArg::I64(_)));
        } else if statement.sql == SQL_REVOKE_LIVE_OF_USER {
            let user_id = int_arg(0);
            for t in self.tokens.iter_mut().filter(|t| t.user_id == user_id && !t.is_revoked) {
                t.is_revoked = true;
            }
        } else if statement.sql == SQL_CHANGE_PASSWORD {
            let hash = match &statement.args[0] {
                SqlArg::Text(h) => h.clone(),
                _ => panic!("not a text"),
            };
            let user_id = int_arg(1);
            for (c, _) in self.users.iter_mut().filter(|(c, _)| c.id == user_id) {
                c.password_hash = hash.clone();
            }
        } else {
            panic!("unexpected statement {}", statement.sql);
        }
    }

    fn logout_all(&mut self, user_id: i64) -> u16 {
        let (lock, revoke) = AuthRepository::revoke_tokens_for_user(user_id);
        self.run(&lock);
        self.run(&revoke);
        200
    }

    fn change_password(&mut self, user_id: i64, old_password: &str, new_password: &str) -> u16 {
        let stored = self.users.iter().find(|(c, _)| c.id == user_id).expect("user exists").0.password_hash.clone();
        match password_change(user_id, stored == old_password, Ok(new_password.to_string())) {
            Ok((change, lock, revoke)) => {
                self.run(&change);
                self.run(&lock);
                self.run(&revoke);
                200
            },
            Err(e) => get_status_code_and_message(&WebError::Controller(ServiceError::Auth(e))).0,
        }
    }

    fn health(&self, authorization: Option<&str>) -> u16 {
        match authenticate(authorization, &self.config) {
            Ok(_) => 200,
            Err(e) => get_status_code_and_message(&e).0,
        }
    }
}

fn answer(result: Result<AuthResponseVo, ServiceError>) -> (u16, Option<AuthResponseVo>) {
    match result {
        Ok(vo) => (200, Some(vo)),
        Err(e) => (get_status_code_and_message(&WebError::Controller(e)).0, None),
    }
}

#[test]
fn test_successful_login() {
    let mut app = TestApp::new();
    let email = format!("login_success_{}@example.com", 1);
    let password = "my_secure_password";
    app.create_user(&email, password);
    let (status, body) = app.login(&email, password);
    assert_eq!(status, 200);
    let body = body.expect("a body");
    assert!(!body.access_token.is_empty());
    assert!(!body.refresh_token.is_empty());
    assert_eq!(body.user_info.email, email);
}

#[test]
fn test_login_invalid_email() {
    let mut app = TestApp::new();
    let (status, _) = app.login("nonexistent@example.com", "some_password");
    assert!(!(200..300).contains(&status));
}

#[test]
fn test_login_invalid_password() {
    let mut app = TestApp::new();
    let email = format!("login_invalid_pwd_{}@example.com", 1);
    app.create_user(&email, "correct_password");
    let (status, _) = app.login(&email, "wrong_password");
    assert!(!(200..300).contains(&status));
}

#[test]
fn test_token_refresh() {
    let mut app = TestApp::new();
    let email = format!("refresh_{}@example.com", 1);
    let password = "my_secure_password";
    app.create_user(&email, password);
    let (_, body) = app.login(&email, password);
    let refresh_token = body.expect("a body").refresh_token;
    let (status, refresh_body) = app.refresh(Some(&refresh_token));
    assert_eq!(status, 200);
    let refresh_body = refresh_body.expect("a body");
    assert!(!refresh_body.access_token.is_empty());
    assert!(!refresh_body.refresh_token.is_empty());
}

#[test]
fn test_access_protected_route_without_token() {
    let app = TestApp::new();
    assert_eq!(app.health(None), 401);
}

#[test]
fn test_access_protected_route_with_token() {
    let mut app = TestApp::new();
    let email = format!("protected_{}@example.com", 1);
    let password = "password";
    app.create_user(&email, password);
    let (_, body) = app.login(&email, password);
    let access_token = body.expect("a body").access_token;
    assert_eq!(app.health(Some(&format!("Bearer {}", access_token))), 200);
}

#[test]
fn test_logout() {
    let mut app = TestApp::new();
    let email = format!("logout_{}@example.com", 1);
    let password = "password";
    app.create_user(&email, password);
    let (_, body) = app.login(&email, password);
    let refresh_token = body.expect("a body").refresh_token;
    assert_eq!(app.logout(&refresh_token), 200);
    let (status, _) = app.refresh(Some(&refresh_token));
    assert!(!(200..300).contains(&status));
}

#[test]
fn test_logout_all() {
    let mut app = TestApp::new();
    let email = format!("logout_all_{}@example.com", 1);
    let password = "password";
    app.create_user(&email, password);
    let (_, first) = app.login(&email, password);
    let (_, second) = app.login(&email, password);
    let first = first.expect("a body");
    let second = second.expect("a body");
    assert_eq!(app.logout_all(first.user_info.id), 200);
    let (status, _) = app.refresh(Some(&first.refresh_token));
    assert!(!(200..300).contains(&status));
    let (status, _) = app.refresh(Some(&second.refresh_token));
    assert!(!(200..300).contains(&status));
}

#[test]
fn test_password_change() {
    let mut app = TestApp::new();
    let email = format!("pwd_change_{}@example.com", 1);
    app.create_user(&email, "old_password");
    let (_, body) = app.login(&email, "old_password");
    let body = body.expect("a body");
    assert_eq!(app.change_password(body.user_info.id, "old_password", "new_password"), 200);
    let (status, _) = app.refresh(Some(&body.refresh_token));
    assert!(!(200..300).contains(&status));
    let (status, _) = app.login(&email, "new_password");
    assert_eq!(status, 200);
}

#[test]
fn refresh_rotation_makes_the_old_token_unusable() {
    let mut app = TestApp::new();
    app.create_user("rot@example.com", "pw");
    let (_, body) = app.login("rot@example.com", "pw");
    let old = body.expect("a body").refresh_token;
    let (status, newer) = app.refresh(Some(&old));
    assert_eq!(status, 200);
    let newer = newer.expect("a body").refresh_token;
    // Presenting the rotated token again revokes the whole family.
    let (status, _) = app.refresh(Some(&old));
    assert_eq!(status, 401);
    let (status, _) = app.refresh(Some(&newer));
    assert_eq!(status, 401);
}

#[test]
fn refresh_without_a_token_is_unauthorized() {
    let mut app = TestApp::new();
    assert_eq!(app.refresh(None).0, 401);
}

#[test]
fn password_change_with_a_wrong_old_password_is_refused() {
    let mut app = TestApp::new();
    app.create_user("wrong_old@example.com", "old_password");
    let (_, body) = app.login("wrong_old@example.com", "old_password");
    let body = body.expect("a body");
    assert_eq!(app.change_password(body.user_info.id, "not_the_password", "new_password"), 401);
    let (status, _) = app.refresh(Some(&body.refresh_token));
    assert_eq!(status, 200);
    let (status, _) = app.login("wrong_old@example.com", "new_password");
    assert!(!(200..300).contains(&status));
}
