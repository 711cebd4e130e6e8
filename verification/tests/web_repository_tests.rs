use socky_be::error::{AuthError, RepositoryError, ServiceError};
use socky_be::log::LogController;
use socky_be::model::{CreateRefreshTokenDto, CurrentUser, UserRole, UserRoleError, UserStatus, UserStatusError};
use socky_be::repository::auth_repo::{AuthRepository, TokenTable};
use socky_be::repository::ops::{self, HardDeleteStrategy, SoftDeleteStrategy, Deletability};
use socky_be::repository::query::{push_decimal, QueryBuilder, SqlArg};
use socky_be::repository::repo_transaction::{TransactionQueryDto, TransactionRepository};
use socky_be::repository::token_repo::TokenRepository;
use socky_be::repository::user_repo::{UserQueryDto, UserRepository};
use socky_be::text::is_blank;
use socky_be::time::Timestamp;
use socky_be::web::ctx::{ctx_from_extension, parse_token, resolve_ctx, Ctx, CtxError};
use socky_be::web::error::{client_error, get_status_code_and_message, ErrorDetails, HealthError, RepositoryManagerError, WebError};
use socky_be::web::extractor::{current_user, RequireAdmin, RequireRole, RequireStandard, RequireSupport};
use socky_be::web::middleware::{fallback, handle_panic, ready_outcome, request_id_or_unknown, response_log_level, ResponseLogLevel};
use socky_be::worker::{CleanupAction, CleanupCycle, CleanupReport};

fn dto() -> CreateRefreshTokenDto {
    CreateRefreshTokenDto {
        user_id: 4,
        family_id: 8,
        token_hash: vec![1, 2],
        expires_at: Timestamp { secs: 100, nanos: 0 },
    }
}

#[test]
fn parse_token_splits_id_expiration_and_signature() {
    assert_eq!(
        parse_token("user-123.exp.sign".to_string()),
        Ok((123, "exp".to_string(), "sign".to_string()))
    );
    assert_eq!(
        parse_token("user-007.a.b.c".to_string()),
        Ok((7, "a.b".to_string(), "c".to_string()))
    );
    assert_eq!(
        parse_token("user-1.a.b\nrest.x".to_string()),
        Ok((1, "a".to_string(), "b".to_string()))
    );
    assert_eq!(
        parse_token("user-18446744073709551615.e.s".to_string()),
        Ok((u64::MAX, "e".to_string(), "s".to_string()))
    );
}

#[test]
fn parse_token_refuses_malformed_tokens() {
    for bad in [
        "user-.a.b",
        "user-12a.b.c",
        "user-1.ab",
        "user-1..b",
        "user-1.a.",
        "xuser-1.a.b",
        "User-1.a.b",
        "user-18446744073709551616.e.s",
        "user-1\n.a.b",
        "",
    ] {
        assert_eq!(parse_token(bad.to_string()), Err(CtxError::AuthFailWrongTokenFormat), "{bad:?}");
    }
}

#[test]
fn resolve_ctx_outcomes() {
    assert_eq!(resolve_ctx(None), (Err(CtxError::AuthFailNoAuthTokenCookie), true));
    assert_eq!(resolve_ctx(Some("junk".to_string())), (Err(CtxError::AuthFailWrongTokenFormat), false));
    assert_eq!(resolve_ctx(Some("user-9.e.s".to_string())), (Ok(Ctx::new(9)), false));
    assert_eq!(Ctx::new(9).user_id(), 9);
}

#[test]
fn ctx_from_extension_outcomes() {
    assert_eq!(ctx_from_extension(None), Err(CtxError::AuthFailCtxNotInRequestExt));
    assert_eq!(ctx_from_extension(Some(Ok(Ctx::new(3)))), Ok(Ctx::new(3)));
    assert_eq!(
        ctx_from_extension(Some(Err(CtxError::AuthFailWrongTokenFormat))),
        Err(CtxError::AuthFailWrongTokenFormat)
    );
}

#[test]
fn status_codes_and_messages() {
    let cases: Vec<(WebError, u16, &str)> = vec![
        (WebError::Controller(ServiceError::Repository(RepositoryError::NotFound { entity: "users", id: 1 })), 404, "Resource not found."),
        (WebError::Controller(ServiceError::Repository(RepositoryError::DatabaseQueryFailed("x".into()))), 500, "An unexpected internal error occurred."),
        (WebError::Controller(ServiceError::Repository(RepositoryError::ConsistencyViolation("x".into()))), 500, "An unexpected internal error occurred."),
        (WebError::Controller(ServiceError::Auth(AuthError::HashingFailed)), 500, "An unexpected internal error occurred."),
        (WebError::Controller(ServiceError::Auth(AuthError::InvalidLoginCredentials)), 401, "Invalid email or password."),
        (WebError::Controller(ServiceError::Auth(AuthError::MissingToken)), 401, "Invalid or expired token."),
        (WebError::Controller(ServiceError::Auth(AuthError::InvalidToken)), 401, "Invalid or expired token."),
        (WebError::Controller(ServiceError::Auth(AuthError::ExpiredToken)), 401, "Invalid or expired token."),
        (WebError::Controller(ServiceError::Auth(AuthError::RevokedToken)), 401, "Invalid or expired token."),
        (WebError::Controller(ServiceError::Auth(AuthError::TokenCreationFailed)), 500, "An unexpected internal error occurred."),
        (WebError::Controller(ServiceError::UserStatus(UserStatusError::Disabled)), 403, "User account is disabled."),
        (WebError::Controller(ServiceError::UserStatus(UserStatusError::Pending)), 403, "User account is pending activation."),
        (WebError::Controller(ServiceError::UserStatus(UserStatusError::Locked)), 403, "User account is locked."),
        (WebError::Controller(ServiceError::UserRole(UserRoleError { required: 3, current: 1 })), 403, "Permission denied."),
        (WebError::Controller(ServiceError::CurrentUserExtractionError), 500, "An unexpected internal error occurred."),
        (WebError::Controller(ServiceError::Internal("x".into())), 500, "An unexpected internal error occurred."),
        (WebError::AuthorizationBearer, 401, "Invalid or expired token."),
        (WebError::UserExtraction, 500, "An unexpected internal error occurred."),
        (WebError::UserRole(UserRoleError { required: 2, current: 1 }), 403, "Permission denied."),
        (WebError::Health(HealthError::Timeout), 503, "Service is temporarily unavailable."),
        (WebError::Panic("boom".into()), 500, "An unexpected internal error occurred."),
        (WebError::NotFound("nope".into()), 404, "Resource not found."),
    ];
    for (error, status, message) in cases {
        let (s, m) = get_status_code_and_message(&error);
        assert_eq!(s, status, "{error:?}");
        assert_eq!(m, message, "{error:?}");
        assert_eq!(client_error(&error).message, message);
    }
}

#[test]
fn repository_manager_error_inner() {
    let e = RepositoryManagerError::ConnectionFailed("refused".to_string());
    assert_eq!(e.inner(), "refused");
    let e = RepositoryManagerError::CreatePoolFailed("bad url".to_string());
    assert_eq!(e.inner(), "bad url");
}

#[test]
fn middleware_decisions() {
    assert_eq!(response_log_level(500), ResponseLogLevel::Error);
    assert_eq!(response_log_level(503), ResponseLogLevel::Error);
    assert_eq!(response_log_level(404), ResponseLogLevel::Warn);
    assert_eq!(response_log_level(200), ResponseLogLevel::Info);
    assert_eq!(response_log_level(301), ResponseLogLevel::Debug);
    assert_eq!(response_log_level(101), ResponseLogLevel::Debug);
    assert_eq!(request_id_or_unknown(Some("abc")), "abc");
    assert_eq!(request_id_or_unknown(None), "unknown");
    assert!(matches!(handle_panic(Some("a".to_string()), Some("b")), WebError::Panic(ref m) if m == "a"));
    assert!(matches!(handle_panic(None, Some("b")), WebError::Panic(ref m) if m == "b"));
    assert!(matches!(handle_panic(None, None), WebError::Panic(ref m) if m == "Unknown panic"));
    assert!(matches!(fallback(), WebError::NotFound(ref m) if m == "the requested route does not exist."));
}

#[test]
fn readiness_outcomes() {
    assert!(ready_outcome(Some(Ok(()))).is_ok());
    assert!(matches!(ready_outcome(None), Err(WebError::Health(HealthError::Timeout))));
    assert!(matches!(
        ready_outcome(Some(Err(RepositoryManagerError::ConnectionFailed("x".into())))),
        Err(WebError::Health(HealthError::Repository(_)))
    ));
}

#[test]
fn role_requirements() {
    let support = CurrentUser { id: 1, role: UserRole::Support };
    assert!(RequireSupport::from_current_user(support).is_ok());
    assert!(RequireStandard::from_current_user(support).is_ok());
    assert!(matches!(
        RequireAdmin::from_current_user(support),
        Err(WebError::Controller(ServiceError::UserRole(UserRoleError { required: 3, current: 2 })))
    ));
    assert!(matches!(RequireStandard::from_request_parts(None), Err(WebError::UserExtraction)));
    let admin = CurrentUser { id: 2, role: UserRole::Admin };
    assert!(matches!(RequireAdmin::from_request_parts(Some(admin)), Ok(RequireRole(u)) if u == admin));
    assert!(matches!(current_user(None), Err(WebError::UserExtraction)));
}

#[test]
fn roles_and_statuses() {
    assert_eq!(UserRole::from_level(1), Some(UserRole::Standard));
    assert_eq!(UserRole::from_level(3), Some(UserRole::Admin));
    assert_eq!(UserRole::from_level(4), None);
    assert_eq!(UserRole::Support.level(), 2);
    assert_eq!(UserStatus::Active.level(), 1);
    assert_eq!(UserStatus::Active.check_status(), Ok(()));
    assert_eq!(UserStatus::Disabled.check_status(), Err(UserStatusError::Disabled));
    assert_eq!(UserStatus::Pending.check_status(), Err(UserStatusError::Pending));
    assert_eq!(UserStatus::Locked.check_status(), Err(UserStatusError::Locked));
}

#[test]
fn push_decimal_writes_numerals() {
    let mut s = String::from("$");
    push_decimal(&mut s, 0);
    assert_eq!(s, "$0");
    let mut s = String::new();
    push_decimal(&mut s, 1_700_000_000_123);
    assert_eq!(s, "1700000000123");
}

#[test]
fn query_builder_numbers_placeholders() {
    let mut q = QueryBuilder::new("SELECT ");
    q.push_bind(SqlArg::I64(1));
    q.push(", ");
    q.push_bind(SqlArg::Bool(true));
    assert_eq!(q.sql, "SELECT $1, $2");
    assert_eq!(q.args.len(), 2);
}

#[test]
fn crud_statements() {
    let q = ops::create::<TokenRepository, CreateRefreshTokenDto>(&dto());
    assert_eq!(q.sql, "INSERT INTO refresh_tokens (user_id, family_id, token_hash, expires_at) VALUES ($1, $2, $3, $4) RETURNING id");
    assert!(matches!(q.args[2], SqlArg::Bytes(ref b) if *b == vec![1, 2]));
    assert_eq!(ops::get::<TokenRepository>(5).sql, "SELECT * FROM refresh_tokens WHERE id = $1");
    assert_eq!(ops::delete::<TokenRepository>(5).sql, "DELETE FROM refresh_tokens WHERE id = $1 RETURNING id");
    assert!(!HardDeleteStrategy::supports_soft_delete());
    assert!(SoftDeleteStrategy::supports_soft_delete());
}

#[test]
fn found_and_deleted_outcomes() {
    assert_eq!(ops::found::<TokenRepository, i32>(1, Some(5)).ok(), Some(5));
    assert!(matches!(
        ops::found::<TokenRepository, i32>(1, None),
        Err(RepositoryError::NotFound { entity: "refresh_tokens", id: 1 })
    ));
    assert!(ops::deleted::<TokenRepository>(2, vec![2]).is_ok());
    assert!(matches!(
        ops::deleted::<TokenRepository>(2, vec![]),
        Err(RepositoryError::NotFound { entity: "refresh_tokens", id: 2 })
    ));
}

#[test]
fn token_repository_statements() {
    let q = TokenRepository::get_by_hash(&[9, 8]);
    assert_eq!(q.sql, "SELECT * FROM refresh_tokens WHERE token_hash = $1");
    let (revoke, insert) = TokenRepository::rotate(&dto(), 17);
    assert_eq!(revoke.sql, "UPDATE refresh_tokens SET is_revoked = $1 WHERE id = $2 RETURNING id");
    assert!(matches!(revoke.args[1], SqlArg::I64(17)));
    assert!(insert.sql.starts_with("INSERT INTO refresh_tokens"));
    assert_eq!(TokenRepository::revoked(17, Some(17)).ok(), Some(17));
    assert!(matches!(TokenRepository::revoked(17, None), Err(RepositoryError::NotFound { id: 17, .. })));
}

#[test]
fn auth_repository_statements() {
    let q = AuthRepository::delete_expired_token_batch(Timestamp { secs: 1, nanos: 0 }, u64::MAX);
    assert!(matches!(q.args[1], SqlArg::I64(-1)));
    let q = AuthRepository::delete_expired_token_batch(Timestamp { secs: 1, nanos: 0 }, 1000);
    assert!(matches!(q.args[1], SqlArg::I64(1000)));
    assert!(q.sql.contains("LIMIT $2"));
    let (lock, revoke) = AuthRepository::revoke_tokens_for_family(77);
    assert!(lock.sql.contains("FOR NO KEY UPDATE"));
    assert!(matches!(revoke.args[0], SqlArg::Uuid(77)));
    let (tokens, user) = AuthRepository::anonymize_user(3);
    assert_eq!(tokens.sql, "DELETE FROM refresh_tokens WHERE user_id = $1");
    assert!(user.sql.contains("is_ghost = true"));
    assert!(matches!(
        AuthRepository::user_credentials_found(6, None),
        Err(RepositoryError::NotFound { entity: "users", id: 6 })
    ));
    assert_eq!(AuthRepository::get_token(2).sql, "SELECT * FROM refresh_tokens WHERE id = $1");
    let _ = TokenTable;
}

#[test]
fn user_repository_statements() {
    let q = UserRepository::search_active("an");
    assert!(matches!(q.args[0], SqlArg::Text(ref p) if p == "%an%"));
    let query = UserQueryDto { is_ghost: Some(false), status: Some(UserStatus::Active), role: None };
    let q = UserRepository::count_all(&query);
    assert!(matches!(q.args[0], SqlArg::OptBool(Some(false))));
    assert!(matches!(q.args[1], SqlArg::OptI16(Some(1))));
    assert!(matches!(q.args[2], SqlArg::OptI16(None)));
    assert!(UserRepository::list_all(&query, 10, 20, 0).is_none());
    let page = UserRepository::list_all(&query, 10, 20, 5).expect("a page to read");
    assert!(matches!(page.args[3], SqlArg::I64(10)));
    assert!(matches!(page.args[4], SqlArg::I64(20)));
    assert!(UserRepository::exists_from_count(Some(2)));
    assert!(!UserRepository::exists_from_count(Some(0)));
    assert!(!UserRepository::exists_from_count(None));
}

#[test]
fn transaction_filters() {
    let q = TransactionRepository::count_transactions(&TransactionQueryDto { cid: Some(3), title: Some("rent".to_string()) });
    assert_eq!(q.sql, "SELECT COUNT(*) FROM transaction WHERE 1=1 AND cid = $1 AND title ILIKE $2");
    assert!(matches!(q.args[1], SqlArg::Text(ref p) if p == "%rent%"));
    let q = TransactionRepository::count_transactions(&TransactionQueryDto { cid: None, title: Some("  ".to_string()) });
    assert_eq!(q.sql, "SELECT COUNT(*) FROM transaction WHERE 1=1");
    assert!(q.args.is_empty());
    assert!(TransactionRepository::list_with_pagination(0, 10, &TransactionQueryDto { cid: None, title: None }, 0).is_none());
}

#[test]
fn blank_text() {
    assert!(is_blank(""));
    assert!(is_blank(" \t\n\u{3000}"));
    assert!(!is_blank(" a "));
}

#[test]
fn timestamps() {
    let t = Timestamp { secs: 10, nanos: 5 };
    assert_eq!(t.plus_seconds(-20), Timestamp { secs: -10, nanos: 5 });
    assert!(t.is_before(&Timestamp { secs: 10, nanos: 6 }));
    assert!(!t.is_before(&t));
}

#[test]
fn cleanup_cycle_runs_batches_until_a_short_one() {
    let (mut cycle, action) = CleanupCycle::start();
    assert_eq!(action, CleanupAction::DeleteBatch { limit: 1000 });
    assert_eq!(
        cycle.batch_done(Ok(1000)),
        CleanupAction::PauseThenDeleteBatch { millis: 100, limit: 1000 }
    );
    assert_eq!(cycle.batch_done(Ok(5)), CleanupAction::Finish(CleanupReport::Deleted(1005)));
    assert_eq!(cycle.total_deleted, 1005);

    let (mut cycle, _) = CleanupCycle::start();
    assert_eq!(cycle.batch_done(Ok(0)), CleanupAction::Finish(CleanupReport::NothingExpired));

    let (mut cycle, _) = CleanupCycle::start();
    assert_eq!(
        cycle.batch_done(Err(RepositoryError::DatabaseQueryFailed("x".into()))),
        CleanupAction::Finish(CleanupReport::Failed)
    );
}

#[test]
fn log_line_of_a_request() {
    let details = ErrorDetails::new("Resource not found.".to_string(), "NotFound".to_string(), "route".to_string());
    let line = LogController::log_request(
        "req-1".to_string(),
        1_700_000_000_123,
        "GET".to_string(),
        "/api/x".to_string(),
        Some(&details),
    );
    assert_eq!(line.timestamp, "1700000000123");
    assert_eq!(line.user_id, Some(0));
    assert_eq!(line.client_message.as_deref(), Some("Resource not found."));
    assert_eq!(line.service_error_type.as_deref(), Some("NotFound"));
    assert_eq!(line.service_error_data.as_deref(), Some("route"));

    let line = LogController::log_request("req-2".to_string(), 0, "POST".to_string(), "/".to_string(), None);
    assert_eq!(line.timestamp, "0");
    assert!(line.client_message.is_none() && line.service_error_type.is_none() && line.service_error_data.is_none());
}

#[test]
fn rows_read_back_into_records() {
    let c = AuthRepository::credentials_of_row(4, "h".to_string(), 2, 1).expect("valid row");
    assert_eq!(c.role, UserRole::Support);
    assert_eq!(c.status, UserStatus::Active);
    assert!(matches!(
        AuthRepository::credentials_of_row(4, "h".to_string(), 9, 1),
        Err(RepositoryError::ConsistencyViolation(_))
    ));
    assert!(matches!(
        AuthRepository::credentials_of_row(4, "h".to_string(), 1, 7),
        Err(RepositoryError::ConsistencyViolation(_))
    ));
    let info = UserRepository::login_info(5, Some("eve".to_string()), Some("e@x.y".to_string()), Some(3))
        .expect("registered user");
    assert_eq!(info.role, UserRole::Admin);
    assert_eq!(info.username, "eve");
    assert_eq!(info.email, "e@x.y");
    assert!(matches!(UserRepository::login_info(5, None, None, None), Err(RepositoryError::ConsistencyViolation(_))));
    assert!(matches!(
        UserRepository::login_info(5, None, Some("e@x.y".to_string()), Some(3)),
        Err(RepositoryError::ConsistencyViolation(_))
    ));
    assert!(matches!(
        UserRepository::login_info(5, Some("eve".to_string()), Some("e".to_string()), Some(0)),
        Err(RepositoryError::ConsistencyViolation(_))
    ));
}

#[test]
fn cleanup_skips_the_tick_at_start() {
    let mut timer = socky_be::worker::CleanupTimer::new();
    assert!(!timer.on_tick());
    assert!(timer.on_tick());
    assert!(timer.on_tick());
    assert_eq!(timer.ticks_seen, 3);
}

#[test]
fn generic_statements_follow_the_delete_strategy() {
    assert_eq!(
        ops::delete::<UserRepository>(5).sql,
        "DELETE FROM users WHERE id = $1 AND deleted_at IS NULL RETURNING id"
    );
    assert_eq!(ops::delete::<TokenRepository>(5).sql, "DELETE FROM refresh_tokens WHERE id = $1 RETURNING id");
    assert_eq!(
        ops::exists_by_column::<UserRepository>("email", "a@b.c").sql,
        "SELECT EXISTS(SELECT 1 FROM users WHERE email = $1 AND deleted_at IS NULL)"
    );
    assert_eq!(
        ops::exists_by_column::<TokenRepository>("token_hash", "x").sql,
        "SELECT EXISTS(SELECT 1 FROM refresh_tokens WHERE token_hash = $1)"
    );
    assert_eq!(ops::get::<UserRepository>(5).sql, "SELECT * FROM users WHERE id = $1 AND deleted_at IS NULL");
}
