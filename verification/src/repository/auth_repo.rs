//! Statements for authentication: credentials, last login, refresh-token
//! families and their revocation, token rotation under a lock, clean-up of
//! expired tokens and anonymization of users.
//!
//! Statements that must run in one transaction are returned together, in the
//! order in which they run.

use vstd::prelude::*;
use vstd::string::*;

use crate::error::RepositoryError;
use crate::model::{CreateRefreshTokenDto, LoginCredentialsEntity, RefreshTokenEntity, UserRole, UserStatus};
use crate::repository::ops::{self, DatabaseTable, HardDeleteStrategy, Insertable};
use crate::repository::query::{QueryBuilder, SqlArg, SqlArgView};
use crate::time::Timestamp;

verus! {

/// Repository of authentication data.
pub struct AuthRepository;

/// The refresh-token table as the authentication statements use it. It must
/// not be soft deleted: reads by hash and family revocation rely on revoked
/// rows staying visible.
pub struct TokenTable;

impl DatabaseTable for TokenTable {
    type DeleteStrategy = HardDeleteStrategy;

    open spec fn spec_table() -> Seq<char> {
        "refresh_tokens"@
    }

    fn table() -> (r: &'static str) {
        "refresh_tokens"
    }
}

/// The token found by hash when its family was revoked, and whether it had
/// been revoked before.
#[derive(Debug, Clone)]
pub struct RevokedTokenEntity {
    pub id: i64,
    pub user_id: i64,
    pub family_id: u128,
    pub was_already_revoked: bool,
}

/// A stored token together with what rotation needs to know of its user.
#[derive(Debug, Clone)]
pub struct TokenRotationEntity {
    pub token: RefreshTokenEntity,
    pub user_email: String,
    pub user_role: UserRole,
    pub user_status: UserStatus,
}

/// A token read under an exclusive row lock. The transaction that holds the
/// lock ends with the statements of `rotate` or `revoke_family`, or is rolled
/// back.
#[derive(Debug, Clone)]
pub struct TokenRotationLock {
    pub entity: TokenRotationEntity,
}

pub const SQL_USER_CREDENTIALS_BY_ID: &'static str =
    "SELECT id, password_hash, role, status FROM users WHERE id = $1 AND is_ghost = false";

pub const SQL_USER_CREDENTIALS_BY_EMAIL: &'static str =
    "SELECT id, password_hash, role, status FROM users WHERE email = $1 AND is_ghost = false";

pub const SQL_UPDATE_LAST_LOGIN: &'static str = "UPDATE users SET last_login_at = $1 WHERE id = $2";

pub const SQL_LOCK_TOKEN_BY_HASH: &'static str =
    "SELECT id, user_id, family_id, is_revoked AS was_already_revoked FROM refresh_tokens WHERE token_hash = $1 FOR NO KEY UPDATE";

pub const SQL_LOCK_LIVE_FAMILY: &'static str =
    "SELECT id FROM refresh_tokens WHERE family_id = $1 AND is_revoked = false ORDER BY id FOR NO KEY UPDATE";

pub const SQL_REVOKE_LIVE_FAMILY: &'static str =
    "UPDATE refresh_tokens SET is_revoked = true WHERE family_id = $1 AND is_revoked = false";

pub const SQL_LOCK_LIVE_OF_USER: &'static str =
    "SELECT id FROM refresh_tokens WHERE user_id = $1 AND is_revoked = false ORDER BY id FOR NO KEY UPDATE";

pub const SQL_REVOKE_LIVE_OF_USER: &'static str =
    "UPDATE refresh_tokens SET is_revoked = true WHERE user_id = $1 AND is_revoked = false";

pub const SQL_CHANGE_PASSWORD: &'static str = "UPDATE users SET password_hash = $1 WHERE id = $2";

pub const SQL_LOCK_FOR_ROTATION: &'static str =
    "SELECT t.*, u.email AS user_email, u.role AS user_role, u.status AS user_status FROM refresh_tokens t JOIN users u ON t.user_id = u.id WHERE t.token_hash = $1 FOR NO KEY UPDATE OF t";

pub const SQL_REVOKE_TOKEN: &'static str = "UPDATE refresh_tokens SET is_revoked = true WHERE id = $1";

pub const SQL_DELETE_EXPIRED_BATCH: &'static str =
    "DELETE FROM refresh_tokens WHERE id IN (SELECT id FROM refresh_tokens WHERE expires_at < $1 LIMIT $2)";

pub const SQL_DELETE_TOKENS_OF_USER: &'static str = "DELETE FROM refresh_tokens WHERE user_id = $1";

pub const SQL_ANONYMIZE_USER: &'static str =
    "UPDATE users SET email = NULL, password_hash = NULL, username = NULL, is_ghost = true, role = NULL, status = NULL, updated_at = now() WHERE id = $1";

/// A statement that binds one integer.
fn with_i64(sql: &str, value: i64) -> (q: QueryBuilder)
    ensures
        q.sql@ == sql@,
        q.arg_views() == seq![SqlArgView::I64(value)],
{
    let mut q = QueryBuilder::new(sql);
    q.args.push(SqlArg::I64(value));
    assert(q.arg_views() =~= seq![SqlArgView::I64(value)]);
    q
}

/// A statement that binds one family id.
fn with_uuid(sql: &str, value: u128) -> (q: QueryBuilder)
    ensures
        q.sql@ == sql@,
        q.arg_views() == seq![SqlArgView::Uuid(value)],
{
    let mut q = QueryBuilder::new(sql);
    q.args.push(SqlArg::Uuid(value));
    assert(q.arg_views() =~= seq![SqlArgView::Uuid(value)]);
    q
}

/// A statement that binds one byte string.
fn with_bytes(sql: &str, value: &[u8]) -> (q: QueryBuilder)
    ensures
        q.sql@ == sql@,
        q.arg_views() == seq![SqlArgView::Bytes(value@)],
{
    let mut q = QueryBuilder::new(sql);
    let mut bytes: Vec<u8> = Vec::new();
    bytes.extend_from_slice(value);
    assert(bytes@ =~= value@);
    q.args.push(SqlArg::Bytes(bytes));
    assert(q.arg_views() =~= seq![SqlArgView::Bytes(value@)]);
    q
}

impl AuthRepository {
    /// Stores a refresh token and returns its id.
    pub fn create_token(dto: &CreateRefreshTokenDto) -> (q: QueryBuilder)
        ensures
            q.sql@ == "INSERT INTO "@ + TokenTable::spec_table() + " "@ + dto.insert_sql(0) + " RETURNING id"@,
            q.arg_views() == dto.insert_args(),
    {
        ops::create::<TokenTable, CreateRefreshTokenDto>(dto)
    }

    /// Reads the refresh token with this id.
    pub fn get_token(id: i64) -> (q: QueryBuilder)
        ensures
            q.sql@ == "SELECT * FROM "@ + TokenTable::spec_table() + " "@ + ops::where_id(false, 1),
            q.arg_views() == seq![SqlArgView::I64(id)],
    {
        ops::get::<TokenTable>(id)
    }

    /// Deletes the refresh token with this id.
    pub fn delete_token(id: i64) -> (q: QueryBuilder)
        ensures
            q.sql@ == "DELETE FROM "@ + TokenTable::spec_table() + " "@ + ops::where_id(false, 1) + " RETURNING id"@,
            q.arg_views() == seq![SqlArgView::I64(id)],
    {
        ops::delete::<TokenTable>(id)
    }

    /// Reads the credentials of the user with this id; ghost users have none.
    pub fn get_user_credentials(id: i64) -> (q: QueryBuilder)
        ensures
            q.sql@ == SQL_USER_CREDENTIALS_BY_ID@,
            q.arg_views() == seq![SqlArgView::I64(id)],
    {
        with_i64(SQL_USER_CREDENTIALS_BY_ID, id)
    }

    /// The credentials that the read by id returned, or `NotFound` for the
    /// users table and this id.
    pub fn user_credentials_found(id: i64, row: Option<LoginCredentialsEntity>) -> (r: Result<LoginCredentialsEntity, RepositoryError>)
        ensures
            match row {
                Some(c) => r matches Ok(d) && d == c,
                None => r matches Err(RepositoryError::NotFound { entity, id: i }) && entity@ == "users"@ && i == id,
            },
    {
        match row {
            Some(entity) => Ok(entity),
            None => Err(RepositoryError::NotFound { entity: "users", id }),
        }
    }

    /// The credentials that a row holds, with its role and status numbers
    /// read back; a number that names no role or status breaks the schema's
    /// promise.
    pub fn credentials_of_row(id: i64, password_hash: String, role: i16, status: i16) -> (r: Result<LoginCredentialsEntity, RepositoryError>)
        ensures
            match (UserRole::spec_from_level(role as i64), UserStatus::spec_from_level(status as i64)) {
                (Some(rl), Some(st)) => r matches Ok(c) && c.id == id && c.password_hash == password_hash
                    && c.role == rl && c.status == st,
                _ => r matches Err(RepositoryError::ConsistencyViolation(_)),
            },
    {
        match (UserRole::from_level(role as i64), UserStatus::from_level(status as i64)) {
            (Some(role), Some(status)) => Ok(LoginCredentialsEntity { id, password_hash, role, status }),
            (None, _) => Err(RepositoryError::ConsistencyViolation(String::from_str("unknown role"))),
            (_, None) => Err(RepositoryError::ConsistencyViolation(String::from_str("unknown status"))),
        }
    }

    /// Reads the credentials of the (non-ghost) user with this e-mail address.
    pub fn get_user_credentials_by_email(email: &str) -> (q: QueryBuilder)
        ensures
            q.sql@ == SQL_USER_CREDENTIALS_BY_EMAIL@,
            q.arg_views() == seq![SqlArgView::Text(email@)],
    {
        let mut q = QueryBuilder::new(SQL_USER_CREDENTIALS_BY_EMAIL);
        q.args.push(SqlArg::Text(email.to_string()));
        assert(q.arg_views() =~= seq![SqlArgView::Text(email@)]);
        q
    }

    /// Records `now` as the last login of the user.
    pub fn update_last_login(id: i64, now: Timestamp) -> (q: QueryBuilder)
        ensures
            q.sql@ == SQL_UPDATE_LAST_LOGIN@,
            q.arg_views() == seq![SqlArgView::Timestamp(now), SqlArgView::I64(id)],
    {
        let mut q = QueryBuilder::new(SQL_UPDATE_LAST_LOGIN);
        q.args.push(SqlArg::Timestamp(now));
        q.args.push(SqlArg::I64(id));
        assert(q.arg_views() =~= seq![SqlArgView::Timestamp(now), SqlArgView::I64(id)]);
        q
    }

    /// First statement of a logout by hash: reads and locks the token with
    /// this hash, so that a concurrent refresh of it waits. When a token came
    /// back, `revoke_tokens_for_family` of its family follows in the same
    /// transaction and the token is the answer; when none did, there is
    /// nothing to revoke.
    pub fn revoke_token_family_by_hash(token_hash: &[u8]) -> (q: QueryBuilder)
        ensures
            q.sql@ == SQL_LOCK_TOKEN_BY_HASH@,
            q.arg_views() == seq![SqlArgView::Bytes(token_hash@)],
    {
        with_bytes(SQL_LOCK_TOKEN_BY_HASH, token_hash)
    }

    /// Revokes the live tokens of a family: locks them first, then revokes
    /// them in a second statement, which sees tokens inserted meanwhile.
    pub fn revoke_tokens_for_family(family_id: u128) -> (r: (QueryBuilder, QueryBuilder))
        ensures
            r.0.sql@ == SQL_LOCK_LIVE_FAMILY@,
            r.0.arg_views() == seq![SqlArgView::Uuid(family_id)],
            r.1.sql@ == SQL_REVOKE_LIVE_FAMILY@,
            r.1.arg_views() == seq![SqlArgView::Uuid(family_id)],
    {
        (with_uuid(SQL_LOCK_LIVE_FAMILY, family_id), with_uuid(SQL_REVOKE_LIVE_FAMILY, family_id))
    }

    /// Revokes the live tokens of a user: locks them first, then revokes them.
    pub fn revoke_tokens_for_user(user_id: i64) -> (r: (QueryBuilder, QueryBuilder))
        ensures
            r.0.sql@ == SQL_LOCK_LIVE_OF_USER@,
            r.0.arg_views() == seq![SqlArgView::I64(user_id)],
            r.1.sql@ == SQL_REVOKE_LIVE_OF_USER@,
            r.1.arg_views() == seq![SqlArgView::I64(user_id)],
    {
        (with_i64(SQL_LOCK_LIVE_OF_USER, user_id), with_i64(SQL_REVOKE_LIVE_OF_USER, user_id))
    }

    /// Sets a new password hash and revokes every live token of the user, in
    /// one transaction.
    pub fn change_password_and_revoke_tokens(user_id: i64, new_password_hash: &str) -> (r: (QueryBuilder, QueryBuilder, QueryBuilder))
        ensures
            r.0.sql@ == SQL_CHANGE_PASSWORD@,
            r.0.arg_views() == seq![SqlArgView::Text(new_password_hash@), SqlArgView::I64(user_id)],
            r.1.sql@ == SQL_LOCK_LIVE_OF_USER@,
            r.1.arg_views() == seq![SqlArgView::I64(user_id)],
            r.2.sql@ == SQL_REVOKE_LIVE_OF_USER@,
            r.2.arg_views() == seq![SqlArgView::I64(user_id)],
    {
        let mut q = QueryBuilder::new(SQL_CHANGE_PASSWORD);
        q.args.push(SqlArg::Text(new_password_hash.to_string()));
        q.args.push(SqlArg::I64(user_id));
        assert(q.arg_views() =~= seq![SqlArgView::Text(new_password_hash@), SqlArgView::I64(user_id)]);
        let (lock, revoke) = Self::revoke_tokens_for_user(user_id);
        (q, lock, revoke)
    }

    /// Reads the token with this hash, with its user, and locks it against
    /// concurrent rotations. A row that comes back is held as a
    /// `TokenRotationLock`.
    pub fn acquire_rotation_lock(token_hash: &[u8]) -> (q: QueryBuilder)
        ensures
            q.sql@ == SQL_LOCK_FOR_ROTATION@,
            q.arg_views() == seq![SqlArgView::Bytes(token_hash@)],
    {
        with_bytes(SQL_LOCK_FOR_ROTATION, token_hash)
    }

    /// Deletes up to `limit` tokens that expired before `now`; the rows
    /// affected are the batch size. The limit is bound as a signed 64-bit
    /// integer (two's complement).
    pub fn delete_expired_token_batch(now: Timestamp, limit: u64) -> (q: QueryBuilder)
        ensures
            q.sql@ == SQL_DELETE_EXPIRED_BATCH@,
            q.arg_views() == seq![SqlArgView::Timestamp(now), SqlArgView::I64(limit as i64)],
    {
        let mut q = QueryBuilder::new(SQL_DELETE_EXPIRED_BATCH);
        q.args.push(SqlArg::Timestamp(now));
        q.args.push(SqlArg::I64(limit as i64));
        assert(q.arg_views() =~= seq![SqlArgView::Timestamp(now), SqlArgView::I64(limit as i64)]);
        q
    }

    /// Turns a user into a ghost and deletes all of its tokens, in one
    /// transaction: the tokens go first.
    pub fn anonymize_user(user_id: i64) -> (r: (QueryBuilder, QueryBuilder))
        ensures
            r.0.sql@ == SQL_DELETE_TOKENS_OF_USER@,
            r.0.arg_views() == seq![SqlArgView::I64(user_id)],
            r.1.sql@ == SQL_ANONYMIZE_USER@,
            r.1.arg_views() == seq![SqlArgView::I64(user_id)],
    {
        (with_i64(SQL_DELETE_TOKENS_OF_USER, user_id), with_i64(SQL_ANONYMIZE_USER, user_id))
    }
}

impl TokenRotationLock {
    /// Ends the locked transaction: revokes the locked token, then stores
    /// `dto`, whose id is the answer.
    pub fn rotate(&self, dto: &CreateRefreshTokenDto) -> (r: (QueryBuilder, QueryBuilder))
        ensures
            r.0.sql@ == SQL_REVOKE_TOKEN@,
            r.0.arg_views() == seq![SqlArgView::I64(self.entity.token.id)],
            r.1.sql@ == "INSERT INTO "@ + TokenTable::spec_table() + " "@ + dto.insert_sql(0) + " RETURNING id"@,
            r.1.arg_views() == dto.insert_args(),
    {
        (with_i64(SQL_REVOKE_TOKEN, self.entity.token.id), ops::create::<TokenTable, CreateRefreshTokenDto>(dto))
    }

    /// Ends the locked transaction by revoking the live tokens of the locked
    /// token's family.
    pub fn revoke_family(&self) -> (r: (QueryBuilder, QueryBuilder))
        ensures
            r.0.sql@ == SQL_LOCK_LIVE_FAMILY@,
            r.0.arg_views() == seq![SqlArgView::Uuid(self.entity.token.family_id)],
            r.1.sql@ == SQL_REVOKE_LIVE_FAMILY@,
            r.1.arg_views() == seq![SqlArgView::Uuid(self.entity.token.family_id)],
    {
        AuthRepository::revoke_tokens_for_family(self.entity.token.family_id)
    }
}

} // verus!
