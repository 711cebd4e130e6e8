//! Statements on the users table, and what their results mean.
//!
//! Registered users have an e-mail address, a username, a password hash, a
//! role and a status; ghost users (kept so that their history stays
//! attached to someone) have none of these.

use vstd::prelude::*;
use vstd::string::*;

use crate::error::RepositoryError;
use crate::model::{LoggedUserInfoVo, UserRole, UserStatus};
use crate::repository::ops::{DatabaseTable, SoftDeleteStrategy};
use crate::repository::query::{QueryBuilder, SqlArg, SqlArgView};
use crate::text::push_char;

verus! {

/// Repository of users.
pub struct UserRepository;

// Users are marked as deleted rather than removed: the generic statements
// skip marked rows.
impl DatabaseTable for UserRepository {
    type DeleteStrategy = SoftDeleteStrategy;

    open spec fn spec_table() -> Seq<char> {
        "users"@
    }

    fn table() -> (r: &'static str) {
        "users"
    }
}

/// A user who signs in.
#[derive(Debug, Clone)]
pub struct CreateRegisteredUserDto {
    pub email: String,
    pub username: String,
    pub full_name: String,
    pub password_hash: String,
    pub role: UserRole,
    pub status: UserStatus,
}

/// A user without an account.
#[derive(Debug, Clone)]
pub struct CreateGhostUserDto {
    pub full_name: String,
}

/// The public profile fields of a user.
#[derive(Debug, Clone)]
pub struct UpdateProfileDto {
    pub full_name: String,
}

/// A new status for a user.
#[derive(Debug, Clone, Copy)]
pub struct UpdateUserStatusDto {
    pub status: UserStatus,
}

/// Filters of a listing of users; a filter that is `None` lets every user through.
#[derive(Debug, Clone, Copy)]
pub struct UserQueryDto {
    pub is_ghost: Option<bool>,
    pub status: Option<UserStatus>,
    pub role: Option<UserRole>,
}

pub const SQL_CREATE_REGISTERED: &'static str =
    "INSERT INTO users (email, username, full_name, password_hash, is_ghost, role, status) VALUES ($1, $2, $3, $4, false, $5, $6) RETURNING id";

pub const SQL_CREATE_GHOST: &'static str = "INSERT INTO users (full_name, is_ghost) VALUES ($1, true) RETURNING id";

pub const SQL_GET: &'static str =
    "SELECT id, email, username, full_name, password_hash, is_ghost, role, status, last_login_at, created_at, updated_at, deleted_at FROM users WHERE id = $1";

pub const SQL_GET_ACTIVE: &'static str =
    "SELECT id, email, username, full_name, password_hash, role, status, last_login_at, created_at, updated_at, deleted_at FROM users WHERE id = $1 AND is_ghost = false AND status = 1";

pub const SQL_SEARCH_ACTIVE: &'static str =
    "SELECT id, email, username, full_name, password_hash, role, status, last_login_at, created_at, updated_at, deleted_at FROM users WHERE username ILIKE $1 AND is_ghost = false AND status = 1 ORDER BY id ASC LIMIT 20";

pub const SQL_COUNT_ALL: &'static str =
    "SELECT COUNT(*) AS total FROM users WHERE ($1::boolean IS NULL OR is_ghost = $1) AND ($2::smallint IS NULL OR status = $2) AND ($3::smallint IS NULL OR role = $3)";

pub const SQL_LIST_ALL: &'static str =
    "SELECT id, email, username, full_name, password_hash, is_ghost, role, status, last_login_at, created_at, updated_at, deleted_at FROM users WHERE ($1::boolean IS NULL OR is_ghost = $1) AND ($2::smallint IS NULL OR status = $2) AND ($3::smallint IS NULL OR role = $3) ORDER BY id ASC LIMIT $4 OFFSET $5";

pub const SQL_UPDATE_PROFILE: &'static str =
    "UPDATE users SET full_name = $1, updated_at = now() WHERE id = $2 AND is_ghost = false";

pub const SQL_UPDATE_USERNAME: &'static str =
    "UPDATE users SET username = $1, updated_at = now() WHERE id = $2 AND is_ghost = false";

pub const SQL_UPDATE_STATUS: &'static str =
    "UPDATE users SET status = $1, deleted_at = CASE WHEN $1 = 1::smallint THEN NULL ELSE deleted_at END, updated_at = now() WHERE id = $2 AND is_ghost = false";

pub const SQL_EMAIL_COUNT: &'static str = "SELECT count(*) FROM users WHERE email = $1";

pub const SQL_USERNAME_COUNT: &'static str = "SELECT count(*) FROM users WHERE username = $1";

pub const SQL_SOFT_DELETE: &'static str =
    "UPDATE users SET status = 2, deleted_at = now(), updated_at = now() WHERE id = $1 AND is_ghost = false";

/// The pattern that finds `term` anywhere in a username.
pub open spec fn contains_pattern(term: Seq<char>) -> Seq<char> {
    seq!['%'] + term + seq!['%']
}

/// The stored number of an optional status.
pub open spec fn status_level(status: Option<UserStatus>) -> Option<i16> {
    match status {
        Some(s) => Some(s.spec_level()),
        None => None,
    }
}

/// The stored number of an optional role.
pub open spec fn role_level(role: Option<UserRole>) -> Option<i16> {
    match role {
        Some(r) => Some(r.spec_level()),
        None => None,
    }
}

/// The values bound by the filters of a listing, in order.
pub open spec fn filter_args(query: UserQueryDto) -> Seq<SqlArgView> {
    seq![
        SqlArgView::OptBool(query.is_ghost),
        SqlArgView::OptI16(status_level(query.status)),
        SqlArgView::OptI16(role_level(query.role)),
    ]
}

fn text_and_id(sql: &str, text: &str, id: i64) -> (q: QueryBuilder)
    ensures
        q.sql@ == sql@,
        q.arg_views() == seq![SqlArgView::Text(text@), SqlArgView::I64(id)],
{
    let mut q = QueryBuilder::new(sql);
    q.args.push(SqlArg::Text(text.to_string()));
    q.args.push(SqlArg::I64(id));
    assert(q.arg_views() =~= seq![SqlArgView::Text(text@), SqlArgView::I64(id)]);
    q
}

fn one_text(sql: &str, text: &str) -> (q: QueryBuilder)
    ensures
        q.sql@ == sql@,
        q.arg_views() == seq![SqlArgView::Text(text@)],
{
    let mut q = QueryBuilder::new(sql);
    q.args.push(SqlArg::Text(text.to_string()));
    assert(q.arg_views() =~= seq![SqlArgView::Text(text@)]);
    q
}

fn one_id(sql: &str, id: i64) -> (q: QueryBuilder)
    ensures
        q.sql@ == sql@,
        q.arg_views() == seq![SqlArgView::I64(id)],
{
    let mut q = QueryBuilder::new(sql);
    q.args.push(SqlArg::I64(id));
    assert(q.arg_views() =~= seq![SqlArgView::I64(id)]);
    q
}

fn opt_status_level(status: Option<UserStatus>) -> (r: Option<i16>)
    ensures
        r == status_level(status),
{
    match status {
        Some(s) => Some(s.level()),
        None => None,
    }
}

fn opt_role_level(role: Option<UserRole>) -> (r: Option<i16>)
    ensures
        r == role_level(role),
{
    match role {
        Some(r) => Some(r.level()),
        None => None,
    }
}

fn push_filter_args(query: &UserQueryDto, q: &mut QueryBuilder)
    ensures
        final(q).sql@ == old(q).sql@,
        final(q).arg_views() == old(q).arg_views() + filter_args(*query),
{
    let ghost before = q.arg_views();
    q.args.push(SqlArg::OptBool(query.is_ghost));
    q.args.push(SqlArg::OptI16(opt_status_level(query.status)));
    q.args.push(SqlArg::OptI16(opt_role_level(query.role)));
    assert(q.arg_views() =~= before + filter_args(*query));
}

impl UserRepository {
    /// Inserts a registered user and returns its id.
    pub fn create_registered(dto: &CreateRegisteredUserDto) -> (q: QueryBuilder)
        ensures
            q.sql@ == SQL_CREATE_REGISTERED@,
            q.arg_views() == seq![
                SqlArgView::Text(dto.email@),
                SqlArgView::Text(dto.username@),
                SqlArgView::Text(dto.full_name@),
                SqlArgView::Text(dto.password_hash@),
                SqlArgView::I16(dto.role.spec_level()),
                SqlArgView::I16(dto.status.spec_level()),
            ],
    {
        let mut q = QueryBuilder::new(SQL_CREATE_REGISTERED);
        q.args.push(SqlArg::Text(dto.email.clone()));
        q.args.push(SqlArg::Text(dto.username.clone()));
        q.args.push(SqlArg::Text(dto.full_name.clone()));
        q.args.push(SqlArg::Text(dto.password_hash.clone()));
        q.args.push(SqlArg::I16(dto.role.level()));
        q.args.push(SqlArg::I16(dto.status.level()));
        assert(q.arg_views() =~= seq![
            SqlArgView::Text(dto.email@),
            SqlArgView::Text(dto.username@),
            SqlArgView::Text(dto.full_name@),
            SqlArgView::Text(dto.password_hash@),
            SqlArgView::I16(dto.role.spec_level()),
            SqlArgView::I16(dto.status.spec_level()),
        ]);
        q
    }

    /// Inserts a ghost user and returns its id.
    pub fn create_ghost(dto: &CreateGhostUserDto) -> (q: QueryBuilder)
        ensures
            q.sql@ == SQL_CREATE_GHOST@,
            q.arg_views() == seq![SqlArgView::Text(dto.full_name@)],
    {
        one_text(SQL_CREATE_GHOST, dto.full_name.as_str())
    }

    /// Reads the user with this id, ghost or not.
    pub fn get(id: i64) -> (q: QueryBuilder)
        ensures
            q.sql@ == SQL_GET@,
            q.arg_views() == seq![SqlArgView::I64(id)],
    {
        one_id(SQL_GET, id)
    }

    /// Reads the active, registered user with this id.
    pub fn get_active(user_id: i64) -> (q: QueryBuilder)
        ensures
            q.sql@ == SQL_GET_ACTIVE@,
            q.arg_views() == seq![SqlArgView::I64(user_id)],
    {
        one_id(SQL_GET_ACTIVE, user_id)
    }

    /// The user that a read by id returned, or `NotFound` for the users
    /// table and this id.
    pub fn user_found<T>(id: i64, row: Option<T>) -> (r: Result<T, RepositoryError>)
        ensures
            match row {
                Some(t) => r matches Ok(u) && u == t,
                None => r matches Err(RepositoryError::NotFound { entity, id: i }) && entity@ == "users"@ && i == id,
            },
    {
        match row {
            Some(user) => Ok(user),
            None => Err(RepositoryError::NotFound { entity: "users", id }),
        }
    }

    /// What the client learns of the user read by id: a ghost user (no
    /// username, e-mail address or role) or a role number that names no role
    /// breaks the schema's promise.
    pub fn login_info(
        id: i64,
        username: Option<String>,
        email: Option<String>,
        role: Option<i16>,
    ) -> (r: Result<LoggedUserInfoVo, RepositoryError>)
        ensures
            match (username, email, role) {
                (Some(u), Some(e), Some(l)) => match UserRole::spec_from_level(l as i64) {
                    Some(rl) => r matches Ok(info) && info.id == id && info.username == u && info.email == e
                        && info.role == rl,
                    None => r matches Err(RepositoryError::ConsistencyViolation(_)),
                },
                _ => r matches Err(RepositoryError::ConsistencyViolation(_)),
            },
    {
        match (username, email, role) {
            (Some(username), Some(email), Some(level)) => match UserRole::from_level(level as i64) {
                Some(role) => Ok(LoggedUserInfoVo { id, username, email, role }),
                None => Err(RepositoryError::ConsistencyViolation(String::from_str("unknown role"))),
            },
            _ => Err(RepositoryError::ConsistencyViolation(String::from_str("user has no account"))),
        }
    }

    /// Finds active, registered users whose username contains `query_term`,
    /// ignoring case: at most twenty, by id.
    pub fn search_active(query_term: &str) -> (q: QueryBuilder)
        ensures
            q.sql@ == SQL_SEARCH_ACTIVE@,
            q.arg_views() == seq![SqlArgView::Text(contains_pattern(query_term@))],
    {
        let mut pattern = String::new();
        push_char(&mut pattern, '%');
        pattern.append(query_term);
        push_char(&mut pattern, '%');
        assert(pattern@ =~= contains_pattern(query_term@));
        let mut q = QueryBuilder::new(SQL_SEARCH_ACTIVE);
        q.args.push(SqlArg::Text(pattern));
        assert(q.arg_views() =~= seq![SqlArgView::Text(contains_pattern(query_term@))]);
        q
    }

    /// Counts the users that pass the filters.
    pub fn count_all(query: &UserQueryDto) -> (q: QueryBuilder)
        ensures
            q.sql@ == SQL_COUNT_ALL@,
            q.arg_views() == filter_args(*query),
    {
        let mut q = QueryBuilder::new(SQL_COUNT_ALL);
        push_filter_args(query, &mut q);
        assert(q.arg_views() =~= filter_args(*query));
        q
    }

    /// Reads one page of the users that pass the filters, by id, once their
    /// number `total` is known: with none, there is nothing to read.
    pub fn list_all(query: &UserQueryDto, limit: i64, offset: i64, total: i64) -> (q: Option<QueryBuilder>)
        ensures
            total == 0 <==> q is None,
            q matches Some(qb) ==> qb.sql@ == SQL_LIST_ALL@
                && qb.arg_views() == filter_args(*query) + seq![SqlArgView::I64(limit), SqlArgView::I64(offset)],
    {
        if total == 0 {
            return None;
        }
        let mut q = QueryBuilder::new(SQL_LIST_ALL);
        push_filter_args(query, &mut q);
        q.args.push(SqlArg::I64(limit));
        q.args.push(SqlArg::I64(offset));
        assert(q.arg_views() =~= filter_args(*query) + seq![SqlArgView::I64(limit), SqlArgView::I64(offset)]);
        Some(q)
    }

    /// Sets the public profile fields of a registered user.
    pub fn update_profile(user_id: i64, dto: &UpdateProfileDto) -> (q: QueryBuilder)
        ensures
            q.sql@ == SQL_UPDATE_PROFILE@,
            q.arg_views() == seq![SqlArgView::Text(dto.full_name@), SqlArgView::I64(user_id)],
    {
        text_and_id(SQL_UPDATE_PROFILE, dto.full_name.as_str(), user_id)
    }

    /// Sets the username of a registered user.
    pub fn update_username(user_id: i64, username: &str) -> (q: QueryBuilder)
        ensures
            q.sql@ == SQL_UPDATE_USERNAME@,
            q.arg_views() == seq![SqlArgView::Text(username@), SqlArgView::I64(user_id)],
    {
        text_and_id(SQL_UPDATE_USERNAME, username, user_id)
    }

    /// Sets the status of a registered user; making it active clears its
    /// deletion mark.
    pub fn update_status(id: i64, dto: &UpdateUserStatusDto) -> (q: QueryBuilder)
        ensures
            q.sql@ == SQL_UPDATE_STATUS@,
            q.arg_views() == seq![SqlArgView::I16(dto.status.spec_level()), SqlArgView::I64(id)],
    {
        let mut q = QueryBuilder::new(SQL_UPDATE_STATUS);
        q.args.push(SqlArg::I16(dto.status.level()));
        q.args.push(SqlArg::I64(id));
        assert(q.arg_views() =~= seq![SqlArgView::I16(dto.status.spec_level()), SqlArgView::I64(id)]);
        q
    }

    /// Counts the users with this e-mail address.
    pub fn email_exists(email: &str) -> (q: QueryBuilder)
        ensures
            q.sql@ == SQL_EMAIL_COUNT@,
            q.arg_views() == seq![SqlArgView::Text(email@)],
    {
        one_text(SQL_EMAIL_COUNT, email)
    }

    /// Counts the users with this username.
    pub fn username_exists(username: &str) -> (q: QueryBuilder)
        ensures
            q.sql@ == SQL_USERNAME_COUNT@,
            q.arg_views() == seq![SqlArgView::Text(username@)],
    {
        one_text(SQL_USERNAME_COUNT, username)
    }

    /// Whether a count (NULL read as zero) found anything.
    pub fn exists_from_count(count: Option<i64>) -> (r: bool)
        ensures
            r == match count {
                Some(c) => c > 0,
                None => false,
            },
    {
        match count {
            Some(c) => c > 0,
            None => false,
        }
    }

    /// Disables a registered user and marks it as deleted.
    pub fn soft_delete(id: i64) -> (q: QueryBuilder)
        ensures
            q.sql@ == SQL_SOFT_DELETE@,
            q.arg_views() == seq![SqlArgView::I64(id)],
    {
        one_id(SQL_SOFT_DELETE, id)
    }
}

/// The user listing and its count bind what they filter on, in the order of
/// the statement's placeholders: the ghost flag as given, then the stored
/// number of the requested status and of the requested role, each of which
/// reads back as that status or role; a filter that is not asked for binds
/// NULL, which lets every row through. The page binds its limit and offset
/// after the filters.
pub proof fn user_listing_binds_the_requested_filters(
    query: UserQueryDto,
    limit: i64,
    offset: i64,
    total: i64,
    count: QueryBuilder,
    page: Option<QueryBuilder>,
)
    requires
        call_ensures(UserRepository::count_all, (&query,), count),
        call_ensures(UserRepository::list_all, (&query, limit, offset, total), page),
    ensures
        count.sql@ == "SELECT COUNT(*) AS total FROM users WHERE ($1::boolean IS NULL OR is_ghost = $1) AND ($2::smallint IS NULL OR status = $2) AND ($3::smallint IS NULL OR role = $3)"@,
        count.arg_views().len() == 3,
        count.arg_views()[0] == SqlArgView::OptBool(query.is_ghost),
        count.arg_views()[1] matches SqlArgView::OptI16(s) && match query.status {
            Some(wanted) => s matches Some(l) && UserStatus::spec_from_level(l as i64) == Some(wanted),
            None => s is None,
        },
        count.arg_views()[2] matches SqlArgView::OptI16(r) && match query.role {
            Some(wanted) => r matches Some(l) && UserRole::spec_from_level(l as i64) == Some(wanted),
            None => r is None,
        },
        page is Some <==> total != 0,
        page matches Some(q) ==> {
            &&& q.sql@ == "SELECT id, email, username, full_name, password_hash, is_ghost, role, status, last_login_at, created_at, updated_at, deleted_at FROM users WHERE ($1::boolean IS NULL OR is_ghost = $1) AND ($2::smallint IS NULL OR status = $2) AND ($3::smallint IS NULL OR role = $3) ORDER BY id ASC LIMIT $4 OFFSET $5"@
            &&& q.arg_views().len() == 5
            &&& q.arg_views().subrange(0, 3) == count.arg_views()
            &&& q.arg_views()[3] == SqlArgView::I64(limit)
            &&& q.arg_views()[4] == SqlArgView::I64(offset)
        },
{
    if let Some(q) = page {
        assert(q.arg_views().subrange(0, 3) =~= count.arg_views());
    }
}

/// A registered user as an insert stores it; the role and status are the
/// ones that the stored numbers read back as.
pub ghost struct RegisteredUserRow {
    pub email: Seq<char>,
    pub username: Seq<char>,
    pub full_name: Seq<char>,
    pub password_hash: Seq<char>,
    pub is_ghost: bool,
    pub role: Option<UserRole>,
    pub status: Option<UserStatus>,
}

/// The row that running an insert of a registered user stores: the values
/// bound to `$1` to `$6` go to the columns in the order that the statement
/// lists them, and the user is not a ghost. `None` for any other statement.
pub open spec fn stored_registered_user(sql: Seq<char>, args: Seq<SqlArgView>) -> Option<RegisteredUserRow> {
    if sql == "INSERT INTO users (email, username, full_name, password_hash, is_ghost, role, status) VALUES ($1, $2, $3, $4, false, $5, $6) RETURNING id"@
        && args.len() == 6 {
        match (args[0], args[1], args[2], args[3], args[4], args[5]) {
            (
                SqlArgView::Text(email),
                SqlArgView::Text(username),
                SqlArgView::Text(full_name),
                SqlArgView::Text(password_hash),
                SqlArgView::I16(role),
                SqlArgView::I16(status),
            ) => Some(
                RegisteredUserRow {
                    email,
                    username,
                    full_name,
                    password_hash,
                    is_ghost: false,
                    role: UserRole::spec_from_level(role as i64),
                    status: UserStatus::spec_from_level(status as i64),
                },
            ),
            _ => None,
        }
    } else {
        None
    }
}

/// Creating a registered user stores a row that holds each field of the
/// request in the column of its name, with the requested role and status.
pub proof fn registered_user_stores_its_fields(dto: CreateRegisteredUserDto, q: QueryBuilder)
    requires
        call_ensures(UserRepository::create_registered, (&dto,), q),
    ensures
        stored_registered_user(q.sql@, q.arg_views()) == Some(
            RegisteredUserRow {
                email: dto.email@,
                username: dto.username@,
                full_name: dto.full_name@,
                password_hash: dto.password_hash@,
                is_ghost: false,
                role: Some(dto.role),
                status: Some(dto.status),
            },
        ),
{
}

} // verus!
