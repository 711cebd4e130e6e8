//! Statements on the table of refresh tokens.

use vstd::prelude::*;

use crate::error::RepositoryError;
use crate::model::{CreateRefreshTokenDto, RefreshTokenEntity};
use crate::repository::ops::{self, DatabaseTable, HardDeleteStrategy, Insertable};
use crate::repository::query::{placeholder, QueryBuilder, SqlArg, SqlArgView};
use crate::time::Timestamp;

verus! {

/// Repository of refresh tokens.
pub struct TokenRepository;

// The refresh-token table must not be soft deleted: reads by hash and family
// revocation rely on revoked rows staying visible.
impl DatabaseTable for TokenRepository {
    type DeleteStrategy = HardDeleteStrategy;

    open spec fn spec_table() -> Seq<char> {
        "refresh_tokens"@
    }

    fn table() -> (r: &'static str) {
        "refresh_tokens"
    }
}

/// A row of the refresh-token table.
pub ghost struct TokenRow {
    pub id: i64,
    pub user_id: i64,
    pub family_id: u128,
    pub token_hash: Seq<u8>,
    pub is_revoked: bool,
    pub expires_at: Timestamp,
}

/// The row that a read of the table handed back as `entity`.
pub open spec fn row_of(entity: RefreshTokenEntity) -> TokenRow {
    TokenRow {
        id: entity.id,
        user_id: entity.user_id,
        family_id: entity.family_id,
        token_hash: entity.token_hash@,
        is_revoked: entity.is_revoked,
        expires_at: entity.expires_at,
    }
}

/// What running a statement of this repository does to the rows of the
/// table: `None` for a statement that it does not make. An update sets
/// `is_revoked` to the bound value on the rows that match; an insert appends
/// a live row under `new_id`, the id that the table gives it; a read changes
/// nothing.
pub open spec fn statement_effect(
    rows: Seq<TokenRow>,
    sql: Seq<char>,
    args: Seq<SqlArgView>,
    new_id: i64,
) -> Option<Seq<TokenRow>> {
    if sql == "UPDATE refresh_tokens SET is_revoked = $1 WHERE id = $2 RETURNING id"@ && args.len() == 2 {
        match (args[0], args[1]) {
            (SqlArgView::Bool(value), SqlArgView::I64(id)) => Some(
                Seq::new(rows.len(), |i: int| if rows[i].id == id { TokenRow { is_revoked: value, ..rows[i] } } else { rows[i] }),
            ),
            _ => None,
        }
    } else if sql == "UPDATE refresh_tokens SET is_revoked = $1 WHERE family_id = $2"@ && args.len() == 2 {
        match (args[0], args[1]) {
            (SqlArgView::Bool(value), SqlArgView::Uuid(family_id)) => Some(
                Seq::new(
                    rows.len(),
                    |i: int| if rows[i].family_id == family_id { TokenRow { is_revoked: value, ..rows[i] } } else { rows[i] },
                ),
            ),
            _ => None,
        }
    } else if sql == "INSERT INTO refresh_tokens (user_id, family_id, token_hash, expires_at) VALUES ($1, $2, $3, $4) RETURNING id"@
        && args.len() == 4 {
        match (args[0], args[1], args[2], args[3]) {
            (SqlArgView::I64(user_id), SqlArgView::Uuid(family_id), SqlArgView::Bytes(token_hash), SqlArgView::Timestamp(expires_at)) => Some(
                rows.push(TokenRow { id: new_id, user_id, family_id, token_hash, is_revoked: false, expires_at }),
            ),
            _ => None,
        }
    } else if sql == "SELECT * FROM refresh_tokens WHERE token_hash = $1"@ && args.len() == 1 && args[0] is Bytes {
        Some(rows)
    } else {
        None
    }
}

/// The statement that stores a token, spelled out.
pub proof fn lemma_store_statement_text(dto: CreateRefreshTokenDto)
    ensures
        "INSERT INTO "@ + TokenRepository::spec_table() + " "@ + dto.insert_sql(0) + " RETURNING id"@
            == "INSERT INTO refresh_tokens (user_id, family_id, token_hash, expires_at) VALUES ($1, $2, $3, $4) RETURNING id"@,
{
    reveal_strlit("INSERT INTO ");
    reveal_strlit("refresh_tokens");
    reveal_strlit(" ");
    reveal_strlit("(user_id, family_id, token_hash, expires_at) VALUES (");
    reveal_strlit(", ");
    reveal_strlit(")");
    reveal_strlit(" RETURNING id");
    reveal_strlit("INSERT INTO refresh_tokens (user_id, family_id, token_hash, expires_at) VALUES ($1, $2, $3, $4) RETURNING id");
    assert(placeholder(1) =~= seq!['$', '1']);
    assert(placeholder(2) =~= seq!['$', '2']);
    assert(placeholder(3) =~= seq!['$', '3']);
    assert(placeholder(4) =~= seq!['$', '4']);
    assert("INSERT INTO "@ + TokenRepository::spec_table() + " "@ + dto.insert_sql(0) + " RETURNING id"@
        =~= "INSERT INTO refresh_tokens (user_id, family_id, token_hash, expires_at) VALUES ($1, $2, $3, $4) RETURNING id"@);
}

/// Copies a byte vector.
fn copy_bytes(v: &Vec<u8>) -> (r: Vec<u8>)
    ensures
        r@ == v@,
{
    let mut r: Vec<u8> = Vec::new();
    let mut i: usize = 0;
    while i < v.len()
        invariant
            i <= v@.len(),
            r@ == v@.subrange(0, i as int),
        decreases v@.len() - i,
    {
        r.push(v[i]);
        i = i + 1;
        assert(r@ =~= v@.subrange(0, i as int));
    }
    assert(v@.subrange(0, v@.len() as int) =~= v@);
    r
}

impl Insertable for CreateRefreshTokenDto {
    open spec fn insert_sql(&self, first: nat) -> Seq<char> {
        "(user_id, family_id, token_hash, expires_at) VALUES ("@ + placeholder(first + 1) + ", "@
            + placeholder(first + 2) + ", "@ + placeholder(first + 3) + ", "@ + placeholder(first + 4) + ")"@
    }

    open spec fn insert_args(&self) -> Seq<SqlArgView> {
        seq![
            SqlArgView::I64(self.user_id),
            SqlArgView::Uuid(self.family_id),
            SqlArgView::Bytes(self.token_hash@),
            SqlArgView::Timestamp(self.expires_at),
        ]
    }

    fn push_insert(&self, query_builder: &mut QueryBuilder) {
        let ghost old_sql = query_builder.sql@;
        let ghost old_args = query_builder.arg_views();
        let ghost n = query_builder.args@.len();
        query_builder.push("(user_id, family_id, token_hash, expires_at) VALUES (");
        query_builder.push_bind(SqlArg::I64(self.user_id));
        query_builder.push(", ");
        query_builder.push_bind(SqlArg::Uuid(self.family_id));
        query_builder.push(", ");
        query_builder.push_bind(SqlArg::Bytes(copy_bytes(&self.token_hash)));
        query_builder.push(", ");
        query_builder.push_bind(SqlArg::Timestamp(self.expires_at));
        query_builder.push(")");
        assert(query_builder.sql@ =~= old_sql + self.insert_sql(n));
        assert(query_builder.arg_views() =~= old_args + self.insert_args());
    }
}

impl TokenRepository {
    /// Reads the token stored under this hash.
    pub fn get_by_hash(hash: &[u8]) -> (q: QueryBuilder)
        ensures
            q.sql@ == "SELECT * FROM refresh_tokens WHERE token_hash = $1"@,
            q.arg_views() == seq![SqlArgView::Bytes(hash@)],
    {
        let mut query_builder = QueryBuilder::new("SELECT * FROM refresh_tokens WHERE token_hash = $1");
        let mut bytes: Vec<u8> = Vec::new();
        bytes.extend_from_slice(hash);
        assert(bytes@ =~= hash@);
        query_builder.args.push(SqlArg::Bytes(bytes));
        assert(query_builder.arg_views() =~= seq![SqlArgView::Bytes(hash@)]);
        query_builder
    }

    /// Revokes every token of the family.
    pub fn revoke_family(family_id: u128) -> (q: QueryBuilder)
        ensures
            q.sql@ == "UPDATE refresh_tokens SET is_revoked = $1 WHERE family_id = $2"@,
            q.arg_views() == seq![SqlArgView::Bool(true), SqlArgView::Uuid(family_id)],
    {
        let mut query_builder = QueryBuilder::new("UPDATE refresh_tokens SET is_revoked = $1 WHERE family_id = $2");
        query_builder.args.push(SqlArg::Bool(true));
        query_builder.args.push(SqlArg::Uuid(family_id));
        assert(query_builder.arg_views() =~= seq![SqlArgView::Bool(true), SqlArgView::Uuid(family_id)]);
        query_builder
    }

    /// Revokes the token with this id and returns its id.
    pub fn revoke(id: i64) -> (q: QueryBuilder)
        ensures
            q.sql@ == "UPDATE refresh_tokens SET is_revoked = $1 WHERE id = $2 RETURNING id"@,
            q.arg_views() == seq![SqlArgView::Bool(true), SqlArgView::I64(id)],
    {
        let mut query_builder = QueryBuilder::new("UPDATE refresh_tokens SET is_revoked = $1 WHERE id = $2 RETURNING id");
        query_builder.args.push(SqlArg::Bool(true));
        query_builder.args.push(SqlArg::I64(id));
        assert(query_builder.arg_views() =~= seq![SqlArgView::Bool(true), SqlArgView::I64(id)]);
        query_builder
    }

    /// The outcome of revoking the token `id`: the id it returned, or
    /// `NotFound` when there was no such token.
    pub fn revoked(id: i64, returned: Option<i64>) -> (r: Result<i64, RepositoryError>)
        ensures
            match returned {
                Some(i) => r == Ok::<i64, RepositoryError>(i),
                None => r matches Err(RepositoryError::NotFound { entity, id: i }) && entity@ == "refresh_tokens"@ && i == id,
            },
    {
        match returned {
            Some(ret_id) => Ok(ret_id),
            None => Err(RepositoryError::NotFound { entity: Self::table(), id }),
        }
    }

    /// Rotation, to run in one transaction: first revoke the old token (a
    /// missing one aborts the rotation), then store the new one.
    pub fn rotate(dto: &CreateRefreshTokenDto, old_token_id: i64) -> (r: (QueryBuilder, QueryBuilder))
        ensures
            r.0.sql@ == "UPDATE refresh_tokens SET is_revoked = $1 WHERE id = $2 RETURNING id"@,
            r.0.arg_views() == seq![SqlArgView::Bool(true), SqlArgView::I64(old_token_id)],
            r.1.sql@ == "INSERT INTO "@ + Self::spec_table() + " "@ + dto.insert_sql(0) + " RETURNING id"@,
            r.1.arg_views() == dto.insert_args(),
    {
        (Self::revoke(old_token_id), ops::create::<TokenRepository, CreateRefreshTokenDto>(dto))
    }
}

} // verus!
