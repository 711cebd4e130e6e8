//! Statements that every table supports: insert, read, update, delete and
//! soft delete by id, and what their results mean.

use vstd::prelude::*;

use crate::error::RepositoryError;
use crate::repository::query::{placeholder, QueryBuilder, SqlArg, SqlArgView};
use crate::time::Timestamp;

verus! {

/// Whether rows of a table are deleted for good or only marked as deleted.
pub trait Deletability {
    spec fn spec_supports_soft_delete() -> bool;

    /// Rows are marked with `deleted_at` instead of being removed, and reads
    /// skip marked rows.
    fn supports_soft_delete() -> (r: bool)
        ensures
            r == Self::spec_supports_soft_delete(),
    ;
}

/// Rows are removed.
pub struct HardDeleteStrategy;

impl Deletability for HardDeleteStrategy {
    open spec fn spec_supports_soft_delete() -> bool {
        false
    }

    fn supports_soft_delete() -> (r: bool) {
        false
    }
}

/// Rows are marked as deleted.
pub struct SoftDeleteStrategy;

impl Deletability for SoftDeleteStrategy {
    open spec fn spec_supports_soft_delete() -> bool {
        true
    }

    fn supports_soft_delete() -> (r: bool) {
        true
    }
}

pub open spec fn where_id(soft: bool, n: nat) -> Seq<char> {
    "WHERE id = "@ + placeholder(n) + if soft { " AND deleted_at IS NULL"@ } else { Seq::<char>::empty() }
}

/// A table of the database.
pub trait DatabaseTable {
    type DeleteStrategy: Deletability;

    spec fn spec_table() -> Seq<char>;

    /// The name of the table.
    fn table() -> (r: &'static str)
        ensures
            r@ == Self::spec_table(),
    ;

    /// Appends the filter on `id`, which also skips rows marked as deleted in
    /// a table that marks them.
    fn push_where(id: i64, query_builder: &mut QueryBuilder)
        requires
            old(query_builder).args@.len() + 1 < u64::MAX,
        ensures
            final(query_builder).sql@ == old(query_builder).sql@ + where_id(
                <Self::DeleteStrategy as Deletability>::spec_supports_soft_delete(),
                old(query_builder).args@.len() + 1,
            ),
            final(query_builder).arg_views() == old(query_builder).arg_views().push(SqlArgView::I64(id)),
    {
        let ghost old_sql = query_builder.sql@;
        let ghost n = query_builder.args@.len() + 1;
        query_builder.push("WHERE id = ");
        query_builder.push_bind(SqlArg::I64(id));
        if <Self::DeleteStrategy as Deletability>::supports_soft_delete() {
            query_builder.push(" AND deleted_at IS NULL");
            assert(query_builder.sql@ =~= old_sql + where_id(true, n));
        } else {
            assert(query_builder.sql@ =~= old_sql + where_id(false, n));
        }
    }
}

/// A value that can be inserted as a row.
pub trait Insertable {
    /// The column list and `VALUES` clause, when `first` values are already bound.
    spec fn insert_sql(&self, first: nat) -> Seq<char>;

    /// The values that the `VALUES` clause binds, in order.
    spec fn insert_args(&self) -> Seq<SqlArgView>;

    fn push_insert(&self, query_builder: &mut QueryBuilder)
        requires
            old(query_builder).args@.len() + self.insert_args().len() < u64::MAX,
        ensures
            final(query_builder).sql@ == old(query_builder).sql@ + self.insert_sql(old(query_builder).args@.len()),
            final(query_builder).arg_views() == old(query_builder).arg_views() + self.insert_args(),
    ;
}

/// A change that can be applied to a row.
pub trait Updatable {
    /// The `SET` assignments (without the word `SET`), when `first` values are already bound.
    spec fn update_sql(&self, first: nat) -> Seq<char>;

    /// The values that the assignments bind, in order.
    spec fn update_args(&self) -> Seq<SqlArgView>;

    fn push_update(&self, query_builder: &mut QueryBuilder)
        requires
            old(query_builder).args@.len() + self.update_args().len() < u64::MAX,
        ensures
            final(query_builder).sql@ == old(query_builder).sql@ + self.update_sql(old(query_builder).args@.len()),
            final(query_builder).arg_views() == old(query_builder).arg_views() + self.update_args(),
    ;
}

/// Inserts `dto` and returns the id of the new row.
pub fn create<R: DatabaseTable, D: Insertable>(dto: &D) -> (q: QueryBuilder)
    requires
        dto.insert_args().len() < u64::MAX,
    ensures
        q.sql@ == "INSERT INTO "@ + R::spec_table() + " "@ + dto.insert_sql(0) + " RETURNING id"@,
        q.arg_views() == dto.insert_args(),
{
    let mut query_builder = QueryBuilder::new("INSERT INTO ");
    query_builder.push(R::table());
    query_builder.push(" ");
    dto.push_insert(&mut query_builder);
    query_builder.push(" RETURNING id");
    assert(query_builder.arg_views() =~= dto.insert_args());
    query_builder
}

/// Reads the row with this id (a row marked as deleted does not count).
pub fn get<R: DatabaseTable>(id: i64) -> (q: QueryBuilder)
    ensures
        q.sql@ == "SELECT * FROM "@ + R::spec_table() + " "@
            + where_id(<R::DeleteStrategy as Deletability>::spec_supports_soft_delete(), 1),
        q.arg_views() == seq![SqlArgView::I64(id)],
{
    let mut query_builder = QueryBuilder::new("SELECT * FROM ");
    query_builder.push(R::table());
    query_builder.push(" ");
    R::push_where(id, &mut query_builder);
    assert(query_builder.arg_views() =~= seq![SqlArgView::I64(id)]);
    query_builder
}

/// Applies `dto` to the row with this id and returns the id.
pub fn update<R: DatabaseTable, D: Updatable>(id: i64, dto: &D) -> (q: QueryBuilder)
    requires
        dto.update_args().len() + 2 < u64::MAX,
    ensures
        q.sql@ == "UPDATE "@ + R::spec_table() + " SET "@ + dto.update_sql(0) + " "@
            + where_id(<R::DeleteStrategy as Deletability>::spec_supports_soft_delete(), dto.update_args().len() + 1)
            + " RETURNING id"@,
        q.arg_views() == dto.update_args().push(SqlArgView::I64(id)),
{
    let mut query_builder = QueryBuilder::new("UPDATE ");
    query_builder.push(R::table());
    query_builder.push(" SET ");
    dto.push_update(&mut query_builder);
    query_builder.push(" ");
    R::push_where(id, &mut query_builder);
    query_builder.push(" RETURNING id");
    assert(query_builder.arg_views() =~= dto.update_args().push(SqlArgView::I64(id)));
    query_builder
}

/// Removes the live row with this id and returns the ids removed: in a
/// table that marks deleted rows, a row already marked is not removed.
pub fn delete<R: DatabaseTable>(id: i64) -> (q: QueryBuilder)
    ensures
        q.sql@ == "DELETE FROM "@ + R::spec_table() + " "@
            + where_id(<R::DeleteStrategy as Deletability>::spec_supports_soft_delete(), 1) + " RETURNING id"@,
        q.arg_views() == seq![SqlArgView::I64(id)],
{
    let mut query_builder = QueryBuilder::new("DELETE FROM ");
    query_builder.push(R::table());
    query_builder.push(" ");
    R::push_where(id, &mut query_builder);
    query_builder.push(" RETURNING id");
    assert(query_builder.arg_views() =~= seq![SqlArgView::I64(id)]);
    query_builder
}

/// Marks the row with this id as deleted at `now`, unless it already is,
/// and returns the ids marked.
pub fn soft_delete<R: DatabaseTable>(id: i64, now: Timestamp) -> (q: QueryBuilder)
    requires
        <R::DeleteStrategy as Deletability>::spec_supports_soft_delete(),
    ensures
        q.sql@ == "UPDATE "@ + R::spec_table() + " SET "@ + "deleted_at = "@ + placeholder(1) + " "@
            + where_id(true, 2) + " RETURNING id"@,
        q.arg_views() == seq![SqlArgView::Timestamp(now), SqlArgView::I64(id)],
{
    let mut query_builder = QueryBuilder::new("UPDATE ");
    query_builder.push(R::table());
    query_builder.push(" SET ");
    query_builder.push("deleted_at = ");
    query_builder.push_bind(SqlArg::Timestamp(now));
    query_builder.push(" ");
    R::push_where(id, &mut query_builder);
    query_builder.push(" RETURNING id");
    assert(query_builder.arg_views() =~= seq![SqlArgView::Timestamp(now), SqlArgView::I64(id)]);
    query_builder
}

/// The filter that skips rows marked as deleted, in a table that marks them.
pub open spec fn live_filter(soft: bool) -> Seq<char> {
    if soft { " AND deleted_at IS NULL"@ } else { Seq::<char>::empty() }
}

/// Whether a row has `value` in `column`; in a table that marks deleted
/// rows, only a row not marked counts.
pub fn exists_by_column<R: DatabaseTable>(column: &str, value: &str) -> (q: QueryBuilder)
    ensures
        q.sql@ == "SELECT EXISTS(SELECT 1 FROM "@ + R::spec_table() + " WHERE "@ + column@ + " = $1"@
            + live_filter(<R::DeleteStrategy as Deletability>::spec_supports_soft_delete()) + ")"@,
        q.arg_views() == seq![SqlArgView::Text(value@)],
{
    let mut query_builder = QueryBuilder::new("SELECT EXISTS(SELECT 1 FROM ");
    query_builder.push(R::table());
    query_builder.push(" WHERE ");
    query_builder.push(column);
    query_builder.push(" = $1");
    let ghost before = query_builder.sql@;
    if <R::DeleteStrategy as Deletability>::supports_soft_delete() {
        query_builder.push(" AND deleted_at IS NULL");
    } else {
        assert(query_builder.sql@ =~= before + Seq::<char>::empty());
    }
    query_builder.push(")");
    query_builder.args.push(SqlArg::Text(String::from_str(value)));
    assert(query_builder.arg_views() =~= seq![SqlArgView::Text(value@)]);
    query_builder
}

/// The row that a read by id returned, or `NotFound` for the table and id.
pub fn found<R: DatabaseTable, T>(id: i64, row: Option<T>) -> (r: Result<T, RepositoryError>)
    ensures
        match row {
            Some(t) => r == Ok::<T, RepositoryError>(t),
            None => r matches Err(RepositoryError::NotFound { entity, id: i }) && entity@ == R::spec_table() && i == id,
        },
{
    match row {
        Some(entity) => Ok(entity),
        None => Err(RepositoryError::NotFound { entity: R::table(), id }),
    }
}

/// The outcome of a delete by id from the ids it removed: none means the row
/// was not there.
pub fn deleted<R: DatabaseTable>(id: i64, ids: Vec<i64>) -> (r: Result<(), RepositoryError>)
    ensures
        ids@.len() > 0 ==> r is Ok,
        ids@.len() == 0 ==> (r matches Err(RepositoryError::NotFound { entity, id: i }) && entity@ == R::spec_table() && i == id),
{
    if ids.len() == 0 {
        Err(RepositoryError::NotFound { entity: R::table(), id })
    } else {
        Ok(())
    }
}

} // verus!
