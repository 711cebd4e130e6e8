//! Statements by id on tables that are always deleted for good.

use vstd::prelude::*;

use crate::error::RepositoryError;
use crate::repository::query::{placeholder, QueryBuilder, SqlArg, SqlArgView};

pub use crate::repository::ops::{Insertable, Updatable};

verus! {

/// A table whose rows are read, updated and deleted by id.
pub trait Crud {
    spec fn spec_table() -> Seq<char>;

    /// The name of the table.
    fn table() -> (r: &'static str)
        ensures
            r@ == Self::spec_table(),
    ;
}

/// Inserts `dto` and returns the id of the new row.
pub fn create<R: Crud, D: Insertable>(dto: &D) -> (q: QueryBuilder)
    requires
        dto.insert_args().len() < u64::MAX,
    ensures
        q.sql@ == "INSERT INTO "@ + R::spec_table() + " "@ + dto.insert_sql(0) + " RETURNING id"@,
        q.arg_views() == dto.insert_args(),
{
    let mut query_builder = QueryBuilder::new("INSERT INTO ");
    query_builder.push(R::table());
    query_builder.push(" ");
    dto.push_insert(&mut query_builder);
    query_builder.push(" RETURNING id");
    assert(query_builder.arg_views() =~= dto.insert_args());
    query_builder
}

/// Reads the row with this id.
pub fn get<R: Crud>(id: i64) -> (q: QueryBuilder)
    ensures
        q.sql@ == "SELECT * FROM "@ + R::spec_table() + " WHERE id = "@ + placeholder(1),
        q.arg_views() == seq![SqlArgView::I64(id)],
{
    let mut query_builder = QueryBuilder::new("SELECT * FROM ");
    query_builder.push(R::table());
    query_builder.push(" WHERE id = ");
    query_builder.push_bind(SqlArg::I64(id));
    assert(query_builder.arg_views() =~= seq![SqlArgView::I64(id)]);
    query_builder
}

/// Applies `dto` to the row with this id and returns the id.
pub fn update<R: Crud, D: Updatable>(id: i64, dto: &D) -> (q: QueryBuilder)
    requires
        dto.update_args().len() + 1 < u64::MAX,
    ensures
        q.sql@ == "UPDATE "@ + R::spec_table() + " SET "@ + dto.update_sql(0) + " WHERE id = "@
            + placeholder(dto.update_args().len() + 1) + " RETURNING id"@,
        q.arg_views() == dto.update_args().push(SqlArgView::I64(id)),
{
    let mut query_builder = QueryBuilder::new("UPDATE ");
    query_builder.push(R::table());
    query_builder.push(" SET ");
    dto.push_update(&mut query_builder);
    query_builder.push(" WHERE id = ");
    query_builder.push_bind(SqlArg::I64(id));
    query_builder.push(" RETURNING id");
    assert(query_builder.arg_views() =~= dto.update_args().push(SqlArgView::I64(id)));
    query_builder
}

/// Removes the row with this id and returns the ids removed.
pub fn delete<R: Crud>(id: i64) -> (q: QueryBuilder)
    ensures
        q.sql@ == "DELETE FROM "@ + R::spec_table() + " WHERE id = "@ + placeholder(1) + " RETURNING id"@,
        q.arg_views() == seq![SqlArgView::I64(id)],
{
    let mut query_builder = QueryBuilder::new("DELETE FROM ");
    query_builder.push(R::table());
    query_builder.push(" WHERE id = ");
    query_builder.push_bind(SqlArg::I64(id));
    query_builder.push(" RETURNING id");
    assert(query_builder.arg_views() =~= seq![SqlArgView::I64(id)]);
    query_builder
}

/// The row that a read by id returned, or `NotFound` for the table and id.
pub fn found<R: Crud, T>(id: i64, row: Option<T>) -> (r: Result<T, RepositoryError>)
    ensures
        match row {
            Some(t) => r == Ok::<T, RepositoryError>(t),
            None => r matches Err(RepositoryError::NotFound { entity, id: i }) && entity@ == R::spec_table() && i == id,
        },
{
    match row {
        Some(entity) => Ok(entity),
        None => Err(RepositoryError::NotFound { entity: R::table(), id }),
    }
}

/// The outcome of a delete by id from the ids it removed: none means the row
/// was not there.
pub fn deleted<R: Crud>(id: i64, ids: Vec<i64>) -> (r: Result<(), RepositoryError>)
    ensures
        ids@.len() > 0 ==> r is Ok,
        ids@.len() == 0 ==> (r matches Err(RepositoryError::NotFound { entity, id: i }) && entity@ == R::spec_table() && i == id),
{
    if ids.len() == 0 {
        Err(RepositoryError::NotFound { entity: R::table(), id })
    } else {
        Ok(())
    }
}

} // verus!
