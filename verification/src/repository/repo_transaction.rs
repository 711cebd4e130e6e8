//! Statements on the table of transactions.

use vstd::prelude::*;
use vstd::string::*;

use crate::repository::crud::{self, Crud, Insertable, Updatable};
use crate::repository::query::{placeholder, QueryBuilder, SqlArg, SqlArgView};
use crate::text::{is_blank, spec_is_blank};

verus! {

/// An amount of money in a currency.
#[derive(Debug, Clone)]
pub struct MoneyDto {
    pub amount: i64,
    pub currency: String,
}

/// A transaction to be stored.
#[derive(Debug, Clone)]
pub struct CreateTransactionDto {
    pub cid: i64,
    pub title: String,
    pub value: MoneyDto,
}

/// A change to a transaction: the fields that are present are set.
#[derive(Debug, Clone)]
pub struct UpdateTransactionDto {
    pub title: Option<String>,
    pub value: Option<MoneyDto>,
}

/// Filters of a transaction listing.
#[derive(Debug, Clone)]
pub struct TransactionQueryDto {
    pub cid: Option<i64>,
    pub title: Option<String>,
}

/// Repository of transactions.
pub struct TransactionRepository;

impl Crud for TransactionRepository {
    open spec fn spec_table() -> Seq<char> {
        "transaction"@
    }

    fn table() -> (r: &'static str) {
        "transaction"
    }
}

/// The title filter applies: a title is given and is not blank.
pub open spec fn filters_title(query: TransactionQueryDto) -> bool {
    query.title matches Some(t) && !spec_is_blank(t@)
}

/// The conditions that the filters add, when `first` values are already bound.
pub open spec fn filter_sql(query: TransactionQueryDto, first: nat) -> Seq<char> {
    let cid_part = if query.cid is Some { " AND cid = "@ + placeholder(first + 1) } else { Seq::<char>::empty() };
    let next = if query.cid is Some { first + 1 } else { first };
    let title_part = if filters_title(query) { " AND title ILIKE "@ + placeholder(next + 1) } else { Seq::<char>::empty() };
    cid_part + title_part
}

/// The values that the filters bind: the customer id, then the title
/// between `%` wildcards.
pub open spec fn filter_args(query: TransactionQueryDto) -> Seq<SqlArgView> {
    let cid_part = match query.cid {
        Some(cid) => seq![SqlArgView::I64(cid)],
        None => Seq::<SqlArgView>::empty(),
    };
    let title_part = if filters_title(query) {
        seq![SqlArgView::Text(seq!['%'] + query.title->Some_0@ + seq!['%'])]
    } else {
        Seq::<SqlArgView>::empty()
    };
    cid_part + title_part
}

impl TransactionRepository {
    /// Appends the conditions of the filters.
    pub fn format_query(query: &TransactionQueryDto, query_builder: &mut QueryBuilder)
        requires
            old(query_builder).args@.len() + 2 < u64::MAX,
        ensures
            final(query_builder).sql@ == old(query_builder).sql@ + filter_sql(*query, old(query_builder).args@.len()),
            final(query_builder).arg_views() == old(query_builder).arg_views() + filter_args(*query),
    {
        let ghost old_sql = query_builder.sql@;
        let ghost old_args = query_builder.arg_views();
        let ghost n = query_builder.args@.len();
        if let Some(cid) = query.cid {
            query_builder.push(" AND cid = ");
            query_builder.push_bind(SqlArg::I64(cid));
        }
        let ghost mid_sql = query_builder.sql@;
        let ghost mid_args = query_builder.arg_views();
        if let Some(title) = &query.title {
            if !is_blank(title.as_str()) {
                proof {
                    reveal_strlit("%");
                }
                let mut pattern = String::from_str("%");
                pattern.append(title.as_str());
                pattern.append("%");
                assert(pattern@ =~= seq!['%'] + title@ + seq!['%']);
                query_builder.push(" AND title ILIKE ");
                query_builder.push_bind(SqlArg::Text(pattern));
            }
        }
        assert(query_builder.sql@ =~= old_sql + filter_sql(*query, n));
        assert(query_builder.arg_views() =~= old_args + filter_args(*query));
    }

    /// Counts the transactions that match the filters.
    pub fn count_transactions(query: &TransactionQueryDto) -> (q: QueryBuilder)
        ensures
            q.sql@ == "SELECT COUNT(*) FROM transaction WHERE 1=1"@ + filter_sql(*query, 0),
            q.arg_views() == filter_args(*query),
    {
        let mut query_builder = QueryBuilder::new("SELECT COUNT(*) FROM transaction WHERE 1=1");
        Self::format_query(query, &mut query_builder);
        assert(query_builder.arg_views() =~= filter_args(*query));
        query_builder
    }

    /// Lists one page of the transactions that match the filters, newest
    /// first, once their number `total` is known. With none, there is nothing
    /// to read and the page is empty.
    pub fn list_with_pagination(offset: i64, limit: i64, query: &TransactionQueryDto, total: i64) -> (q: Option<QueryBuilder>)
        ensures
            total == 0 <==> q is None,
            q matches Some(qb) ==> {
                let k = filter_args(*query).len();
                &&& qb.sql@ == "SELECT * FROM transaction WHERE 1=1"@ + filter_sql(*query, 0)
                    + " ORDER BY created_at DESC"@ + " LIMIT "@ + placeholder(k + 1) + " OFFSET "@ + placeholder(k + 2)
                &&& qb.arg_views() == filter_args(*query) + seq![SqlArgView::I64(limit), SqlArgView::I64(offset)]
            },
    {
        if total == 0 {
            return None;
        }
        let mut query_builder = QueryBuilder::new("SELECT * FROM transaction WHERE 1=1");
        Self::format_query(query, &mut query_builder);
        let ghost after_filter = query_builder.sql@;
        query_builder.push(" ORDER BY created_at DESC");
        query_builder.push(" LIMIT ");
        query_builder.push_bind(SqlArg::I64(limit));
        query_builder.push(" OFFSET ");
        query_builder.push_bind(SqlArg::I64(offset));
        assert(query_builder.arg_views() =~= filter_args(*query) + seq![SqlArgView::I64(limit), SqlArgView::I64(offset)]);
        Some(query_builder)
    }
}

impl Insertable for CreateTransactionDto {
    open spec fn insert_sql(&self, first: nat) -> Seq<char> {
        "(cid, title, amount, currency) VALUES ("@ + placeholder(first + 1) + ", "@ + placeholder(first + 2)
            + ", "@ + placeholder(first + 3) + ", "@ + placeholder(first + 4) + ")"@
    }

    open spec fn insert_args(&self) -> Seq<SqlArgView> {
        seq![
            SqlArgView::I64(self.cid),
            SqlArgView::Text(self.title@),
            SqlArgView::I64(self.value.amount),
            SqlArgView::Text(self.value.currency@),
        ]
    }

    fn push_insert(&self, query_builder: &mut QueryBuilder) {
        let ghost old_sql = query_builder.sql@;
        let ghost old_args = query_builder.arg_views();
        let ghost n = query_builder.args@.len();
        query_builder.push("(cid, title, amount, currency) VALUES (");
        query_builder.push_bind(SqlArg::I64(self.cid));
        query_builder.push(", ");
        query_builder.push_bind(SqlArg::Text(self.title.clone()));
        query_builder.push(", ");
        query_builder.push_bind(SqlArg::I64(self.value.amount));
        query_builder.push(", ");
        query_builder.push_bind(SqlArg::Text(self.value.currency.clone()));
        query_builder.push(")");
        assert(query_builder.sql@ =~= old_sql + self.insert_sql(n));
        assert(query_builder.arg_views() =~= old_args + self.insert_args());
    }
}

impl Updatable for UpdateTransactionDto {
    open spec fn update_sql(&self, first: nat) -> Seq<char> {
        let title_part = if self.title is Some { "title = "@ + placeholder(first + 1) } else { Seq::<char>::empty() };
        let next = if self.title is Some { first + 1 } else { first };
        let value_part = if self.value is Some {
            (if self.title is Some { ", "@ } else { Seq::<char>::empty() }) + "amount = "@ + placeholder(next + 1)
                + ", "@ + "currency = "@ + placeholder(next + 2)
        } else {
            Seq::<char>::empty()
        };
        title_part + value_part
    }

    open spec fn update_args(&self) -> Seq<SqlArgView> {
        let title_part = match self.title {
            Some(t) => seq![SqlArgView::Text(t@)],
            None => Seq::<SqlArgView>::empty(),
        };
        let value_part = match self.value {
            Some(v) => seq![SqlArgView::I64(v.amount), SqlArgView::Text(v.currency@)],
            None => Seq::<SqlArgView>::empty(),
        };
        title_part + value_part
    }

    fn push_update(&self, b: &mut QueryBuilder) {
        let ghost old_sql = b.sql@;
        let ghost old_args = b.arg_views();
        let ghost n = b.args@.len();
        let mut first = true;
        if let Some(title) = &self.title {
            if !first {
                b.push(", ");
            }
            b.push("title = ");
            b.push_bind(SqlArg::Text(title.clone()));
            first = false;
        }
        if let Some(value) = &self.value {
            if !first {
                b.push(", ");
            }
            b.push("amount = ");
            b.push_bind(SqlArg::I64(value.amount));
            b.push(", ");
            b.push("currency = ");
            b.push_bind(SqlArg::Text(value.currency.clone()));
            first = false;
        }
        assert(b.sql@ =~= old_sql + self.update_sql(n));
        assert(b.arg_views() =~= old_args + self.update_args());
    }
}

/// A row of the transaction table, as an insert stores it.
pub ghost struct TransactionRow {
    pub cid: i64,
    pub title: Seq<char>,
    pub amount: i64,
    pub currency: Seq<char>,
}

/// The row that running an insert into the transaction table stores: the
/// values bound to `$1` to `$4` go to the columns in the order that the
/// statement lists them. `None` for any other statement.
pub open spec fn stored_row(sql: Seq<char>, args: Seq<SqlArgView>) -> Option<TransactionRow> {
    if sql == "INSERT INTO transaction (cid, title, amount, currency) VALUES ($1, $2, $3, $4) RETURNING id"@
        && args.len() == 4 {
        match (args[0], args[1], args[2], args[3]) {
            (SqlArgView::I64(cid), SqlArgView::Text(title), SqlArgView::I64(amount), SqlArgView::Text(currency)) => Some(
                TransactionRow { cid, title, amount, currency },
            ),
            _ => None,
        }
    } else {
        None
    }
}

/// Creating a transaction stores a row that holds each field of the request
/// in the column of its name: the customer id, the title, and the amount and
/// currency of its value.
pub proof fn created_transaction_stores_its_fields(dto: CreateTransactionDto, q: QueryBuilder)
    requires
        call_ensures(crud::create::<TransactionRepository, CreateTransactionDto>, (&dto,), q),
    ensures
        stored_row(q.sql@, q.arg_views()) == Some(
            TransactionRow { cid: dto.cid, title: dto.title@, amount: dto.value.amount, currency: dto.value.currency@ },
        ),
{
    reveal_strlit("INSERT INTO ");
    reveal_strlit("transaction");
    reveal_strlit(" ");
    reveal_strlit("(cid, title, amount, currency) VALUES (");
    reveal_strlit(", ");
    reveal_strlit(")");
    reveal_strlit(" RETURNING id");
    reveal_strlit("INSERT INTO transaction (cid, title, amount, currency) VALUES ($1, $2, $3, $4) RETURNING id");
    assert(placeholder(1) =~= seq!['$', '1']);
    assert(placeholder(2) =~= seq!['$', '2']);
    assert(placeholder(3) =~= seq!['$', '3']);
    assert(placeholder(4) =~= seq!['$', '4']);
    assert("INSERT INTO "@ + TransactionRepository::spec_table() + " "@ + dto.insert_sql(0) + " RETURNING id"@
        =~= "INSERT INTO transaction (cid, title, amount, currency) VALUES ($1, $2, $3, $4) RETURNING id"@);
}

/// What an update of the transaction table sets, and on which row: a new
/// title, a new amount with its currency, or both.
pub ghost struct TransactionUpdate {
    pub id: i64,
    pub title: Option<Seq<char>>,
    pub value: Option<(i64, Seq<char>)>,
}

/// What running an update of the transaction table does: each value bound
/// goes to the column that the statement names for its placeholder, and the
/// last one picks the row. `None` for any other statement.
pub open spec fn applied_update(sql: Seq<char>, args: Seq<SqlArgView>) -> Option<TransactionUpdate> {
    if sql == "UPDATE transaction SET title = $1 WHERE id = $2 RETURNING id"@ && args.len() == 2 {
        match (args[0], args[1]) {
            (SqlArgView::Text(title), SqlArgView::I64(id)) => Some(TransactionUpdate { id, title: Some(title), value: None }),
            _ => None,
        }
    } else if sql == "UPDATE transaction SET amount = $1, currency = $2 WHERE id = $3 RETURNING id"@ && args.len() == 3 {
        match (args[0], args[1], args[2]) {
            (SqlArgView::I64(amount), SqlArgView::Text(currency), SqlArgView::I64(id)) => Some(
                TransactionUpdate { id, title: None, value: Some((amount, currency)) },
            ),
            _ => None,
        }
    } else if sql == "UPDATE transaction SET title = $1, amount = $2, currency = $3 WHERE id = $4 RETURNING id"@ && args.len() == 4 {
        match (args[0], args[1], args[2], args[3]) {
            (SqlArgView::Text(title), SqlArgView::I64(amount), SqlArgView::Text(currency), SqlArgView::I64(id)) => Some(
                TransactionUpdate { id, title: Some(title), value: Some((amount, currency)) },
            ),
            _ => None,
        }
    } else {
        None
    }
}

/// Updating a transaction with a title, a value or both sets exactly those
/// fields, each in the column of its name, on the row with that id.
pub proof fn transaction_update_sets_the_given_fields(id: i64, dto: UpdateTransactionDto, q: QueryBuilder)
    requires
        dto.title is Some || dto.value is Some,
        call_ensures(crud::update::<TransactionRepository, UpdateTransactionDto>, (id, &dto), q),
    ensures
        applied_update(q.sql@, q.arg_views()) == Some(
            TransactionUpdate {
                id,
                title: match dto.title {
                    Some(t) => Some(t@),
                    None => None,
                },
                value: match dto.value {
                    Some(v) => Some((v.amount, v.currency@)),
                    None => None,
                },
            },
        ),
{
    reveal_strlit("UPDATE ");
    reveal_strlit("transaction");
    reveal_strlit(" SET ");
    reveal_strlit("title = ");
    reveal_strlit(", ");
    reveal_strlit("amount = ");
    reveal_strlit("currency = ");
    reveal_strlit(" WHERE id = ");
    reveal_strlit(" RETURNING id");
    reveal_strlit("UPDATE transaction SET title = $1 WHERE id = $2 RETURNING id");
    reveal_strlit("UPDATE transaction SET amount = $1, currency = $2 WHERE id = $3 RETURNING id");
    reveal_strlit("UPDATE transaction SET title = $1, amount = $2, currency = $3 WHERE id = $4 RETURNING id");
    assert(placeholder(1) =~= seq!['$', '1']);
    assert(placeholder(2) =~= seq!['$', '2']);
    assert(placeholder(3) =~= seq!['$', '3']);
    assert(placeholder(4) =~= seq!['$', '4']);
    let sql = "UPDATE "@ + TransactionRepository::spec_table() + " SET "@ + dto.update_sql(0) + " WHERE id = "@
        + placeholder(dto.update_args().len() + 1) + " RETURNING id"@;
    assert("UPDATE transaction SET title = $1 WHERE id = $2 RETURNING id"@.len() != "UPDATE transaction SET amount = $1, currency = $2 WHERE id = $3 RETURNING id"@.len());
    assert("UPDATE transaction SET title = $1 WHERE id = $2 RETURNING id"@.len() != "UPDATE transaction SET title = $1, amount = $2, currency = $3 WHERE id = $4 RETURNING id"@.len());
    if dto.title is Some && dto.value is None {
        assert(sql =~= "UPDATE transaction SET title = $1 WHERE id = $2 RETURNING id"@);
    } else if dto.title is None {
        assert(sql =~= "UPDATE transaction SET amount = $1, currency = $2 WHERE id = $3 RETURNING id"@);
    } else {
        assert(sql =~= "UPDATE transaction SET title = $1, amount = $2, currency = $3 WHERE id = $4 RETURNING id"@);
    }
}

/// The transaction count and listing filter on what they are asked to: the
/// customer id binds to the `cid` condition and the title, between `%`
/// wildcards, to the `title ILIKE` condition, each to the placeholder that
/// its condition names, in this order; a page then binds its limit and
/// offset to `LIMIT` and `OFFSET`.
pub proof fn transaction_listing_filters_on_the_asked_fields(
    query: TransactionQueryDto,
    offset: i64,
    limit: i64,
    total: i64,
    count: QueryBuilder,
    page: Option<QueryBuilder>,
)
    requires
        call_ensures(TransactionRepository::count_transactions, (&query,), count),
        call_ensures(TransactionRepository::list_with_pagination, (offset, limit, &query, total), page),
    ensures
        page is Some <==> total != 0,
        query.cid matches Some(c) && filters_title(query) ==> count.sql@ == "SELECT COUNT(*) FROM transaction WHERE 1=1 AND cid = $1 AND title ILIKE $2"@ && count.arg_views() == seq![SqlArgView::I64(query.cid->Some_0), SqlArgView::Text(seq!['%'] + query.title->Some_0@ + seq!['%'])],
        query.cid matches Some(c) && filters_title(query) ==> (page matches Some(q) ==> q.sql@ == "SELECT * FROM transaction WHERE 1=1 AND cid = $1 AND title ILIKE $2 ORDER BY created_at DESC LIMIT $3 OFFSET $4"@
            && q.arg_views() == seq![SqlArgView::I64(query.cid->Some_0), SqlArgView::Text(seq!['%'] + query.title->Some_0@ + seq!['%'])] + seq![SqlArgView::I64(limit), SqlArgView::I64(offset)]),
        query.cid is Some && !filters_title(query) ==> count.sql@ == "SELECT COUNT(*) FROM transaction WHERE 1=1 AND cid = $1"@ && count.arg_views() == seq![SqlArgView::I64(query.cid->Some_0)],
        query.cid is Some && !filters_title(query) ==> (page matches Some(q) ==> q.sql@ == "SELECT * FROM transaction WHERE 1=1 AND cid = $1 ORDER BY created_at DESC LIMIT $2 OFFSET $3"@
            && q.arg_views() == seq![SqlArgView::I64(query.cid->Some_0)] + seq![SqlArgView::I64(limit), SqlArgView::I64(offset)]),
        query.cid is None && filters_title(query) ==> count.sql@ == "SELECT COUNT(*) FROM transaction WHERE 1=1 AND title ILIKE $1"@ && count.arg_views() == seq![SqlArgView::Text(seq!['%'] + query.title->Some_0@ + seq!['%'])],
        query.cid is None && filters_title(query) ==> (page matches Some(q) ==> q.sql@ == "SELECT * FROM transaction WHERE 1=1 AND title ILIKE $1 ORDER BY created_at DESC LIMIT $2 OFFSET $3"@
            && q.arg_views() == seq![SqlArgView::Text(seq!['%'] + query.title->Some_0@ + seq!['%'])] + seq![SqlArgView::I64(limit), SqlArgView::I64(offset)]),
        query.cid is None && !filters_title(query) ==> count.sql@ == "SELECT COUNT(*) FROM transaction WHERE 1=1"@ && count.arg_views() == Seq::<SqlArgView>::empty(),
        query.cid is None && !filters_title(query) ==> (page matches Some(q) ==> q.sql@ == "SELECT * FROM transaction WHERE 1=1 ORDER BY created_at DESC LIMIT $1 OFFSET $2"@
            && q.arg_views() == Seq::<SqlArgView>::empty() + seq![SqlArgView::I64(limit), SqlArgView::I64(offset)]),
{
    reveal_strlit("SELECT COUNT(*) FROM transaction WHERE 1=1");
    reveal_strlit("SELECT * FROM transaction WHERE 1=1");
    reveal_strlit(" AND cid = ");
    reveal_strlit(" AND title ILIKE ");
    reveal_strlit(" ORDER BY created_at DESC");
    reveal_strlit(" LIMIT ");
    reveal_strlit(" OFFSET ");
    reveal_strlit("SELECT * FROM transaction WHERE 1=1 AND cid = $1 AND title ILIKE $2 ORDER BY created_at DESC LIMIT $3 OFFSET $4");
    reveal_strlit("SELECT * FROM transaction WHERE 1=1 AND cid = $1 ORDER BY created_at DESC LIMIT $2 OFFSET $3");
    reveal_strlit("SELECT * FROM transaction WHERE 1=1 AND title ILIKE $1 ORDER BY created_at DESC LIMIT $2 OFFSET $3");
    reveal_strlit("SELECT * FROM transaction WHERE 1=1 ORDER BY created_at DESC LIMIT $1 OFFSET $2");
    reveal_strlit("SELECT COUNT(*) FROM transaction WHERE 1=1");
    reveal_strlit("SELECT COUNT(*) FROM transaction WHERE 1=1 AND cid = $1");
    reveal_strlit("SELECT COUNT(*) FROM transaction WHERE 1=1 AND cid = $1 AND title ILIKE $2");
    reveal_strlit("SELECT COUNT(*) FROM transaction WHERE 1=1 AND title ILIKE $1");
    assert(placeholder(1) =~= seq!['$', '1']);
    assert(placeholder(2) =~= seq!['$', '2']);
    assert(placeholder(3) =~= seq!['$', '3']);
    assert(placeholder(4) =~= seq!['$', '4']);
    if query.cid is Some && filters_title(query) {
        assert(count.arg_views() =~= seq![SqlArgView::I64(query.cid->Some_0), SqlArgView::Text(seq!['%'] + query.title->Some_0@ + seq!['%'])]);
    } else if query.cid is Some {
        assert(count.arg_views() =~= seq![SqlArgView::I64(query.cid->Some_0)]);
    } else if filters_title(query) {
        assert(count.arg_views() =~= seq![SqlArgView::Text(seq!['%'] + query.title->Some_0@ + seq!['%'])]);
    } else {
        assert(count.arg_views() =~= Seq::<SqlArgView>::empty());
    }
    assert(count.sql@ =~= "SELECT COUNT(*) FROM transaction WHERE 1=1"@ + filter_sql(query, 0));
}

} // verus!
