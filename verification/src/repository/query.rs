//! SQL statements put together piece by piece, with numbered placeholders
//! for the values bound to them.

use vstd::prelude::*;
use vstd::string::*;

use crate::text::push_char;
use crate::time::Timestamp;

verus! {

/// A value bound to a placeholder of a statement.
#[derive(Debug, Clone)]
pub enum SqlArg {
    Bool(bool),
    I16(i16),
    I64(i64),
    Text(String),
    Bytes(Vec<u8>),
    Uuid(u128),
    Timestamp(Timestamp),
    /// A boolean that may be NULL.
    OptBool(Option<bool>),
    /// A small integer that may be NULL.
    OptI16(Option<i16>),
}

/// What a bound value stands for.
pub ghost enum SqlArgView {
    Bool(bool),
    I16(i16),
    I64(i64),
    Text(Seq<char>),
    Bytes(Seq<u8>),
    Uuid(u128),
    Timestamp(Timestamp),
    OptBool(Option<bool>),
    OptI16(Option<i16>),
}

impl View for SqlArg {
    type V = SqlArgView;

    open spec fn view(&self) -> SqlArgView {
        match *self {
            SqlArg::Bool(b) => SqlArgView::Bool(b),
            SqlArg::I16(i) => SqlArgView::I16(i),
            SqlArg::I64(i) => SqlArgView::I64(i),
            SqlArg::Text(t) => SqlArgView::Text(t@),
            SqlArg::Bytes(b) => SqlArgView::Bytes(b@),
            SqlArg::Uuid(u) => SqlArgView::Uuid(u),
            SqlArg::Timestamp(t) => SqlArgView::Timestamp(t),
            SqlArg::OptBool(b) => SqlArgView::OptBool(b),
            SqlArg::OptI16(i) => SqlArgView::OptI16(i),
        }
    }
}

/// The character of a decimal digit.
pub open spec fn digit_char(d: int) -> char {
    if d == 0 { '0' }
    else if d == 1 { '1' }
    else if d == 2 { '2' }
    else if d == 3 { '3' }
    else if d == 4 { '4' }
    else if d == 5 { '5' }
    else if d == 6 { '6' }
    else if d == 7 { '7' }
    else if d == 8 { '8' }
    else { '9' }
}

/// The decimal numeral of `n`, without sign or leading zeros.
pub open spec fn decimal(n: nat) -> Seq<char>
    decreases n,
{
    if n < 10 {
        seq![digit_char(n as int)]
    } else {
        decimal(n / 10).push(digit_char((n % 10) as int))
    }
}

/// The placeholder of the `n`-th bound value (counting from one).
pub open spec fn placeholder(n: nat) -> Seq<char> {
    seq!['$'] + decimal(n)
}

fn digit(d: u128) -> (c: char)
    requires
        d < 10,
    ensures
        c == digit_char(d as int),
{
    if d == 0 { '0' }
    else if d == 1 { '1' }
    else if d == 2 { '2' }
    else if d == 3 { '3' }
    else if d == 4 { '4' }
    else if d == 5 { '5' }
    else if d == 6 { '6' }
    else if d == 7 { '7' }
    else if d == 8 { '8' }
    else { '9' }
}

/// Appends the decimal numeral of `n` to `s`.
pub fn push_decimal(s: &mut String, n: u128)
    ensures
        final(s)@ == old(s)@ + decimal(n as nat),
    decreases n,
{
    if n < 10 {
        push_char(s, digit(n));
        assert(decimal(n as nat) =~= seq![digit_char(n as int)]);
    } else {
        push_decimal(s, n / 10);
        push_char(s, digit(n % 10));
        assert(decimal(n as nat) == decimal((n / 10) as nat).push(digit_char((n % 10) as int)));
    }
}

/// A statement under construction: its text and the values bound to its
/// placeholders, in order.
#[derive(Debug, Clone)]
pub struct QueryBuilder {
    pub sql: String,
    pub args: Vec<SqlArg>,
}

impl QueryBuilder {
    /// What the bound values stand for, in order.
    pub open spec fn arg_views(&self) -> Seq<SqlArgView> {
        self.args@.map_values(|a: SqlArg| a@)
    }

    /// A statement that starts with `init` and binds nothing yet.
    pub fn new(init: &str) -> (r: QueryBuilder)
        ensures
            r.sql@ == init@,
            r.args@ == Seq::<SqlArg>::empty(),
            r.arg_views() == Seq::<SqlArgView>::empty(),
    {
        let r = QueryBuilder { sql: String::from_str(init), args: Vec::new() };
        assert(r.arg_views() =~= Seq::<SqlArgView>::empty());
        r
    }

    /// Appends text to the statement.
    pub fn push(&mut self, text: &str)
        ensures
            final(self).sql@ == old(self).sql@ + text@,
            final(self).args@ == old(self).args@,
            final(self).arg_views() == old(self).arg_views(),
    {
        self.sql.append(text);
    }

    /// Binds a value: the value goes after the others, and its placeholder,
    /// `$` followed by the number of values bound so far, goes into the text.
    pub fn push_bind(&mut self, value: SqlArg)
        requires
            old(self).args@.len() < u64::MAX,
        ensures
            final(self).args@ == old(self).args@.push(value),
            final(self).arg_views() == old(self).arg_views().push(value@),
            final(self).sql@ == old(self).sql@ + placeholder(old(self).args@.len() + 1),
    {
        let ghost v = value@;
        self.args.push(value);
        assert(self.arg_views() =~= old(self).arg_views().push(v));
        let count = self.args.len() as u128;
        push_char(&mut self.sql, '$');
        push_decimal(&mut self.sql, count);
        assert(self.sql@ =~= old(self).sql@ + placeholder(old(self).args@.len() + 1));
    }
}

} // verus!
