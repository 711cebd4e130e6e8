//! The request context taken from the `auth-token` cookie.
//!
//! A token reads `user-<id>.<expiration>.<signature>`: the literal `user-`,
//! the decimal id of the user, a dot, then the expiration and the signature
//! separated by the last dot of the line.

use vstd::prelude::*;

use crate::repository::query::{decimal, digit_char};
use crate::text::push_char;

verus! {

/// Name of the cookie that holds the authentication token.
pub const AUTH_TOKEN: &'static str = "auth-token";

/// Why no request context could be established.
#[derive(Debug, Clone, Copy, PartialEq, Eq, Structural)]
pub enum CtxError {
    AuthFailNoAuthTokenCookie,
    AuthFailWrongTokenFormat,
    AuthFailCtxNotInRequestExt,
}

/// The context of an authenticated request.
#[derive(Debug, Clone, Copy, PartialEq, Eq, Structural)]
pub struct Ctx {
    pub user_id: u64,
}

impl Ctx {
    pub open spec fn spec_user_id(&self) -> u64 {
        self.user_id
    }

    pub fn new(user_id: u64) -> (r: Ctx)
        ensures
            r.spec_user_id() == user_id,
    {
        Ctx { user_id }
    }

    pub fn user_id(&self) -> (r: u64)
        ensures
            r == self.spec_user_id(),
    {
        self.user_id
    }
}

pub open spec fn is_ascii_digit(c: char) -> bool {
    '0' <= c && c <= '9'
}

/// Number of ASCII digits in a row from position `i` on.
pub open spec fn digit_run(s: Seq<char>, i: int) -> nat
    decreases s.len() - i,
{
    if 0 <= i < s.len() && is_ascii_digit(s[i]) {
        1 + digit_run(s, i + 1)
    } else {
        0
    }
}

/// The number that a string of ASCII digits spells.
pub open spec fn digits_value(d: Seq<char>) -> nat
    decreases d.len(),
{
    if d.len() == 0 {
        0
    } else {
        digits_value(d.drop_last()) * 10 + ((d.last() as u32) - 48) as nat
    }
}

/// Where the line that contains position `i` ends: the first newline at or
/// after `i`, or the end of `s`.
pub open spec fn line_end(s: Seq<char>, i: int) -> int
    decreases s.len() - i,
{
    if 0 <= i < s.len() && s[i] != '\n' {
        line_end(s, i + 1)
    } else {
        i
    }
}

/// The last dot at a position from `lo` to `hi`, or `lo - 1` without one.
pub open spec fn last_dot(s: Seq<char>, lo: int, hi: int) -> int
    decreases hi - lo + 1,
{
    if hi < lo {
        lo - 1
    } else if s[hi] == '.' {
        hi
    } else {
        last_dot(s, lo, hi - 1)
    }
}

pub open spec fn starts_with_user(s: Seq<char>) -> bool {
    s.len() >= 5 && s[0] == 'u' && s[1] == 's' && s[2] == 'e' && s[3] == 'r' && s[4] == '-'
}

/// How the pattern `^user-(\d+)\.(.+)\.(.+)` reads `s`: the number spelled by
/// the digits, the expiration and the signature. `.` stops at a newline, and
/// the greedy middle group makes the last dot of the line (with something on
/// both sides of it) the separator.
pub open spec fn spec_token_parts(s: Seq<char>) -> Option<(nat, Seq<char>, Seq<char>)> {
    if !starts_with_user(s) {
        None
    } else {
        let k: int = digit_run(s, 5) as int;
        if k == 0 || 5 + k >= s.len() || s[5 + k] != '.' {
            None
        } else {
            let a: int = 6 + k;
            let e = line_end(s, a);
            let j = last_dot(s, a + 1, e - 2);
            if j < a + 1 {
                None
            } else {
                Some((digits_value(s.subrange(5, 5 + k)), s.subrange(a, j), s.subrange(j + 1, e)))
            }
        }
    }
}

/// The outcome of parsing `s` as a token: its parts when it reads as one and
/// its id fits in 64 bits.
pub open spec fn spec_parse_token(s: Seq<char>) -> Option<(u64, Seq<char>, Seq<char>)> {
    match spec_token_parts(s) {
        Some((v, exp, sign)) => if v <= u64::MAX { Some((v as u64, exp, sign)) } else { None },
        None => None,
    }
}

proof fn lemma_digits_value_prefix(d: Seq<char>, p: int)
    requires
        0 <= p <= d.len(),
    ensures
        digits_value(d.take(p)) <= digits_value(d),
    decreases d.len() - p,
{
    if p < d.len() {
        lemma_digits_value_prefix(d, p + 1);
        assert(d.take(p + 1).drop_last() =~= d.take(p));
    } else {
        assert(d.take(p) =~= d);
    }
}

fn string_of(v: &Vec<char>, from: usize, to: usize) -> (r: String)
    requires
        from <= to <= v@.len(),
    ensures
        r@ == v@.subrange(from as int, to as int),
{
    let mut r = String::new();
    let mut i = from;
    while i < to
        invariant
            from <= i <= to <= v@.len(),
            r@ == v@.subrange(from as int, i as int),
        decreases to - i,
    {
        push_char(&mut r, v[i]);
        i = i + 1;
        assert(r@ =~= v@.subrange(from as int, i as int));
    }
    r
}

/// Splits a token into the user id, the expiration and the signature.
#[verifier::loop_isolation(false)]
pub fn parse_token(token: String) -> (r: Result<(u64, String, String), CtxError>)
    ensures
        match spec_parse_token(token@) {
            Some((id, exp, sign)) => r matches Ok((i, e, g)) && i == id && e@ == exp && g@ == sign,
            None => r == Err::<(u64, String, String), CtxError>(CtxError::AuthFailWrongTokenFormat),
        },
{
    let ghost s = token@;
    let mut v: Vec<char> = Vec::new();
    for c in it: token.chars()
        invariant
            it.seq() == s,
            v@ == s.take(it.index() as int),
    {
        v.push(c);
        assert(v@ =~= s.take(it.index() + 1));
    }
    assert(v@ =~= s);
    let n = v.len();
    if n < 5 || v[0] != 'u' || v[1] != 's' || v[2] != 'e' || v[3] != 'r' || v[4] != '-' {
        return Err(CtxError::AuthFailWrongTokenFormat);
    }
    // The run of digits.
    let mut i: usize = 5;
    while i < n && '0' <= v[i] && v[i] <= '9'
        invariant
            5 <= i <= n,
            n == s.len(),
            v@ == s,
            digit_run(s, 5) == (i - 5) + digit_run(s, i as int),
            forall|p: int| 5 <= p < i ==> #[trigger] is_ascii_digit(s[p]),
        decreases n - i,
    {
        i = i + 1;
    }
    assert(digit_run(s, i as int) == 0);
    let k = i - 5;
    if k == 0 || i >= n || v[i] != '.' {
        return Err(CtxError::AuthFailWrongTokenFormat);
    }
    // The number that the digits spell.
    let ghost d = s.subrange(5, i as int);
    let mut value: u64 = 0;
    let mut m: usize = 5;
    while m < i
        invariant
            5 <= m <= i < n,
            n == s.len(),
            v@ == s,
            d == s.subrange(5, i as int),
            forall|p: int| 5 <= p < i ==> #[trigger] is_ascii_digit(s[p]),
            value == digits_value(d.take(m - 5)),
        decreases i - m,
    {
        assert(is_ascii_digit(s[m as int]));
        let digit = (v[m] as u32 - 48) as u64;
        assert(d.take(m - 5 + 1).drop_last() =~= d.take(m - 5));
        assert(digits_value(d.take(m - 5 + 1)) == value * 10 + digit);
        match value.checked_mul(10) {
            None => {
                proof {
                    lemma_digits_value_prefix(d, m - 5 + 1);
                }
                return Err(CtxError::AuthFailWrongTokenFormat);
            },
            Some(times_ten) => match times_ten.checked_add(digit) {
                None => {
                    proof {
                        lemma_digits_value_prefix(d, m - 5 + 1);
                    }
                    return Err(CtxError::AuthFailWrongTokenFormat);
                },
                Some(next) => {
                    value = next;
                },
            },
        }
        m = m + 1;
    }
    assert(d.take(i - 5) =~= d);
    // The rest of the line after the dot.
    let a = i + 1;
    let mut e: usize = a;
    while e < n && v[e] != '\n'
        invariant
            a <= e <= n,
            n == s.len(),
            v@ == s,
            line_end(s, a as int) == line_end(s, e as int),
        decreases n - e,
    {
        e = e + 1;
    }
    assert(line_end(s, e as int) == e);
    // The last dot with something on both sides of it: positions from
    // `t - 1` down to `a + 1` are still to be looked at.
    let ghost lo: int = a + 1;
    let ghost top: int = e - 2;
    let mut t: usize = e - 1;
    while t - 1 > a
        invariant
            a <= t + 1 <= e <= n,
            n == s.len(),
            v@ == s,
            lo == a + 1,
            top == e - 2,
            last_dot(s, lo, top) == last_dot(s, lo, t - 1),
        decreases t,
    {
        if v[t - 1] == '.' {
            let exp = string_of(&v, a, t - 1);
            let sign = string_of(&v, t, e);
            return Ok((value, exp, sign));
        }
        t = t - 1;
    }
    Err(CtxError::AuthFailWrongTokenFormat)
}

/// The token of user `id` with expiration `exp` and signature `sign`.
pub open spec fn auth_token(id: nat, exp: Seq<char>, sign: Seq<char>) -> Seq<char> {
    "user-"@ + decimal(id) + seq!['.'] + exp + seq!['.'] + sign
}

proof fn lemma_digit_char(d: int)
    requires
        0 <= d < 10,
    ensures
        is_ascii_digit(digit_char(d)),
        (digit_char(d) as u32) - 48 == d,
{
}

proof fn lemma_decimal_digits(n: nat)
    ensures
        decimal(n).len() >= 1,
        forall|i: int| 0 <= i < decimal(n).len() ==> #[trigger] is_ascii_digit(decimal(n)[i]),
        digits_value(decimal(n)) == n,
    decreases n,
{
    if n < 10 {
        lemma_digit_char(n as int);
        let d = decimal(n);
        assert(d =~= seq![digit_char(n as int)]);
        assert(d.drop_last() =~= Seq::<char>::empty());
        assert(digits_value(Seq::<char>::empty()) == 0);
        assert(digits_value(d) == digits_value(d.drop_last()) * 10 + ((d.last() as u32) - 48) as nat);
    } else {
        lemma_decimal_digits(n / 10);
        lemma_digit_char((n % 10) as int);
        let d = decimal(n);
        assert(d.drop_last() =~= decimal(n / 10));
        assert(d.last() == digit_char((n % 10) as int));
        assert(digits_value(d) == digits_value(d.drop_last()) * 10 + ((d.last() as u32) - 48) as nat);
        assert((n / 10) * 10 + n % 10 == n);
    }
}

proof fn lemma_digit_run(s: Seq<char>, lo: int, k: int)
    requires
        0 <= lo,
        0 <= k,
        lo + k <= s.len(),
        forall|i: int| lo <= i < lo + k ==> #[trigger] is_ascii_digit(s[i]),
        lo + k == s.len() || !is_ascii_digit(s[lo + k]),
    ensures
        digit_run(s, lo) == k,
    decreases k,
{
    if k > 0 {
        assert(is_ascii_digit(s[lo]));
        lemma_digit_run(s, lo + 1, k - 1);
    }
}

proof fn lemma_line_end_without_newline(s: Seq<char>, i: int)
    requires
        0 <= i <= s.len(),
        forall|j: int| i <= j < s.len() ==> s[j] != '\n',
    ensures
        line_end(s, i) == s.len(),
    decreases s.len() - i,
{
    if i < s.len() {
        lemma_line_end_without_newline(s, i + 1);
    }
}

proof fn lemma_last_dot_found(s: Seq<char>, lo: int, hi: int, j: int)
    requires
        lo <= j <= hi,
        s[j] == '.',
        forall|p: int| j < p <= hi ==> s[p] != '.',
    ensures
        last_dot(s, lo, hi) == j,
    decreases hi - j,
{
    if j < hi {
        lemma_last_dot_found(s, lo, hi - 1, j);
    }
}

/// A token made of a user id, an expiration and a signature parses back
/// into them, when neither part spans a line break, both are non-empty, the
/// signature holds no dot, and the id fits in 64 bits.
pub proof fn issued_token_parses_back(id: u64, exp: Seq<char>, sign: Seq<char>)
    requires
        exp.len() > 0,
        sign.len() > 0,
        !exp.contains('\n'),
        !sign.contains('\n'),
        !sign.contains('.'),
    ensures
        spec_parse_token(auth_token(id as nat, exp, sign)) == Some((id, exp, sign)),
{
    reveal_strlit("user-");
    let d = decimal(id as nat);
    let s = auth_token(id as nat, exp, sign);
    let k = d.len() as int;
    let m = exp.len() as int;
    lemma_decimal_digits(id as nat);
    assert(s.len() == 7 + k + m + sign.len());
    assert forall|i: int| 0 <= i < k implies s[5 + i] == d[i] by {}
    assert forall|i: int| 0 <= i < m implies s[6 + k + i] == exp[i] by {}
    assert forall|i: int| 0 <= i < sign.len() implies s[7 + k + m + i] == sign[i] by {}
    assert(s[5 + k] == '.');
    assert(s[6 + k + m] == '.');
    assert(starts_with_user(s));
    assert forall|i: int| 5 <= i < 5 + k implies #[trigger] is_ascii_digit(s[i]) by {
        assert(s[i] == d[i - 5]);
    }
    lemma_digit_run(s, 5, k);
    assert(s.subrange(5, 5 + k) =~= d);
    let a = 6 + k;
    assert forall|j: int| a <= j < s.len() implies s[j] != '\n' by {
        if j < a + m {
            assert(s[j] == exp[j - a]);
            assert(exp.contains(exp[j - a]));
        } else if j > a + m {
            assert(s[j] == sign[j - a - m - 1]);
            assert(sign.contains(sign[j - a - m - 1]));
        }
    }
    lemma_line_end_without_newline(s, a);
    let e = s.len() as int;
    assert forall|p: int| a + m < p <= e - 2 implies s[p] != '.' by {
        assert(s[p] == sign[p - a - m - 1]);
        assert(sign.contains(sign[p - a - m - 1]));
    }
    lemma_last_dot_found(s, a + 1, e - 2, a + m);
    assert(s.subrange(a, a + m) =~= exp);
    assert(s.subrange(a + m + 1, e) =~= sign);
}

/// The context of a request from its `auth-token` cookie, and whether the
/// cookie should be removed (it should when it was missing).
pub fn resolve_ctx(cookie: Option<String>) -> (r: (Result<Ctx, CtxError>, bool))
    ensures
        match cookie {
            None => r == (Err::<Ctx, CtxError>(CtxError::AuthFailNoAuthTokenCookie), true),
            Some(t) => !r.1 && match spec_parse_token(t@) {
                Some((id, _, _)) => r.0 matches Ok(c) && c.spec_user_id() == id,
                None => r.0 == Err::<Ctx, CtxError>(CtxError::AuthFailWrongTokenFormat),
            },
        },
{
    match cookie {
        None => (Err(CtxError::AuthFailNoAuthTokenCookie), true),
        Some(token) => match parse_token(token) {
            // The expiration and the signature are not checked yet.
            Ok((user_id, _exp, _sign)) => (Ok(Ctx::new(user_id)), false),
            Err(e) => (Err(e), false),
        },
    }
}

/// The context that the resolver left in the request.
pub fn ctx_from_extension(found: Option<Result<Ctx, CtxError>>) -> (r: Result<Ctx, CtxError>)
    ensures
        match found {
            None => r == Err::<Ctx, CtxError>(CtxError::AuthFailCtxNotInRequestExt),
            Some(c) => r == c,
        },
{
    match found {
        None => Err(CtxError::AuthFailCtxNotInRequestExt),
        Some(ctx) => ctx,
    }
}

} // verus!
