//! Decisions of the request middleware: the log level of a finished request,
//! the request id, the answer to a panic, and the readiness check.

use vstd::prelude::*;
use vstd::string::*;

use crate::auth::controller::{access_verdict, AuthController};
use crate::error::AuthError;
use crate::token::jwt::spec_access_jwt;
use crate::error::ServiceError;
use crate::model::CurrentUser;
use crate::text::push_char;
use crate::token::{AccessClaims, AuthConfig};
use crate::web::error::{HealthError, RepositoryManagerError, WebError};

verus! {

/// Level at which a finished request is logged.
#[derive(Debug, Clone, Copy, PartialEq, Eq, Structural)]
pub enum ResponseLogLevel {
    /// Server errors (5xx).
    Error,
    /// Client errors (4xx).
    Warn,
    /// Successes (2xx).
    Info,
    /// Redirects and everything else.
    Debug,
}

pub open spec fn spec_response_log_level(status: u16) -> ResponseLogLevel {
    if 500 <= status <= 599 {
        ResponseLogLevel::Error
    } else if 400 <= status <= 499 {
        ResponseLogLevel::Warn
    } else if 200 <= status <= 299 {
        ResponseLogLevel::Info
    } else {
        ResponseLogLevel::Debug
    }
}

/// The level at which a request that finished with `status` is logged.
pub fn response_log_level(status: u16) -> (r: ResponseLogLevel)
    ensures
        r == spec_response_log_level(status),
{
    if 500 <= status && status <= 599 {
        ResponseLogLevel::Error
    } else if 400 <= status && status <= 499 {
        ResponseLogLevel::Warn
    } else if 200 <= status && status <= 299 {
        ResponseLogLevel::Info
    } else {
        ResponseLogLevel::Debug
    }
}

/// The request id from the `x-request-id` header, or `unknown` without a
/// readable one.
pub fn request_id_or_unknown(header: Option<&str>) -> (r: &str)
    ensures
        match header {
            Some(h) => r@ == h@,
            None => r@ == "unknown"@,
        },
{
    match header {
        Some(h) => h,
        None => "unknown",
    }
}

/// The message of a panic: the payload when it is a string, `Unknown panic` otherwise.
pub fn panic_details(as_string: Option<String>, as_str: Option<&str>) -> (r: String)
    ensures
        match (as_string, as_str) {
            (Some(s), _) => r == s,
            (None, Some(s)) => r@ == s@,
            (None, None) => r@ == "Unknown panic"@,
        },
{
    match as_string {
        Some(s) => s,
        None => match as_str {
            Some(s) => String::from_str(s),
            None => String::from_str("Unknown panic"),
        },
    }
}

/// The error that answers a panic caught in a handler.
pub fn handle_panic(as_string: Option<String>, as_str: Option<&str>) -> (r: WebError)
    ensures
        r matches WebError::Panic(m) && match (as_string, as_str) {
            (Some(s), _) => m == s,
            (None, Some(s)) => m@ == s@,
            (None, None) => m@ == "Unknown panic"@,
        },
{
    WebError::Panic(panic_details(as_string, as_str))
}

/// How long the database may take to answer the readiness check, in milliseconds.
pub const HEALTH_READY_TIMEOUT_MILLIS: u64 = 1000;

/// The answer to the readiness check from the outcome of the connection test:
/// none when it timed out.
pub fn ready_outcome(tested: Option<Result<(), RepositoryManagerError>>) -> (r: Result<(), WebError>)
    ensures
        match tested {
            None => r matches Err(WebError::Health(HealthError::Timeout)),
            Some(Err(e)) => r matches Err(WebError::Health(HealthError::Repository(f))) && f == e,
            Some(Ok(_)) => r is Ok,
        },
{
    match tested {
        None => Err(WebError::Health(HealthError::Timeout)),
        Some(Err(e)) => Err(WebError::Health(HealthError::Repository(e))),
        Some(Ok(_)) => Ok(()),
    }
}

/// The error that answers a request for a route that does not exist.
pub fn fallback() -> (r: WebError)
    ensures
        r matches WebError::NotFound(m) && m@ == "the requested route does not exist."@,
{
    WebError::NotFound(String::from_str("the requested route does not exist."))
}

/// The scheme word, with its space, that starts a bearer `Authorization` header.
pub open spec fn bearer_prefix() -> Seq<char> {
    "Bearer "@
}

/// The token of a bearer `Authorization` header: what follows the prefix.
pub open spec fn spec_bearer_token(header: Seq<char>) -> Option<Seq<char>> {
    if header.len() >= 7 && header.subrange(0, 7) == bearer_prefix() {
        Some(header.subrange(7, header.len() as int))
    } else {
        None
    }
}

/// The token of a bearer `Authorization` header, if the header is one.
pub fn bearer_token(header: &str) -> (r: Option<String>)
    ensures
        match spec_bearer_token(header@) {
            Some(t) => r matches Some(s) && s@ == t,
            None => r is None,
        },
{
    let ghost h = header@;
    let mut v: Vec<char> = Vec::new();
    for c in it: header.chars()
        invariant
            it.seq() == h,
            v@ == h.take(it.index() as int),
    {
        v.push(c);
        assert(v@ =~= h.take(it.index() + 1));
    }
    assert(v@ =~= h);
    proof {
        reveal_strlit("Bearer ");
    }
    let n = v.len();
    if n < 7 || v[0] != 'B' || v[1] != 'e' || v[2] != 'a' || v[3] != 'r' || v[4] != 'e' || v[5] != 'r' || v[6] != ' ' {
        proof {
            if h.len() >= 7 && h.subrange(0, 7) == bearer_prefix() {
                assert(h[0] == h.subrange(0, 7)[0]);
                assert(h[1] == h.subrange(0, 7)[1]);
                assert(h[2] == h.subrange(0, 7)[2]);
                assert(h[3] == h.subrange(0, 7)[3]);
                assert(h[4] == h.subrange(0, 7)[4]);
                assert(h[5] == h.subrange(0, 7)[5]);
                assert(h[6] == h.subrange(0, 7)[6]);
            }
        }
        return None;
    }
    assert(h.subrange(0, 7) =~= bearer_prefix());
    let mut token = String::new();
    let mut i: usize = 7;
    while i < n
        invariant
            7 <= i <= n,
            n == h.len(),
            v@ == h,
            token@ == h.subrange(7, i as int),
        decreases n - i,
    {
        push_char(&mut token, v[i]);
        i = i + 1;
        assert(token@ =~= h.subrange(7, i as int));
    }
    Some(token)
}

/// The user that a request authenticates as, from its `Authorization`
/// header: a missing header or one that is not a bearer header is refused
/// as such; the bearer token must verify as an access token, whose subject
/// and role are the user. A token issued under the access secret is
/// accepted unless it has expired.
pub fn authenticate(authorization: Option<&str>, config: &AuthConfig) -> (r: Result<CurrentUser, WebError>)
    ensures
        match authorization {
            None => r matches Err(WebError::AuthorizationBearer),
            Some(h) => match spec_bearer_token(h@) {
                None => r matches Err(WebError::AuthorizationBearer),
                Some(t) => match r {
                    Ok(u) => exists|c: AccessClaims| #[trigger] access_verdict(t, *config, Ok(c))
                        && u == (CurrentUser { id: c.sub, role: c.role }),
                    Err(WebError::Controller(e)) => access_verdict(t, *config, Err(e)),
                    Err(_) => false,
                },
            },
        },
        authorization matches Some(h) ==> (spec_bearer_token(h@) matches Some(t) ==> (forall|c: AccessClaims|
            #[trigger] spec_access_jwt(c, config.access_token_secret@) == Some(t) && c.exp >= 0
            ==> (r matches Ok(u) && u == (CurrentUser { id: c.sub, role: c.role }))
                || (r matches Err(WebError::Controller(ServiceError::Auth(AuthError::ExpiredToken)))))),
{
    let header = match authorization {
        None => return Err(WebError::AuthorizationBearer),
        Some(h) => h,
    };
    let token = match bearer_token(header) {
        None => return Err(WebError::AuthorizationBearer),
        Some(t) => t,
    };
    let verified = AuthController::verify_access_token(Some(token.as_str()), config);
    match verified {
        Ok(claims) => Ok(CurrentUser::from(claims)),
        Err(e) => Err(WebError::Controller(e)),
    }
}

/// A bearer header gives back exactly the token that follows `Bearer `,
/// whatever the token, and a header that does not start with `Bearer ` gives
/// none.
pub proof fn bearer_token_reads_what_follows_the_scheme(header: &str, r: Option<String>)
    requires
        call_ensures(bearer_token, (header,), r),
    ensures
        forall|t: Seq<char>| header@ == "Bearer "@ + t ==> (r matches Some(s) && s@ == t),
        (header@.len() < 7 || header@.subrange(0, 7) != "Bearer "@) ==> r is None,
{
    reveal_strlit("Bearer ");
    assert forall|t: Seq<char>| header@ == "Bearer "@ + t implies (r matches Some(s) && s@ == t) by {
        assert(header@.subrange(0, 7) =~= "Bearer "@);
        assert(header@.subrange(7, header@.len() as int) =~= t);
    }
}

} // verus!
