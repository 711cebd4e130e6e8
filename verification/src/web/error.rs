//! Errors of the web layer and the HTTP answer that each one gets.

use vstd::prelude::*;
use vstd::string::*;

use crate::error::{AuthError, RepositoryError, ServiceError};
use crate::model::{UserRoleError, UserStatusError};

verus! {

/// The database could not be reached; the text describes the failure.
#[derive(Debug, Clone)]
pub enum RepositoryManagerError {
    CreatePoolFailed(String),
    ConnectionFailed(String),
}

impl RepositoryManagerError {
    /// The underlying failure, whichever stage it came from.
    pub fn inner(&self) -> (r: &String)
        ensures
            *r == match self {
                RepositoryManagerError::CreatePoolFailed(e) => *e,
                RepositoryManagerError::ConnectionFailed(e) => *e,
            },
    {
        match self {
            RepositoryManagerError::CreatePoolFailed(error) => error,
            RepositoryManagerError::ConnectionFailed(error) => error,
        }
    }
}

/// Why the readiness check failed.
#[derive(Debug, Clone)]
pub enum HealthError {
    Timeout,
    Repository(RepositoryManagerError),
}

/// Error of a request handler.
#[derive(Debug, Clone)]
pub enum WebError {
    Controller(ServiceError),
    AuthorizationBearer,
    UserExtraction,
    Health(HealthError),
    UserRole(UserRoleError),
    Panic(String),
    NotFound(String),
}

/// Body of an error answer: the message that the client may see.
#[derive(Debug, Clone)]
pub struct ClientError {
    pub message: String,
}

/// What the request log records of an error answer: the message the
/// client saw, and the kind and details of the error behind it.
#[derive(Debug, Clone)]
pub struct ErrorDetails {
    pub client_message: String,
    pub error_type: String,
    pub error_data: String,
}

impl ErrorDetails {
    pub fn new(client_message: String, error_type: String, error_data: String) -> (r: ErrorDetails)
        ensures
            r.client_message == client_message,
            r.error_type == error_type,
            r.error_data == error_data,
    {
        ErrorDetails { client_message, error_type, error_data }
    }
}

pub const STATUS_UNAUTHORIZED: u16 = 401;
pub const STATUS_FORBIDDEN: u16 = 403;
pub const STATUS_NOT_FOUND: u16 = 404;
pub const STATUS_INTERNAL_SERVER_ERROR: u16 = 500;
pub const STATUS_SERVICE_UNAVAILABLE: u16 = 503;

pub open spec fn msg_internal() -> Seq<char> {
    "An unexpected internal error occurred."@
}

pub open spec fn msg_not_found() -> Seq<char> {
    "Resource not found."@
}

pub open spec fn msg_bad_credentials() -> Seq<char> {
    "Invalid email or password."@
}

pub open spec fn msg_bad_token() -> Seq<char> {
    "Invalid or expired token."@
}

pub open spec fn msg_disabled() -> Seq<char> {
    "User account is disabled."@
}

pub open spec fn msg_pending() -> Seq<char> {
    "User account is pending activation."@
}

pub open spec fn msg_locked() -> Seq<char> {
    "User account is locked."@
}

pub open spec fn msg_permission() -> Seq<char> {
    "Permission denied."@
}

pub open spec fn msg_unavailable() -> Seq<char> {
    "Service is temporarily unavailable."@
}

/// Status code and client message of a service error.
pub open spec fn service_status_and_message(e: ServiceError) -> (u16, Seq<char>) {
    match e {
        ServiceError::Repository(r) => match r {
            RepositoryError::NotFound { .. } => (STATUS_NOT_FOUND, msg_not_found()),
            _ => (STATUS_INTERNAL_SERVER_ERROR, msg_internal()),
        },
        ServiceError::Auth(a) => match a {
            AuthError::HashingFailed => (STATUS_INTERNAL_SERVER_ERROR, msg_internal()),
            AuthError::InvalidLoginCredentials => (STATUS_UNAUTHORIZED, msg_bad_credentials()),
            AuthError::MissingToken => (STATUS_UNAUTHORIZED, msg_bad_token()),
            AuthError::InvalidToken => (STATUS_UNAUTHORIZED, msg_bad_token()),
            AuthError::ExpiredToken => (STATUS_UNAUTHORIZED, msg_bad_token()),
            AuthError::RevokedToken => (STATUS_UNAUTHORIZED, msg_bad_token()),
            AuthError::TokenCreationFailed => (STATUS_INTERNAL_SERVER_ERROR, msg_internal()),
        },
        ServiceError::UserStatus(s) => match s {
            UserStatusError::Disabled => (STATUS_FORBIDDEN, msg_disabled()),
            UserStatusError::Pending => (STATUS_FORBIDDEN, msg_pending()),
            UserStatusError::Locked => (STATUS_FORBIDDEN, msg_locked()),
        },
        ServiceError::UserRole(_) => (STATUS_FORBIDDEN, msg_permission()),
        ServiceError::CurrentUserExtractionError => (STATUS_INTERNAL_SERVER_ERROR, msg_internal()),
        ServiceError::Internal(_) => (STATUS_INTERNAL_SERVER_ERROR, msg_internal()),
    }
}

/// Status code and client message of a web error.
pub open spec fn status_and_message(e: WebError) -> (u16, Seq<char>) {
    match e {
        WebError::Controller(s) => service_status_and_message(s),
        WebError::AuthorizationBearer => (STATUS_UNAUTHORIZED, msg_bad_token()),
        WebError::UserExtraction => (STATUS_INTERNAL_SERVER_ERROR, msg_internal()),
        WebError::UserRole(_) => (STATUS_FORBIDDEN, msg_permission()),
        WebError::Health(_) => (STATUS_SERVICE_UNAVAILABLE, msg_unavailable()),
        WebError::Panic(_) => (STATUS_INTERNAL_SERVER_ERROR, msg_internal()),
        WebError::NotFound(_) => (STATUS_NOT_FOUND, msg_not_found()),
    }
}

/// The messages that a client may be shown.
pub open spec fn is_public_message(m: Seq<char>) -> bool {
    ||| m == msg_internal()
    ||| m == msg_not_found()
    ||| m == msg_bad_credentials()
    ||| m == msg_bad_token()
    ||| m == msg_disabled()
    ||| m == msg_pending()
    ||| m == msg_locked()
    ||| m == msg_permission()
    ||| m == msg_unavailable()
}

/// An error answer shows the client one of the fixed messages and nothing
/// of the error's own text; every internal server error shows the same
/// generic message, and every answer is a client or server error status.
pub proof fn error_answers_leak_nothing(e: WebError)
    ensures
        is_public_message(status_and_message(e).1),
        status_and_message(e).0 == STATUS_INTERNAL_SERVER_ERROR ==> status_and_message(e).1 == msg_internal(),
        400 <= status_and_message(e).0 < 600,
{
}

fn internal() -> (r: (u16, String))
    ensures
        r.0 == STATUS_INTERNAL_SERVER_ERROR,
        r.1@ == msg_internal(),
{
    (STATUS_INTERNAL_SERVER_ERROR, String::from_str("An unexpected internal error occurred."))
}

fn not_found() -> (r: (u16, String))
    ensures
        r.0 == STATUS_NOT_FOUND,
        r.1@ == msg_not_found(),
{
    (STATUS_NOT_FOUND, String::from_str("Resource not found."))
}

fn bad_token() -> (r: (u16, String))
    ensures
        r.0 == STATUS_UNAUTHORIZED,
        r.1@ == msg_bad_token(),
{
    (STATUS_UNAUTHORIZED, String::from_str("Invalid or expired token."))
}

fn permission_denied() -> (r: (u16, String))
    ensures
        r.0 == STATUS_FORBIDDEN,
        r.1@ == msg_permission(),
{
    (STATUS_FORBIDDEN, String::from_str("Permission denied."))
}

fn service_status_code_and_message(error: &ServiceError) -> (r: (u16, String))
    ensures
        (r.0, r.1@) == service_status_and_message(*error),
{
    match error {
        ServiceError::Repository(e) => match e {
            RepositoryError::NotFound { entity: _, id: _ } => not_found(),
            RepositoryError::DatabaseQueryFailed(_) => internal(),
            RepositoryError::ConsistencyViolation(_) => internal(),
        },
        ServiceError::Auth(e) => match e {
            AuthError::HashingFailed => internal(),
            AuthError::InvalidLoginCredentials => (
                STATUS_UNAUTHORIZED,
                String::from_str("Invalid email or password."),
            ),
            AuthError::MissingToken
            | AuthError::InvalidToken
            | AuthError::ExpiredToken
            | AuthError::RevokedToken => bad_token(),
            AuthError::TokenCreationFailed => internal(),
        },
        ServiceError::UserStatus(e) => match e {
            UserStatusError::Disabled => (
                STATUS_FORBIDDEN,
                String::from_str("User account is disabled."),
            ),
            UserStatusError::Pending => (
                STATUS_FORBIDDEN,
                String::from_str("User account is pending activation."),
            ),
            UserStatusError::Locked => (
                STATUS_FORBIDDEN,
                String::from_str("User account is locked."),
            ),
        },
        ServiceError::UserRole(_) => permission_denied(),
        ServiceError::CurrentUserExtractionError => internal(),
        ServiceError::Internal(_) => internal(),
    }
}

/// Determines the status code and the user-facing message of an error.
pub fn get_status_code_and_message(error: &WebError) -> (r: (u16, String))
    ensures
        (r.0, r.1@) == status_and_message(*error),
{
    match error {
        WebError::Controller(controller_error) => service_status_code_and_message(controller_error),
        WebError::AuthorizationBearer => bad_token(),
        // A missing user in the request parts means a route that should sit
        // behind the authentication middleware does not.
        WebError::UserExtraction => internal(),
        WebError::UserRole(_) => permission_denied(),
        WebError::Health(_) => (
            STATUS_SERVICE_UNAVAILABLE,
            String::from_str("Service is temporarily unavailable."),
        ),
        WebError::Panic(_) => internal(),
        WebError::NotFound(_) => not_found(),
    }
}

/// The public body of the answer to an error.
pub fn client_error(error: &WebError) -> (r: ClientError)
    ensures
        r.message@ == status_and_message(*error).1,
{
    let (_, message) = get_status_code_and_message(error);
    ClientError { message }
}

/// The status of an error answer says what went wrong: 401 exactly when the
/// caller could not be authenticated (bad credentials, or a missing, bad,
/// expired or revoked token), 403 exactly when an authenticated account may
/// not act (its status or its role), 404 exactly when what was asked for is
/// not there, 503 exactly when the service is not ready, and 500 for every
/// other failure, which is the server's own.
pub proof fn error_status_says_what_went_wrong(error: WebError, r: (u16, String))
    requires
        call_ensures(get_status_code_and_message, (&error,), r),
    ensures
        r.0 == 401 <==> match error {
            WebError::AuthorizationBearer => true,
            WebError::Controller(ServiceError::Auth(a)) => !(a is HashingFailed) && !(a is TokenCreationFailed),
            _ => false,
        },
        r.0 == 403 <==> match error {
            WebError::UserRole(_) => true,
            WebError::Controller(ServiceError::UserStatus(_)) => true,
            WebError::Controller(ServiceError::UserRole(_)) => true,
            _ => false,
        },
        r.0 == 404 <==> match error {
            WebError::NotFound(_) => true,
            WebError::Controller(ServiceError::Repository(RepositoryError::NotFound { .. })) => true,
            _ => false,
        },
        r.0 == 503 <==> error is Health,
        r.0 == 401 || r.0 == 403 || r.0 == 404 || r.0 == 503 || r.0 == 500,
{
}

} // verus!
