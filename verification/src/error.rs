//! Errors of the repository and service layers, and how one becomes another.

use vstd::prelude::*;

use crate::model::{UserRoleError, UserStatusError};
use crate::token::TokenError;

verus! {

/// Why a repository operation failed.
#[derive(Debug, Clone)]
pub enum RepositoryError {
    /// The database refused or failed the query; the text describes the failure.
    DatabaseQueryFailed(String),
    /// No row of `entity` has this id.
    NotFound { entity: &'static str, id: i64 },
    /// A row broke an invariant that the schema cannot express.
    ConsistencyViolation(String),
}

/// The keyed hash of a token could not be computed: the key length is refused.
#[derive(Debug, Clone, Copy, PartialEq, Eq, Structural)]
pub struct InvalidLength;

/// A password could not be hashed.
#[derive(Debug, Clone, Copy, PartialEq, Eq, Structural)]
pub enum PasswordError {
    PasswordHashingFailed,
}

/// Why authentication failed.
#[derive(Debug, Clone, Copy, PartialEq, Eq, Structural)]
pub enum AuthError {
    HashingFailed,
    InvalidLoginCredentials,
    MissingToken,
    InvalidToken,
    ExpiredToken,
    RevokedToken,
    TokenCreationFailed,
}

/// The authentication error that stands for a token error.
pub open spec fn auth_error_of_token_error(e: TokenError) -> AuthError {
    match e {
        TokenError::InvalidToken => AuthError::InvalidToken,
        TokenError::ExpiredToken => AuthError::ExpiredToken,
        TokenError::TokenCreationFailed => AuthError::TokenCreationFailed,
    }
}

impl From<TokenError> for AuthError {
    fn from(error: TokenError) -> (r: AuthError)
        ensures
            r == auth_error_of_token_error(error),
    {
        match error {
            TokenError::InvalidToken => AuthError::InvalidToken,
            TokenError::ExpiredToken => AuthError::ExpiredToken,
            TokenError::TokenCreationFailed => AuthError::TokenCreationFailed,
        }
    }
}

impl vstd::std_specs::convert::FromSpecImpl<TokenError> for AuthError {
    open spec fn obeys_from_spec() -> bool {
        true
    }

    open spec fn from_spec(v: TokenError) -> AuthError {
        auth_error_of_token_error(v)
    }
}

impl From<PasswordError> for AuthError {
    fn from(error: PasswordError) -> (r: AuthError)
        ensures
            r == AuthError::HashingFailed,
    {
        match error {
            PasswordError::PasswordHashingFailed => AuthError::HashingFailed,
        }
    }
}

impl vstd::std_specs::convert::FromSpecImpl<PasswordError> for AuthError {
    open spec fn obeys_from_spec() -> bool {
        true
    }

    open spec fn from_spec(v: PasswordError) -> AuthError {
        AuthError::HashingFailed
    }
}

impl From<InvalidLength> for AuthError {
    fn from(error: InvalidLength) -> (r: AuthError)
        ensures
            r == AuthError::HashingFailed,
    {
        AuthError::HashingFailed
    }
}

impl vstd::std_specs::convert::FromSpecImpl<InvalidLength> for AuthError {
    open spec fn obeys_from_spec() -> bool {
        true
    }

    open spec fn from_spec(v: InvalidLength) -> AuthError {
        AuthError::HashingFailed
    }
}

/// Error of the service layer.
#[derive(Debug, Clone)]
pub enum ServiceError {
    Repository(RepositoryError),
    Auth(AuthError),
    UserStatus(UserStatusError),
    UserRole(UserRoleError),
    CurrentUserExtractionError,
    Internal(String),
}

} // verus!
