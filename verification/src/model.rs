//! Users, roles, statuses and the records that the authentication flows read.

use vstd::prelude::*;

use crate::time::Timestamp;

verus! {

/// Role of a user. Roles are ordered: every role can do what the roles
/// below it can.
#[derive(Debug, Clone, Copy, PartialEq, Eq, Structural)]
pub enum UserRole {
    Standard,
    Support,
    Admin,
}

impl UserRole {
    /// The number by which a role is stored and compared.
    pub open spec fn spec_level(self) -> i16 {
        match self {
            UserRole::Standard => 1,
            UserRole::Support => 2,
            UserRole::Admin => 3,
        }
    }

    pub fn level(&self) -> (l: i16)
        ensures
            l == self.spec_level(),
    {
        match self {
            UserRole::Standard => 1,
            UserRole::Support => 2,
            UserRole::Admin => 3,
        }
    }

    /// The role stored under `level`, if there is one.
    pub open spec fn spec_from_level(level: i64) -> Option<UserRole> {
        if level == 1 {
            Some(UserRole::Standard)
        } else if level == 2 {
            Some(UserRole::Support)
        } else if level == 3 {
            Some(UserRole::Admin)
        } else {
            None
        }
    }

    pub fn from_level(level: i64) -> (r: Option<UserRole>)
        ensures
            r == Self::spec_from_level(level),
    {
        if level == 1 {
            Some(UserRole::Standard)
        } else if level == 2 {
            Some(UserRole::Support)
        } else if level == 3 {
            Some(UserRole::Admin)
        } else {
            None
        }
    }
}

/// Status of a user account.
#[derive(Debug, Clone, Copy, PartialEq, Eq, Structural)]
pub enum UserStatus {
    Pending,
    Active,
    Disabled,
    Locked,
}

/// Why an account that is not active was refused.
#[derive(Debug, Clone, Copy, PartialEq, Eq, Structural)]
pub enum UserStatusError {
    Disabled,
    Pending,
    Locked,
}

impl UserStatus {
    /// The number by which a status is stored.
    pub open spec fn spec_level(self) -> i16 {
        match self {
            UserStatus::Pending => 0,
            UserStatus::Active => 1,
            UserStatus::Disabled => 2,
            UserStatus::Locked => 3,
        }
    }

    pub fn level(&self) -> (l: i16)
        ensures
            l == self.spec_level(),
    {
        match self {
            UserStatus::Pending => 0,
            UserStatus::Active => 1,
            UserStatus::Disabled => 2,
            UserStatus::Locked => 3,
        }
    }

    /// The status stored under `level`, if there is one.
    pub open spec fn spec_from_level(level: i64) -> Option<UserStatus> {
        if level == 0 {
            Some(UserStatus::Pending)
        } else if level == 1 {
            Some(UserStatus::Active)
        } else if level == 2 {
            Some(UserStatus::Disabled)
        } else if level == 3 {
            Some(UserStatus::Locked)
        } else {
            None
        }
    }

    pub fn from_level(level: i64) -> (r: Option<UserStatus>)
        ensures
            r == Self::spec_from_level(level),
            r matches Some(s) ==> s.spec_level() == level,
    {
        if level == 0 {
            Some(UserStatus::Pending)
        } else if level == 1 {
            Some(UserStatus::Active)
        } else if level == 2 {
            Some(UserStatus::Disabled)
        } else if level == 3 {
            Some(UserStatus::Locked)
        } else {
            None
        }
    }

    /// The error by which an account with this status is refused, or none
    /// when the account is active.
    pub open spec fn spec_check(self) -> Result<(), UserStatusError> {
        match self {
            UserStatus::Active => Ok(()),
            UserStatus::Disabled => Err(UserStatusError::Disabled),
            UserStatus::Pending => Err(UserStatusError::Pending),
            UserStatus::Locked => Err(UserStatusError::Locked),
        }
    }

    /// Accepts an active account and refuses every other one.
    pub fn check_status(&self) -> (r: Result<(), UserStatusError>)
        ensures
            r == self.spec_check(),
            r is Ok <==> *self == UserStatus::Active,
    {
        match self {
            UserStatus::Active => Ok(()),
            UserStatus::Disabled => Err(UserStatusError::Disabled),
            UserStatus::Pending => Err(UserStatusError::Pending),
            UserStatus::Locked => Err(UserStatusError::Locked),
        }
    }
}

/// A role is read back from the number it is stored under, and only a
/// stored number reads back as a role.
pub proof fn role_levels_round_trip(role: UserRole, level: i64)
    ensures
        UserRole::spec_from_level(role.spec_level() as i64) == Some(role),
        UserRole::spec_from_level(level) matches Some(r) ==> r.spec_level() == level,
{
}

/// A status is read back from the number it is stored under, and only a
/// stored number reads back as a status.
pub proof fn status_levels_round_trip(status: UserStatus, level: i64)
    ensures
        UserStatus::spec_from_level(status.spec_level() as i64) == Some(status),
        UserStatus::spec_from_level(level) matches Some(s) ==> s.spec_level() == level,
{
}

/// Roles are ordered by their numbers: each role is above the one before it.
pub proof fn roles_are_ordered()
    ensures
        UserRole::Standard.spec_level() < UserRole::Support.spec_level(),
        UserRole::Support.spec_level() < UserRole::Admin.spec_level(),
{
}

/// A request was made by a user whose role is below the one required.
#[derive(Debug, Clone, Copy, PartialEq, Eq, Structural)]
pub struct UserRoleError {
    pub required: i16,
    pub current: i16,
}

/// The authenticated user of a request.
#[derive(Debug, Clone, Copy, PartialEq, Eq, Structural)]
pub struct CurrentUser {
    pub id: i64,
    pub role: UserRole,
}

/// What login needs to know of a user: identity, password hash, role and status.
#[derive(Debug, Clone)]
pub struct LoginCredentialsEntity {
    pub id: i64,
    pub password_hash: String,
    pub role: UserRole,
    pub status: UserStatus,
}

/// What a client learns of the user that logged in.
#[derive(Debug, Clone)]
pub struct LoggedUserInfoVo {
    pub id: i64,
    pub username: String,
    pub email: String,
    pub role: UserRole,
}

/// Answer to a successful login or refresh.
#[derive(Debug, Clone)]
pub struct AuthResponseVo {
    pub access_token: String,
    pub refresh_token: String,
    pub user_info: LoggedUserInfoVo,
}

/// A stored refresh token. Tokens are kept by the hash of their value;
/// all tokens issued from one login share a family.
#[derive(Debug, Clone)]
pub struct RefreshTokenEntity {
    pub id: i64,
    pub user_id: i64,
    pub family_id: u128,
    pub token_hash: Vec<u8>,
    pub is_revoked: bool,
    pub expires_at: Timestamp,
}

/// A refresh token to be stored.
#[derive(Debug, Clone)]
pub struct CreateRefreshTokenDto {
    pub user_id: i64,
    pub family_id: u128,
    pub token_hash: Vec<u8>,
    pub expires_at: Timestamp,
}

} // verus!
