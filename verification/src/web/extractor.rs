//! Who is making a request, and whether their role suffices.

use vstd::prelude::*;

use crate::error::ServiceError;
use crate::model::{CurrentUser, UserRole, UserRoleError};
use crate::web::error::WebError;

verus! {

/// The user of the request, as the authentication middleware left it in the
/// request; a request without one reached a route that should sit behind that
/// middleware.
pub fn current_user(found: Option<CurrentUser>) -> (r: Result<CurrentUser, WebError>)
    ensures
        match found {
            Some(u) => r matches Ok(v) && v == u,
            None => r matches Err(WebError::UserExtraction),
        },
{
    match found {
        Some(user) => Ok(user),
        None => Err(WebError::UserExtraction),
    }
}

/// Proof that the user of a request holds at least the role whose level is
/// `MIN_ROLE`.
#[derive(Debug, Clone, Copy)]
pub struct RequireRole<const MIN_ROLE: u8>(pub CurrentUser);

/// Routes open to every role.
pub type RequireStandard = RequireRole<1>;

/// Routes open to support and administrators.
pub type RequireSupport = RequireRole<2>;

/// Routes open to administrators only.
pub type RequireAdmin = RequireRole<3>;

/// The refusal of a user whose role is below `min_role`.
pub open spec fn role_refusal(user: CurrentUser, min_role: i16) -> WebError {
    WebError::Controller(ServiceError::UserRole(UserRoleError { required: min_role, current: user.role.spec_level() }))
}

impl<const MIN_ROLE: u8> RequireRole<MIN_ROLE> {
    /// Admits the user when the level of their role is at least `MIN_ROLE`.
    pub fn from_current_user(user: CurrentUser) -> (r: Result<Self, WebError>)
        ensures
            user.role.spec_level() >= MIN_ROLE ==> (r matches Ok(g) && g.0 == user),
            user.role.spec_level() < MIN_ROLE ==> (r matches Err(e) && e == role_refusal(user, MIN_ROLE as i16)),
    {
        let level = user.role.level();
        let min_role = MIN_ROLE as i16;
        if level >= min_role {
            Ok(RequireRole(user))
        } else {
            Err(WebError::Controller(ServiceError::UserRole(UserRoleError { required: min_role, current: level })))
        }
    }

    /// Reads the user of the request and admits them when their role is at
    /// least `MIN_ROLE`.
    pub fn from_request_parts(found: Option<CurrentUser>) -> (r: Result<Self, WebError>)
        ensures
            match found {
                None => r matches Err(WebError::UserExtraction),
                Some(u) => if u.role.spec_level() >= MIN_ROLE {
                    r matches Ok(g) && g.0 == u
                } else {
                    r matches Err(e) && e == role_refusal(u, MIN_ROLE as i16)
                },
            },
    {
        let user = current_user(found)?;
        Self::from_current_user(user)
    }
}

/// The role guards follow the order of the roles: the administrators' guard
/// admits administrators only, the support guard admits support staff and
/// administrators, and the standard guard admits every role; an admitted
/// request carries its user unchanged, and a refused one reports the role
/// it had against the one required.
pub proof fn role_guards_follow_the_order_of_roles(
    user: CurrentUser,
    admin: Result<RequireRole<3>, WebError>,
    support: Result<RequireRole<2>, WebError>,
    standard: Result<RequireRole<1>, WebError>,
)
    requires
        call_ensures(RequireRole::<3>::from_current_user, (user,), admin),
        call_ensures(RequireRole::<2>::from_current_user, (user,), support),
        call_ensures(RequireRole::<1>::from_current_user, (user,), standard),
    ensures
        admin is Ok <==> user.role == UserRole::Admin,
        support is Ok <==> (user.role == UserRole::Admin || user.role == UserRole::Support),
        standard is Ok,
        admin matches Ok(g) ==> g.0 == user,
        support matches Ok(g) ==> g.0 == user,
        standard matches Ok(g) ==> g.0 == user,
        admin matches Err(e) ==> e == WebError::Controller(
            ServiceError::UserRole(UserRoleError { required: 3, current: user.role.spec_level() }),
        ),
        support matches Err(e) ==> e == WebError::Controller(
            ServiceError::UserRole(UserRoleError { required: 2, current: user.role.spec_level() }),
        ),
{
}

} // verus!
