//! The session of a logged-in user.

use vstd::prelude::*;
use crate::auth::role::{MembershipStatus, Role};
use crate::wire::user::UserId;

verus! {

/// Who is acting: the user, the roles held and the membership status.
///
/// A session is a plain value that is handed to every decision; nothing in
/// the engine looks a session up.
#[derive(Debug)]
pub struct Session {
    pub user_id: UserId,
    pub roles: Vec<Role>,
    pub membership_status: MembershipStatus,
}

impl Session {
    /// A session of `user_id` with the given roles and status.
    pub fn new(user_id: UserId, roles: Vec<Role>, membership_status: MembershipStatus) -> (session:
        Session)
        ensures
            session.user_id == user_id,
            session.roles == roles,
            session.membership_status == membership_status,
    {
        Session { user_id, roles, membership_status }
    }

    /// The acting user.
    pub fn user_id(&self) -> (user_id: &UserId)
        ensures
            *user_id == self.user_id,
    {
        &self.user_id
    }

    /// The roles the acting user holds.
    pub fn roles(&self) -> (roles: &Vec<Role>)
        ensures
            *roles == self.roles,
    {
        &self.roles
    }

    /// The membership status of the acting user.
    pub fn membership_status(&self) -> (status: MembershipStatus)
        ensures
            status == self.membership_status,
    {
        self.membership_status
    }
}

} // verus!
