//! Who may change locations, and which locations a caller gets to see.

use vstd::prelude::*;
use crate::api::Pagination;
use crate::auth::role::{has_board_role, holds_board_role};
use crate::auth::session::Session;
use crate::error::{AppResult, Error};
use crate::validate::Validate;

verus! {

/// Which locations a caller asks for.
#[derive(Clone, Copy, Debug, PartialEq, Eq, Structural)]
pub struct LocationFilter {
    /// Only those that may be reused, or only those that may not; all, if
    /// absent.
    pub reusable: Option<bool>,
    pub pagination: Pagination,
}

impl Validate for LocationFilter {
    /// The pagination keeps its rules.
    open spec fn valid(&self) -> bool {
        self.pagination.valid()
    }

    fn validate(&self) -> (res: Result<(), Error>) {
        self.pagination.validate()
    }
}

/// Whether the session is that of a member of the board: a member who holds
/// an office of the board or is the administrator.
pub open spec fn is_board_member(session: Session) -> bool {
    session.membership_status.is_member() && has_board_role(session.roles@)
}

/// Lets members of the board pass; everybody else is `Unauthorized`.
pub fn update_access(session: &Session) -> (res: AppResult<()>)
    ensures
        res is Ok <==> is_board_member(*session),
        res is Err ==> res == Err::<(), Error>(Error::Unauthorized),
{
    if session.membership_status().is_member() && holds_board_role(session.roles()) {
        Ok(())
    } else {
        Err(Error::Unauthorized)
    }
}

/// The filter that is applied for a caller: members of the board get what
/// they ask for, everybody else only the locations that may be reused.
pub fn visible_locations(filter: LocationFilter, session: Option<&Session>) -> (applied:
    LocationFilter)
    ensures
        applied.pagination == filter.pagination,
        applied.reusable == if session matches Some(s) && is_board_member(*s) {
            filter.reusable
        } else {
            Some(true)
        },
{
    let mut applied = filter;
    match session {
        None => {
            applied.reusable = Some(true);
        },
        Some(session) => {
            if update_access(session).is_err() {
                applied.reusable = Some(true);
            }
        },
    }
    applied
}

} // verus!
