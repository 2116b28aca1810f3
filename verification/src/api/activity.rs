//! Who may organise activities and read who registered for them.

use vstd::prelude::*;
use crate::auth::role::{has_organising_role, holds_organising_role};
use crate::auth::session::Session;
use crate::error::{AppResult, Error};
use crate::wire::user::UserId;

verus! {

/// Whether the session is that of an organiser: a member who holds a role
/// that lets its holder organise.
pub open spec fn is_organiser(session: Session) -> bool {
    session.membership_status.is_member() && has_organising_role(session.roles@)
}

/// Lets organisers pass; everybody else is `Unauthorized`.
pub fn update_all_full_activity_access(session: &Session) -> (res: AppResult<()>)
    ensures
        res is Ok <==> is_organiser(*session),
        res is Err ==> res == Err::<(), Error>(Error::Unauthorized),
{
    if session.membership_status().is_member() && holds_organising_role(session.roles()) {
        Ok(())
    } else {
        Err(Error::Unauthorized)
    }
}

/// Lets organisers and the user `id` pass; everybody else is
/// `Unauthorized`.
pub fn update_single_full_registration_access(id: &UserId, session: &Session) -> (res: AppResult<
    (),
>)
    ensures
        res is Ok <==> is_organiser(*session) || *id == session.user_id,
        res is Err ==> res == Err::<(), Error>(Error::Unauthorized),
{
    if update_all_full_activity_access(session).is_ok() || *id == session.user_id {
        Ok(())
    } else {
        Err(Error::Unauthorized)
    }
}

/// Lets members pass; everybody else is `Unauthorized`.
pub fn read_all_basic_registrations_access(session: &Session) -> (res: AppResult<()>)
    ensures
        res is Ok <==> session.membership_status.is_member(),
        res is Err ==> res == Err::<(), Error>(Error::Unauthorized),
{
    if update_all_full_activity_access(session).is_ok() || session.membership_status().is_member() {
        Ok(())
    } else {
        Err(Error::Unauthorized)
    }
}

} // verus!
