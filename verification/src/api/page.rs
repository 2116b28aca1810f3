//! Who may read and change static pages.

use vstd::prelude::*;
use crate::api::activity::is_organiser;
use crate::auth::role::holds_organising_role;
use crate::auth::session::Session;
use crate::error::{AppResult, Error};
use crate::wire::page::Page;

verus! {

/// Lets organisers change pages; everybody else is `Unauthorized`.
pub fn update_access(session: &Session) -> (res: AppResult<()>)
    ensures
        res is Ok <==> is_organiser(*session),
        res is Err ==> res == Err::<(), Error>(Error::Unauthorized),
{
    if session.membership_status().is_member() && holds_organising_role(session.roles()) {
        Ok(())
    } else {
        Err(Error::Unauthorized)
    }
}

/// Lets everybody read a public page and organisers read any; everybody
/// else is `Unauthorized`.
pub fn read_access(page: &Page, session: &Session) -> (res: AppResult<()>)
    ensures
        res is Ok <==> page.content.is_public || is_organiser(*session),
        res is Err ==> res == Err::<(), Error>(Error::Unauthorized),
{
    if page.content.is_public || update_access(session).is_ok() {
        Ok(())
    } else {
        Err(Error::Unauthorized)
    }
}

} // verus!
