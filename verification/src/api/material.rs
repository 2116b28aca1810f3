//! Who may read and change the material that users hold.

use vstd::prelude::*;
use crate::api::location::is_board_member;
use crate::auth::role::holds_board_role;
use crate::auth::session::Session;
use crate::error::{AppResult, Error};
use crate::wire::user::UserId;

verus! {

/// Lets members of the board read all material; everybody else is
/// `Unauthorized`.
pub fn read_all_access(session: &Session) -> (res: AppResult<()>)
    ensures
        res is Ok <==> is_board_member(*session),
        res is Err ==> res == Err::<(), Error>(Error::Unauthorized),
{
    if session.membership_status().is_member() && holds_board_role(session.roles()) {
        Ok(())
    } else {
        Err(Error::Unauthorized)
    }
}

/// Lets members of the board and the user `id` change the material of `id`;
/// everybody else is `Unauthorized`.
pub fn update_access(id: &UserId, session: &Session) -> (res: AppResult<()>)
    ensures
        res is Ok <==> is_board_member(*session) || *id == session.user_id,
        res is Err ==> res == Err::<(), Error>(Error::Unauthorized),
{
    if read_all_access(session).is_ok() || *id == session.user_id {
        Ok(())
    } else {
        Err(Error::Unauthorized)
    }
}

} // verus!
