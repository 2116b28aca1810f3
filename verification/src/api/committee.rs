//! Who may change committees.

use vstd::prelude::*;
use crate::api::is_admin_or_board;
use crate::auth::role::has_board_role;
use crate::auth::session::Session;
use crate::error::{AppResult, Error};
use crate::wire::committee::{chairs_committee, is_committee_chair, CommitteeId, UserCommittee};

verus! {

/// Lets the administrator, the board and the chair of the committee pass;
/// everybody else is `Unauthorized`. The chair is who has, among
/// `user_committees`, a running term as chair of the committee.
pub fn committee_access(
    session: &Session,
    committee_id: &CommitteeId,
    user_committees: &Vec<UserCommittee>,
) -> (res: AppResult<()>)
    ensures
        res is Ok <==> has_board_role(session.roles@) || chairs_committee(
            user_committees@,
            session.user_id,
            *committee_id,
        ),
        res is Err ==> res == Err::<(), Error>(Error::Unauthorized),
{
    if is_admin_or_board(session).is_ok() {
        return Ok(());
    }
    if is_committee_chair(user_committees, session.user_id, *committee_id) {
        Ok(())
    } else {
        Err(Error::Unauthorized)
    }
}

} // verus!
