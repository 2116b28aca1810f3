//! Who may upload files.

use vstd::prelude::*;
use crate::api::activity::is_organiser;
use crate::api::is_admin_or_board;
use crate::auth::role::{has_board_role, holds_organising_role};
use crate::auth::session::Session;
use crate::error::{AppResult, Error};
use crate::wire::committee::{in_any_committee, is_in_any_committee, UserCommittee};

verus! {

/// The longest side, in pixels, that a stored picture may have.
pub const MAX_IMAGE_SIDE: u32 = 1500;

/// Whether a picture of the given width and height is scaled down before it
/// is stored: one with a side above [`MAX_IMAGE_SIDE`] is.
pub open spec fn exceeds_image_bound(width: u32, height: u32) -> bool {
    width > MAX_IMAGE_SIDE || height > MAX_IMAGE_SIDE
}

/// Whether a picture of the given width and height is scaled down before it
/// is stored.
pub fn needs_scaling(width: u32, height: u32) -> (scale: bool)
    ensures
        scale == exceeds_image_bound(width, height),
{
    width > MAX_IMAGE_SIDE || height > MAX_IMAGE_SIDE
}

/// Lets the administrator, the board and everybody with a running term on a
/// committee store files; everybody else is `Unauthorized`.
pub fn store_access(session: &Session, terms: &Vec<UserCommittee>) -> (res: AppResult<()>)
    ensures
        res is Ok <==> has_board_role(session.roles@) || in_any_committee(
            terms@,
            session.user_id,
        ),
        res is Err ==> res == Err::<(), Error>(Error::Unauthorized),
{
    if is_admin_or_board(session).is_ok() {
        return Ok(());
    }
    if is_in_any_committee(terms, session.user_id) {
        Ok(())
    } else {
        Err(Error::Unauthorized)
    }
}

/// Lets organisers upload and list files; everybody else is
/// `Unauthorized`.
pub fn upload_access(session: &Session) -> (res: AppResult<()>)
    ensures
        res is Ok <==> is_organiser(*session),
        res is Err ==> res == Err::<(), Error>(Error::Unauthorized),
{
    if session.membership_status().is_member() && holds_organising_role(session.roles()) {
        Ok(())
    } else {
        Err(Error::Unauthorized)
    }
}

} // verus!
