//! Who may read and change users.

use vstd::prelude::*;
use crate::api::location::is_board_member;
use crate::auth::role::holds_board_role;
use crate::auth::session::Session;
use crate::error::{AppResult, Error};
use crate::wire::user::UserId;

verus! {

/// How much of a user an actor may change.
#[derive(Clone, Copy, Debug, PartialEq, Eq, Structural)]
pub enum UpdateAccess {
    /// Every field.
    Anything,
    /// The fields that users keep up to date themselves.
    SelfUpdate,
}

/// How much of the users an actor may read.
#[derive(Clone, Copy, Debug, PartialEq, Eq, Structural)]
pub enum ReadAccess {
    /// All details of all users.
    Full,
    /// The names of all users: what every member may see.
    Limited,
}

/// Lets members of the board change and delete users; everybody else is
/// `Unauthorized`.
pub fn update_all_access(session: &Session) -> (res: AppResult<()>)
    ensures
        res is Ok <==> is_board_member(*session),
        res is Err ==> res == Err::<(), Error>(Error::Unauthorized),
{
    if session.membership_status().is_member() && holds_board_role(session.roles()) {
        Ok(())
    } else {
        Err(Error::Unauthorized)
    }
}

/// Lets members of the board and the user `id` read the user `id`. To
/// everybody else the user is `NotFound`.
pub fn read_access(id: &UserId, session: &Session) -> (res: AppResult<()>)
    ensures
        res is Ok <==> is_board_member(*session) || *id == session.user_id,
        res is Err ==> res == Err::<(), Error>(Error::NotFound),
{
    if update_all_access(session).is_ok() || *id == session.user_id {
        Ok(())
    } else {
        Err(Error::NotFound)
    }
}

/// How much of the user `id` the actor may change: anything for members of
/// the board, their own fields for the user themself. To everybody else the
/// user is `NotFound`.
pub fn update_access(id: &UserId, session: &Session) -> (res: AppResult<UpdateAccess>)
    ensures
        res == if is_board_member(*session) {
            Ok::<UpdateAccess, Error>(UpdateAccess::Anything)
        } else if *id == session.user_id {
            Ok(UpdateAccess::SelfUpdate)
        } else {
            Err(Error::NotFound)
        },
{
    if update_all_access(session).is_ok() {
        Ok(UpdateAccess::Anything)
    } else if *id == session.user_id {
        Ok(UpdateAccess::SelfUpdate)
    } else {
        Err(Error::NotFound)
    }
}

/// How much of the users the actor may read: everything for members of the
/// board, the names for other members. Everybody else is `Unauthorized`.
pub fn read_all_access(session: &Session) -> (res: AppResult<ReadAccess>)
    ensures
        res == if is_board_member(*session) {
            Ok::<ReadAccess, Error>(ReadAccess::Full)
        } else if session.membership_status.is_member() {
            Ok(ReadAccess::Limited)
        } else {
            Err(Error::Unauthorized)
        },
{
    if update_all_access(session).is_ok() {
        Ok(ReadAccess::Full)
    } else if session.membership_status().is_member() {
        Ok(ReadAccess::Limited)
    } else {
        Err(Error::Unauthorized)
    }
}

} // verus!
