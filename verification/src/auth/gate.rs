//! The authorization gate: the tier of an actor towards an event and one of
//! its registrations.

use vstd::prelude::*;
use crate::auth::role::{has_board_role, holds_board_role};
use crate::auth::session::Session;
use crate::wire::committee::{chairs_committee, is_committee_chair, CommitteeId, UserCommittee};
use crate::wire::user::UserId;

verus! {

/// What an actor is towards an event and a registration for it.
#[derive(Clone, Copy, Debug, PartialEq, Eq, Structural)]
pub enum ActorTier {
    /// Nobody, or somebody with no say in the matter.
    Unauthenticated,
    /// The user that the registration is for.
    SelfActing(UserId),
    /// The chair of the committee that owns the event.
    CommitteePrivileged,
    /// The administrator or the board.
    FullAccess,
}

impl ActorTier {
    /// Whether the tier is privileged: the admission policy treats the chair
    /// of the owning committee and the board alike.
    pub open spec fn spec_is_privileged(&self) -> bool {
        *self == ActorTier::CommitteePrivileged || *self == ActorTier::FullAccess
    }

    /// Whether the tier is privileged.
    #[verifier::when_used_as_spec(spec_is_privileged)]
    pub fn is_privileged(&self) -> (privileged: bool)
        ensures
            privileged == self.spec_is_privileged(),
    {
        match self {
            ActorTier::CommitteePrivileged | ActorTier::FullAccess => true,
            ActorTier::Unauthenticated | ActorTier::SelfActing(_) => false,
        }
    }

    /// Whether the tier lets the actor act on a registration of `subject`:
    /// a privileged actor on any, a user on their own.
    pub open spec fn spec_may_act_for(&self, subject: Option<UserId>) -> bool {
        match *self {
            ActorTier::FullAccess | ActorTier::CommitteePrivileged => true,
            ActorTier::SelfActing(user) => subject == Some(user),
            ActorTier::Unauthenticated => false,
        }
    }

    /// Whether the tier lets the actor act on a registration of `subject`.
    #[verifier::when_used_as_spec(spec_may_act_for)]
    pub fn may_act_for(&self, subject: Option<UserId>) -> (allowed: bool)
        ensures
            allowed == self.spec_may_act_for(subject),
    {
        match self {
            ActorTier::FullAccess | ActorTier::CommitteePrivileged => true,
            ActorTier::SelfActing(user) => match subject {
                Some(s) => s == *user,
                None => false,
            },
            ActorTier::Unauthenticated => false,
        }
    }
}

/// The tier of an actor.
///
/// The administrator and the board have full access. The chair of the
/// committee `owner`, by a running term among `terms`, is privileged for that
/// committee's events. A user acting on their own registration is themself.
/// Everybody else, and nobody, is unauthenticated.
pub open spec fn tier_of(
    session: Option<Session>,
    terms: Seq<UserCommittee>,
    owner: CommitteeId,
    subject: Option<UserId>,
) -> ActorTier {
    match session {
        None => ActorTier::Unauthenticated,
        Some(s) => if has_board_role(s.roles@) {
            ActorTier::FullAccess
        } else if chairs_committee(terms, s.user_id, owner) {
            ActorTier::CommitteePrivileged
        } else if subject == Some(s.user_id) {
            ActorTier::SelfActing(s.user_id)
        } else {
            ActorTier::Unauthenticated
        },
    }
}

/// Classifies the actor: see [`tier_of`]. There is always an answer: an
/// actor that cannot be placed gets the most restrictive tier.
pub fn tier(
    session: Option<&Session>,
    terms: &Vec<UserCommittee>,
    owner: &CommitteeId,
    subject: Option<UserId>,
) -> (tier: ActorTier)
    ensures
        tier == tier_of(
            match session {
                Some(s) => Some(*s),
                None => None,
            },
            terms@,
            *owner,
            subject,
        ),
{
    match session {
        None => ActorTier::Unauthenticated,
        Some(s) => {
            if holds_board_role(s.roles()) {
                ActorTier::FullAccess
            } else if is_committee_chair(terms, s.user_id, *owner) {
                ActorTier::CommitteePrivileged
            } else {
                let own = match subject {
                    Some(user) => user == s.user_id,
                    None => false,
                };
                if own {
                    ActorTier::SelfActing(s.user_id)
                } else {
                    ActorTier::Unauthenticated
                }
            }
        },
    }
}

} // verus!
