//! Committees and who sits on them.

use vstd::prelude::*;
use crate::error::Error;
use crate::validate::{verdict, Validate};
use crate::wire::file::FileId;
use crate::wire::user::UserId;
use crate::wire::Language;

verus! {

/// The identity of a committee: the 128 bits of its UUID.
#[derive(Clone, Copy, Debug, PartialEq, Eq, Structural)]
pub struct CommitteeId(pub u128);

/// A committee as its chair describes it.
#[derive(Debug)]
pub struct CommitteeContent {
    pub name: Language,
    pub description: Language,
    pub image: Option<FileId>,
}

impl Validate for CommitteeContent {
    /// The name and the description keep the rules of [`Language`].
    open spec fn valid(&self) -> bool {
        self.name.valid() && self.description.valid()
    }

    fn validate(&self) -> (res: Result<(), Error>) {
        verdict(self.name.validate().is_ok() && self.description.validate().is_ok())
    }
}

/// What a user is on a committee.
#[derive(Clone, Copy, Debug, PartialEq, Eq, Structural)]
pub enum CommitteeRole {
    Chair,
    Member,
}

/// One term of a user on a committee. Instants are in nanoseconds since the
/// Unix epoch; a term that has not ended has no `left`.
#[derive(Clone, Copy, Debug, PartialEq, Eq, Structural)]
pub struct UserCommittee {
    pub user_id: UserId,
    pub committee_id: CommitteeId,
    pub role: CommitteeRole,
    pub joined: i128,
    pub left: Option<i128>,
}

impl UserCommittee {
    /// Whether the term is a running term of `user` on `committee`.
    pub open spec fn spec_is_active_for(&self, user: UserId, committee: CommitteeId) -> bool {
        self.user_id == user && self.committee_id == committee && self.left is None
    }

    /// Whether the term is a running term of `user` on `committee`.
    #[verifier::when_used_as_spec(spec_is_active_for)]
    pub fn is_active_for(&self, user: UserId, committee: CommitteeId) -> (active: bool)
        ensures
            active == self.spec_is_active_for(user, committee),
    {
        self.user_id == user && self.committee_id == committee && self.left.is_none()
    }
}

/// Whether `user` has a running term on `committee`.
pub open spec fn in_committee(
    terms: Seq<UserCommittee>,
    user: UserId,
    committee: CommitteeId,
) -> bool {
    exists|i: int| 0 <= i < terms.len() && (#[trigger] terms[i]).is_active_for(user, committee)
}

/// Whether `user` has a running term on any committee.
pub open spec fn in_any_committee(terms: Seq<UserCommittee>, user: UserId) -> bool {
    exists|i: int|
        0 <= i < terms.len() && (#[trigger] terms[i]).user_id == user && terms[i].left is None
}

/// Whether `user` has a running term as chair of `committee`.
pub open spec fn chairs_committee(
    terms: Seq<UserCommittee>,
    user: UserId,
    committee: CommitteeId,
) -> bool {
    exists|i: int|
        0 <= i < terms.len() && (#[trigger] terms[i]).is_active_for(user, committee)
            && terms[i].role == CommitteeRole::Chair
}

/// Whether `user` has a running term on `committee`.
pub fn is_in_committee(terms: &Vec<UserCommittee>, user: UserId, committee: CommitteeId) -> (found:
    bool)
    ensures
        found == in_committee(terms@, user, committee),
{
    let mut i: usize = 0;
    while i < terms.len()
        invariant
            i <= terms@.len(),
            forall|j: int| 0 <= j < i ==> !(#[trigger] terms@[j]).is_active_for(user, committee),
        decreases terms@.len() - i,
    {
        if terms[i].is_active_for(user, committee) {
            return true;
        }
        i += 1;
    }
    false
}

/// Whether `user` has a running term as chair of `committee`.
pub fn is_committee_chair(
    terms: &Vec<UserCommittee>,
    user: UserId,
    committee: CommitteeId,
) -> (found: bool)
    ensures
        found == chairs_committee(terms@, user, committee),
{
    let mut i: usize = 0;
    while i < terms.len()
        invariant
            i <= terms@.len(),
            forall|j: int|
                0 <= j < i ==> !((#[trigger] terms@[j]).is_active_for(user, committee)
                    && terms@[j].role == CommitteeRole::Chair),
        decreases terms@.len() - i,
    {
        if terms[i].is_active_for(user, committee) && terms[i].role == CommitteeRole::Chair {
            return true;
        }
        i += 1;
    }
    false
}

/// Whether `user` has a running term on any committee.
pub fn is_in_any_committee(terms: &Vec<UserCommittee>, user: UserId) -> (found: bool)
    ensures
        found == in_any_committee(terms@, user),
{
    let mut i: usize = 0;
    while i < terms.len()
        invariant
            i <= terms@.len(),
            forall|j: int|
                0 <= j < i ==> !((#[trigger] terms@[j]).user_id == user && terms@[j].left is None),
        decreases terms@.len() - i,
    {
        if terms[i].user_id == user && terms[i].left.is_none() {
            return true;
        }
        i += 1;
    }
    false
}

/// `Ok` if `user` has a running term on `committee`, `NotInCommittee` if
/// not.
pub fn ensure_user_in_committee(
    terms: &Vec<UserCommittee>,
    user_id: &UserId,
    committee_id: &CommitteeId,
) -> (res: Result<(), Error>)
    ensures
        res is Ok <==> in_committee(terms@, *user_id, *committee_id),
        res is Err ==> res == Err::<(), Error>(Error::NotInCommittee),
{
    if is_in_committee(terms, *user_id, *committee_id) {
        Ok(())
    } else {
        Err(Error::NotInCommittee)
    }
}

} // verus!
