//! Roles within the association and the membership status of a user.

use vstd::prelude::*;

verus! {

/// The roles a user holds.
pub type Roles = Vec<Role>;

/// An office or function within the association.
#[derive(Clone, Copy, Debug, PartialEq, Eq, Structural)]
#[non_exhaustive]
pub enum Role {
    Admin,
    Treasurer,
    Secretary,
    Chair,
    ViceChair,
    ClimbingCommissar,
    ActivityCommissionMember,
}

impl Role {
    /// Whether the role is an office of the board or that of the
    /// administrator.
    pub open spec fn spec_is_board(&self) -> bool {
        match *self {
            Role::Admin
            | Role::Treasurer
            | Role::Secretary
            | Role::Chair
            | Role::ViceChair
            | Role::ClimbingCommissar => true,
            Role::ActivityCommissionMember => false,
        }
    }

    /// Whether the role is an office of the board or that of the
    /// administrator.
    #[verifier::when_used_as_spec(spec_is_board)]
    pub fn is_board(&self) -> (board: bool)
        ensures
            board == self.spec_is_board(),
    {
        match self {
            Role::Admin
            | Role::Treasurer
            | Role::Secretary
            | Role::Chair
            | Role::ViceChair
            | Role::ClimbingCommissar => true,
            Role::ActivityCommissionMember => false,
        }
    }

    /// Whether the role lets its holder organise activities: the offices of
    /// the board, the administrator and the members of the activity
    /// commission do.
    pub open spec fn spec_may_organise(&self) -> bool {
        match *self {
            Role::Admin
            | Role::Treasurer
            | Role::Secretary
            | Role::Chair
            | Role::ViceChair
            | Role::ClimbingCommissar
            | Role::ActivityCommissionMember => true,
        }
    }

    /// Whether the role lets its holder organise activities.
    #[verifier::when_used_as_spec(spec_may_organise)]
    pub fn may_organise(&self) -> (organiser: bool)
        ensures
            organiser == self.spec_may_organise(),
    {
        match self {
            Role::Admin
            | Role::Treasurer
            | Role::Secretary
            | Role::Chair
            | Role::ViceChair
            | Role::ClimbingCommissar
            | Role::ActivityCommissionMember => true,
        }
    }
}

/// Whether one of the roles is an office of the board or that of the
/// administrator.
pub open spec fn has_board_role(roles: Seq<Role>) -> bool {
    exists|i: int| 0 <= i < roles.len() && (#[trigger] roles[i]).is_board()
}

/// Whether one of the roles lets its holder organise activities.
pub open spec fn has_organising_role(roles: Seq<Role>) -> bool {
    exists|i: int| 0 <= i < roles.len() && (#[trigger] roles[i]).may_organise()
}

/// Whether one of the roles is an office of the board or that of the
/// administrator.
pub fn holds_board_role(roles: &Vec<Role>) -> (found: bool)
    ensures
        found == has_board_role(roles@),
{
    let mut i: usize = 0;
    while i < roles.len()
        invariant
            i <= roles@.len(),
            forall|j: int| 0 <= j < i ==> !(#[trigger] roles@[j]).is_board(),
        decreases roles@.len() - i,
    {
        if roles[i].is_board() {
            return true;
        }
        i += 1;
    }
    false
}

/// Whether one of the roles lets its holder organise activities.
pub fn holds_organising_role(roles: &Vec<Role>) -> (found: bool)
    ensures
        found == has_organising_role(roles@),
{
    let mut i: usize = 0;
    while i < roles.len()
        invariant
            i <= roles@.len(),
            forall|j: int| 0 <= j < i ==> !(#[trigger] roles@[j]).may_organise(),
        decreases roles@.len() - i,
    {
        if roles[i].may_organise() {
            return true;
        }
        i += 1;
    }
    false
}

/// How a user stands towards the association.
#[derive(Clone, Copy, Debug, PartialEq, Eq, Structural)]
pub enum MembershipStatus {
    Pending,
    Member,
    Affiliated,
    /// The tag by which an event declares that it needs no membership.
    NonMember,
    Donor,
}

impl MembershipStatus {
    /// Whether the status counts as membership: `Member` and `Affiliated` do.
    pub open spec fn spec_is_member(&self) -> bool {
        *self == MembershipStatus::Member || *self == MembershipStatus::Affiliated
    }

    /// Whether the status counts as membership.
    #[verifier::when_used_as_spec(spec_is_member)]
    pub fn is_member(&self) -> (member: bool)
        ensures
            member == self.spec_is_member(),
    {
        match self {
            MembershipStatus::Pending | MembershipStatus::NonMember | MembershipStatus::Donor => {
                false
            },
            MembershipStatus::Member | MembershipStatus::Affiliated => true,
        }
    }
}

} // verus!
