//! The material that users hold.

use vstd::prelude::*;
use crate::error::Error;
use crate::validate::{has_length_within, length_within, verdict, Validate};
use crate::wire::user::UserId;

verus! {

/// A kind of material.
#[derive(Debug)]
pub struct Material {
    pub material_id: u128,
    pub name_en: String,
    pub name_nl: String,
}

impl Validate for Material {
    /// Both names have 1 to 100 characters.
    open spec fn valid(&self) -> bool {
        length_within(self.name_en@, 1, 100) && length_within(self.name_nl@, 1, 100)
    }

    fn validate(&self) -> (res: Result<(), Error>) {
        verdict(
            has_length_within(self.name_en.as_str(), 1, 100) && has_length_within(
                self.name_nl.as_str(),
                1,
                100,
            ),
        )
    }
}

/// How much of one kind of material a user holds.
#[derive(Clone, Copy, Debug, PartialEq, Eq, Structural)]
pub struct UserMaterial {
    pub user_id: UserId,
    pub material_id: u128,
    pub material_amount: i32,
}

impl UserMaterial {
    /// Whether writing the record takes the material from the user: an
    /// amount below 1 does, and no record is kept of it.
    pub open spec fn spec_removes(&self) -> bool {
        self.material_amount < 1
    }

    /// Whether writing the record takes the material from the user.
    #[verifier::when_used_as_spec(spec_removes)]
    pub fn removes(&self) -> (removal: bool)
        ensures
            removal == self.spec_removes(),
    {
        self.material_amount < 1
    }
}

impl Validate for UserMaterial {
    /// The amount is not negative and has at most nine digits.
    open spec fn valid(&self) -> bool {
        0 <= self.material_amount <= 999_999_999
    }

    fn validate(&self) -> (res: Result<(), Error>) {
        verdict(0 <= self.material_amount && self.material_amount <= 999_999_999)
    }
}

} // verus!
