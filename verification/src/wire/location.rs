//! Locations as the engine sees them.

use vstd::prelude::*;
use crate::error::Error;
use crate::validate::{verdict, Validate};
use crate::wire::Language;

verus! {

/// The identity of a location: the 128 bits of its UUID.
#[derive(Clone, Copy, Debug, PartialEq, Eq, Structural)]
pub struct LocationId(pub u128);

/// A location as its keepers describe it.
#[derive(Debug)]
pub struct LocationContent {
    pub name: Language,
    /// Whether the location may be chosen for more than one event.
    pub reusable: bool,
    pub description: Language,
}

impl Validate for LocationContent {
    /// The name and the description keep the rules of [`Language`].
    open spec fn valid(&self) -> bool {
        self.name.valid() && self.description.valid()
    }

    fn validate(&self) -> (res: Result<(), Error>) {
        verdict(self.name.validate().is_ok() && self.description.validate().is_ok())
    }
}

} // verus!
