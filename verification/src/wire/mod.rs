//! The data that crosses the boundary of the engine: events, registrations,
//! users and the small types they are built from.

use vstd::prelude::*;
use crate::error::Error;
use crate::validate::{has_length_within, length_within, verdict, Validate};

pub mod committee;
pub mod event;
pub mod file;
pub mod location;
pub mod material;
pub mod page;
pub mod user;

verus! {

/// A text in the two languages of the association.
#[derive(Debug)]
pub struct Language {
    pub en: String,
    pub nl: String,
}

impl Validate for Language {
    /// Neither text has more than 50000 characters.
    open spec fn valid(&self) -> bool {
        length_within(self.en@, 0, 50000) && length_within(self.nl@, 0, 50000)
    }

    fn validate(&self) -> (res: Result<(), Error>) {
        verdict(
            has_length_within(self.en.as_str(), 0, 50000) && has_length_within(
                self.nl.as_str(),
                0,
                50000,
            ),
        )
    }
}

} // verus!
