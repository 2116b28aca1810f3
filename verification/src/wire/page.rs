//! Static pages as the engine sees them.

use vstd::prelude::*;
use crate::error::Error;
use crate::validate::{has_length_within, length_within, verdict, Validate};
use crate::wire::user::UserId;
use crate::wire::Language;

verus! {

/// The identity of a page: the 128 bits of its UUID.
#[derive(Clone, Copy, Debug, PartialEq, Eq, Structural)]
pub struct PageId(pub u128);

/// What a page shows.
#[derive(Debug)]
pub struct PageContent {
    pub name: Language,
    pub content: Language,
    /// Whether the page is shown to everybody.
    pub is_public: bool,
}

impl Validate for PageContent {
    /// A page has no rules: its texts are taken as they come.
    open spec fn valid(&self) -> bool {
        true
    }

    fn validate(&self) -> (res: Result<(), Error>) {
        Ok(())
    }
}

/// A static page.
#[derive(Debug)]
pub struct Page {
    pub page_id: PageId,
    /// The name under which the page is found.
    pub slug: String,
    pub content: PageContent,
    pub created_by: UserId,
    pub created: i128,
    pub updated: i128,
}

impl Validate for Page {
    /// The slug has at least 1 and at most 100 characters.
    open spec fn valid(&self) -> bool {
        length_within(self.slug@, 1, 100)
    }

    fn validate(&self) -> (res: Result<(), Error>) {
        verdict(has_length_within(self.slug.as_str(), 1, 100))
    }
}

} // verus!
