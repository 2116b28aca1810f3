//! Identities: making new ones and reading them from text.

use vstd::prelude::*;

verus! {

/// A new identity.
///
/// Calls `uuid::Uuid::now_v7` and hands out its 128 bits. The bits come from
/// the clock and from chance, so nothing is claimed of them: not even that
/// two calls differ.
#[verifier::external_body]
pub(crate) fn fresh_uuid() -> u128 {
    uuid::Uuid::now_v7().as_u128()
}

/// The 128 bits of the UUID that `text` spells, if it spells one.
pub uninterp spec fn parsed_uuid(text: Seq<char>) -> Option<u128>;

/// Reads a UUID from its text.
///
/// Calls `uuid::Uuid::parse_str`, which accepts the simple, hyphenated, URN
/// and braced forms and depends on the text alone. The contract names the
/// result and claims no more of it.
#[verifier::external_body]
pub(crate) fn parse_uuid(text: &str) -> (id: Option<u128>)
    ensures
        id == parsed_uuid(text@),
{
    match uuid::Uuid::parse_str(text) {
        Ok(uuid) => Some(uuid.as_u128()),
        Err(_) => None,
    }
}

} // verus!
