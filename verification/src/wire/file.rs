//! Uploaded files as the engine sees them.

use vstd::prelude::*;

verus! {

/// The identity of an uploaded file: the 128 bits of its UUID.
#[derive(Clone, Copy, Debug, PartialEq, Eq, Structural)]
pub struct FileId(pub u128);

} // verus!
