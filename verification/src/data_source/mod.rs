//! The stores of the engine.

use vstd::prelude::*;

pub mod density;
pub mod event;
pub mod queue;

verus! {

/// How many items a list holds in all.
#[derive(Clone, Copy, Debug, PartialEq, Eq, Structural)]
pub struct Count {
    pub count: i64,
}

impl Count {
    /// The name of the header that carries the count, and the count.
    pub fn as_header(&self) -> (header: (&'static str, i64))
        ensures
            header.0@ == "X-Total-Count"@,
            header.1 == self.count,
    {
        ("X-Total-Count", self.count)
    }
}

} // verus!
