//! The typed errors that the engine hands back to its caller.

use vstd::prelude::*;

verus! {

/// Why a request was turned down.
///
/// Every variant but `Internal` is a rule of the domain that the request
/// broke; such a request is never retried and leaves the store untouched.
#[derive(Clone, Copy, Debug, PartialEq, Eq, Structural)]
pub enum Error {
    /// The actor's tier does not allow the requested action.
    Unauthorized,
    /// The event or the registration does not exist.
    NotFound,
    /// The registration period is not open and the actor is not privileged.
    WindowClosed,
    /// The waiting list is full.
    CapacityExceeded,
    /// The explicitly requested position is neither the tail of the waiting
    /// list nor the registration's current position.
    InvalidPosition,
    /// The waiting list can only be left, joined at its tail or at its front.
    CannotReorderArbitrarily,
    /// A required question has no answer.
    MissingRequiredAnswer,
    /// A submitted value breaks a rule on its size or range.
    Validation,
    /// The text names no kind of event.
    InvalidEventType,
    /// The user is not an active member of the committee.
    NotInCommittee,
    /// The storage refused the write.
    Internal,
}

/// The result of an operation of the engine.
pub type AppResult<T> = Result<T, Error>;

} // verus!
