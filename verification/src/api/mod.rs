//! The operations that the engine offers, each with the check of who may
//! ask for it.

use vstd::prelude::*;
use crate::auth::role::{has_board_role, holds_board_role};
use crate::auth::session::Session;
use crate::error::{AppResult, Error};
use crate::validate::{verdict, Validate};

pub mod activity;
pub mod committee;
pub mod event;
pub mod file;
pub mod location;
pub mod material;
pub mod page;
pub mod user;

verus! {

/// Which part of a list a caller asks for.
#[derive(Clone, Copy, Debug, PartialEq, Eq, Structural)]
pub struct Pagination {
    /// How many items at most.
    pub limit: i64,
    /// How many items to pass over first.
    pub offset: i64,
}

/// The limit of a request that names none.
pub fn get_50() -> (limit: i64)
    ensures
        limit == 50,
{
    50
}

impl Default for Pagination {
    /// The first fifty items.
    fn default() -> (pagination: Pagination)
        ensures
            pagination == (Pagination { limit: 50, offset: 0 }),
    {
        Pagination { limit: get_50(), offset: 0 }
    }
}

impl Validate for Pagination {
    /// The limit is at least 1 and at most 50; the offset is not negative.
    open spec fn valid(&self) -> bool {
        1 <= self.limit <= 50 && self.offset >= 0
    }

    fn validate(&self) -> (res: Result<(), Error>) {
        verdict(1 <= self.limit && self.limit <= 50 && self.offset >= 0)
    }
}

/// A submitted value that keeps its rules.
///
/// [`ValidatedJson::new`] hands out only values that passed validation.
#[derive(Debug)]
pub struct ValidatedJson<T>(pub T);

impl<T: Validate> ValidatedJson<T> {
    /// Wraps a value that keeps its rules; `Validation` for one that does
    /// not.
    pub fn new(value: T) -> (res: Result<ValidatedJson<T>, Error>)
        ensures
            match res {
                Ok(validated) => value.valid() && validated.0 == value,
                Err(e) => !value.valid() && e == Error::Validation,
            },
    {
        match value.validate() {
            Ok(_) => Ok(ValidatedJson(value)),
            Err(_) => Err(Error::Validation),
        }
    }
}

/// The parameters of a query that keep their rules.
///
/// [`ValidatedQuery::new`] hands out only values that passed validation.
#[derive(Debug)]
pub struct ValidatedQuery<T>(pub T);

impl<T: Validate> ValidatedQuery<T> {
    /// Wraps a value that keeps its rules; `Validation` for one that does
    /// not.
    pub fn new(value: T) -> (res: Result<ValidatedQuery<T>, Error>)
        ensures
            match res {
                Ok(validated) => value.valid() && validated.0 == value,
                Err(e) => !value.valid() && e == Error::Validation,
            },
    {
        match value.validate() {
            Ok(_) => Ok(ValidatedQuery(value)),
            Err(_) => Err(Error::Validation),
        }
    }
}

/// Lets the administrator and the board pass: `Ok` if the session holds one
/// of their roles, `Unauthorized` if not.
pub fn is_admin_or_board(session: &Session) -> (res: AppResult<()>)
    ensures
        res is Ok <==> has_board_role(session.roles@),
        res is Err ==> res == Err::<(), Error>(Error::Unauthorized),
{
    if holds_board_role(session.roles()) {
        Ok(())
    } else {
        Err(Error::Unauthorized)
    }
}

} // verus!
