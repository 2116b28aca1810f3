//! The rules on the size and range of what callers submit.

use vstd::prelude::*;
use vstd::string::StrSliceExecFns;
use crate::error::Error;

verus! {

/// A value with rules on what it may hold.
pub trait Validate {
    /// Whether the value keeps its rules.
    spec fn valid(&self) -> bool;

    /// `Ok` if the value keeps its rules, `Validation` if it breaks one.
    fn validate(&self) -> (res: Result<(), Error>)
        ensures
            res is Ok <==> self.valid(),
            res is Err ==> res == Err::<(), Error>(Error::Validation),
    ;
}

/// Whether the text has at least `min` and at most `max` characters.
pub open spec fn length_within(text: Seq<char>, min: nat, max: nat) -> bool {
    min <= text.len() <= max
}

/// Whether the text has at least `min` and at most `max` characters.
pub fn has_length_within(text: &str, min: usize, max: usize) -> (within: bool)
    ensures
        within == length_within(text@, min as nat, max as nat),
{
    let length = text.unicode_len();
    min <= length && length <= max
}

/// Whether the text, if there is one, has at least `min` and at most `max`
/// characters.
pub open spec fn optional_length_within(text: Option<String>, min: nat, max: nat) -> bool {
    text matches Some(t) ==> length_within(t@, min, max)
}

/// Whether the text, if there is one, has at least `min` and at most `max`
/// characters.
pub fn has_optional_length_within(text: &Option<String>, min: usize, max: usize) -> (within: bool)
    ensures
        within == optional_length_within(*text, min as nat, max as nat),
{
    match text {
        Some(t) => has_length_within(t.as_str(), min, max),
        None => true,
    }
}

/// Whether the number, if there is one, is at least `min` and at most `max`.
pub open spec fn optional_number_within(number: Option<i32>, min: i32, max: i32) -> bool {
    number matches Some(n) ==> min <= n <= max
}

/// Whether the number, if there is one, is at least `min` and at most `max`.
pub fn is_optional_number_within(number: Option<i32>, min: i32, max: i32) -> (within: bool)
    ensures
        within == optional_number_within(number, min, max),
{
    match number {
        Some(n) => min <= n && n <= max,
        None => true,
    }
}

/// `Ok` if `valid`, `Validation` if not.
pub fn verdict(valid: bool) -> (res: Result<(), Error>)
    ensures
        res is Ok <==> valid,
        res is Err ==> res == Err::<(), Error>(Error::Validation),
{
    if valid {
        Ok(())
    } else {
        Err(Error::Validation)
    }
}

/// Whether the text is an e-mail address as `validator` reads one.
pub uninterp spec fn well_formed_email(text: Seq<char>) -> bool;

/// Whether the text is an e-mail address.
///
/// Calls `validator::ValidateEmail::validate_email`, which holds the text to
/// the form that HTML5 asks of an e-mail address and depends on the text
/// alone. The contract names the result and claims no more of it.
#[verifier::external_body]
pub(crate) fn is_email(text: &str) -> (ok: bool)
    ensures
        ok == well_formed_email(text@),
{
    validator::ValidateEmail::validate_email(&text)
}

/// Whether the text, if there is one, is an e-mail address.
pub open spec fn optional_email(text: Option<String>) -> bool {
    text matches Some(t) ==> well_formed_email(t@)
}

/// Whether the text, if there is one, is an e-mail address.
pub fn is_optional_email(text: &Option<String>) -> (ok: bool)
    ensures
        ok == optional_email(*text),
{
    match text {
        Some(t) => is_email(t.as_str()),
        None => true,
    }
}

} // verus!
