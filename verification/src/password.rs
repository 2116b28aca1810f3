//! Passwords: hashing them and holding them against a stored hash.

use vstd::prelude::*;
use crate::error::Error;

verus! {

/// What holding a password against a stored hash gave.
#[derive(Clone, Copy, Debug, PartialEq, Eq, Structural)]
pub enum PasswordCheck {
    /// The stored hash is what the password hashes to.
    Match,
    /// The stored hash is not what the password hashes to, or it holds no
    /// salt or no output to compare with.
    Mismatch,
    /// The stored hash could not be read, or names what Argon2 cannot
    /// compute.
    Failure,
}

/// What holding `password` against the stored `hash` gives.
pub uninterp spec fn password_check(password: Seq<char>, hash: Seq<char>) -> PasswordCheck;

/// Holds a password against a stored hash in the PHC string format.
///
/// Reads the hash with `argon2::PasswordHash::new` and calls
/// `argon2::PasswordVerifier::verify_password` on `argon2::Argon2::default()`,
/// which hashes the password with the salt and the parameters of the stored
/// hash and compares. The result depends on the two texts alone; the
/// contract names it and claims no more of it.
#[verifier::external_body]
pub(crate) fn check_password(password: &str, hash: &str) -> (check: PasswordCheck)
    ensures
        check == password_check(password@, hash@),
{
    match argon2::PasswordHash::new(hash) {
        Ok(parsed) => match argon2::PasswordVerifier::verify_password(
            &argon2::Argon2::default(),
            password.as_bytes(),
            &parsed,
        ) {
            Ok(()) => PasswordCheck::Match,
            Err(argon2::password_hash::Error::Password) => PasswordCheck::Mismatch,
            Err(_) => PasswordCheck::Failure,
        },
        Err(_) => PasswordCheck::Failure,
    }
}

/// Hashes a password with a salt of its own, as a PHC string; `None` if
/// Argon2 fails.
///
/// Draws the salt with `argon2::password_hash::SaltString::generate` from the
/// random numbers of the operating system and calls
/// `argon2::PasswordHasher::hash_password` on `argon2::Argon2::default()`.
/// The salt is chance, so the text of the hash is not claimed, nor that there
/// is one. What is claimed holds whatever the salt: a hash that is handed
/// out matches the password it was made of, since `verify_password` hashes
/// again with the salt and the parameters that the hash carries. The
/// documentation of `argon2` shows this very sequence.
#[verifier::external_body]
pub(crate) fn hash_password(password: &str) -> (hashed: Option<String>)
    ensures
        hashed matches Some(hash) ==> password_check(password@, hash@) == PasswordCheck::Match,
{
    let salt = argon2::password_hash::SaltString::generate(
        &mut argon2::password_hash::rand_core::OsRng,
    );
    match argon2::PasswordHasher::hash_password(
        &argon2::Argon2::default(),
        password.as_bytes(),
        &salt,
    ) {
        Ok(hash) => Some(hash.to_string()),
        Err(_) => None,
    }
}

/// What a check of a password means for the one who logs in: a match lets
/// them in, a mismatch is `Unauthorized`, a failure is `Internal`.
pub open spec fn access_after(check: PasswordCheck) -> Result<(), Error> {
    match check {
        PasswordCheck::Match => Ok(()),
        PasswordCheck::Mismatch => Err(Error::Unauthorized),
        PasswordCheck::Failure => Err(Error::Internal),
    }
}

/// What a check of a password means for the one who logs in.
pub fn grant_after(check: PasswordCheck) -> (res: Result<(), Error>)
    ensures
        res == access_after(check),
{
    match check {
        PasswordCheck::Match => Ok(()),
        PasswordCheck::Mismatch => Err(Error::Unauthorized),
        PasswordCheck::Failure => Err(Error::Internal),
    }
}

/// Holds `password` against the stored `hash`: see [`access_after`].
pub fn verify_password(password: &str, hash: &str) -> (res: Result<(), Error>)
    ensures
        res == access_after(password_check(password@, hash@)),
{
    grant_after(check_password(password, hash))
}

/// What an attempt to hash a password means for the one who stores it: a
/// hash is stored, a failure is `Internal`.
pub open spec fn stored_after(hashed: Option<String>) -> Result<String, Error> {
    match hashed {
        Some(hash) => Ok(hash),
        None => Err(Error::Internal),
    }
}

/// What an attempt to hash a password means for the one who stores it.
pub fn store_after(hashed: Option<String>) -> (res: Result<String, Error>)
    ensures
        res == stored_after(hashed),
{
    match hashed {
        Some(hash) => Ok(hash),
        None => Err(Error::Internal),
    }
}

/// The hash under which `password` is stored; `Internal` if it cannot be
/// hashed. The hash holds a salt drawn by chance, so two hashes of one
/// password differ; each of them matches the password, so that
/// [`verify_password`] lets in who knows it.
pub fn password_hash(password: &str) -> (res: Result<String, Error>)
    ensures
        res is Err ==> res == Err::<String, Error>(Error::Internal),
        res matches Ok(hash) ==> password_check(password@, hash@) == PasswordCheck::Match,
{
    store_after(hash_password(password))
}

} // verus!
