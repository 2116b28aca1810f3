//! Users as the engine sees them.

use vstd::prelude::*;
use crate::auth::role::{MembershipStatus, Role};
use crate::error::Error;
use crate::password::{
    access_after, password_check, password_hash, verify_password, PasswordCheck,
};
use crate::validate::{
    has_length_within, has_optional_length_within, is_email, is_optional_email,
    is_optional_number_within, length_within, optional_email, optional_length_within,
    optional_number_within, verdict, well_formed_email, Validate,
};

verus! {

/// The identity of a user: the 128 bits of its UUID.
#[derive(Clone, Copy, Debug, PartialEq, Eq, Structural)]
pub struct UserId(pub u128);

/// What a user is known by to other members.
#[derive(Debug)]
pub struct BasicUser {
    pub user_id: UserId,
    pub first_name: String,
    pub infix: Option<String>,
    pub last_name: String,
}

/// What is kept about a user.
#[derive(Debug)]
pub struct UserContent {
    pub first_name: String,
    pub infix: Option<String>,
    pub last_name: String,
    pub phone: String,
    pub student_number: Option<i32>,
    pub nkbv_number: Option<i32>,
    pub sportcard_number: Option<i32>,
    pub ice_contact_name: Option<String>,
    pub ice_contact_email: Option<String>,
    pub ice_contact_phone: Option<String>,
    pub important_info: Option<String>,
    pub roles: Vec<Role>,
    pub status: MembershipStatus,
    pub email: String,
}

/// A user as the store holds it.
#[derive(Debug)]
pub struct User {
    pub id: UserId,
    pub created: i128,
    pub updated: i128,
    pub content: UserContent,
}

impl UserContent {
    /// Whether the user keeps the rules, given whether the e-mail address
    /// and that of the contact in case of emergency are well formed.
    ///
    /// Names have 1 to 100 characters, the three numbers at most nine
    /// digits, the important information 1 to 10000 characters.
    pub open spec fn valid_given(&self, email: bool, ice_contact_email: bool) -> bool {
        &&& length_within(self.first_name@, 1, 100)
        &&& optional_length_within(self.infix, 1, 100)
        &&& length_within(self.last_name@, 1, 100)
        &&& optional_number_within(self.student_number, 0, 999_999_999)
        &&& optional_number_within(self.nkbv_number, 0, 999_999_999)
        &&& optional_number_within(self.sportcard_number, 0, 999_999_999)
        &&& optional_length_within(self.ice_contact_name, 1, 100)
        &&& ice_contact_email
        &&& optional_length_within(self.ice_contact_phone, 1, 100)
        &&& optional_length_within(self.important_info, 1, 10000)
        &&& email
    }

    /// Whether the user keeps the rules, given whether the e-mail address
    /// and that of the contact in case of emergency are well formed.
    pub fn is_valid_given(&self, email: bool, ice_contact_email: bool) -> (ok: bool)
        ensures
            ok == self.valid_given(email, ice_contact_email),
    {
        has_length_within(self.first_name.as_str(), 1, 100) && has_optional_length_within(
            &self.infix,
            1,
            100,
        ) && has_length_within(self.last_name.as_str(), 1, 100) && is_optional_number_within(
            self.student_number,
            0,
            999_999_999,
        ) && is_optional_number_within(self.nkbv_number, 0, 999_999_999)
            && is_optional_number_within(self.sportcard_number, 0, 999_999_999)
            && has_optional_length_within(&self.ice_contact_name, 1, 100) && ice_contact_email
            && has_optional_length_within(&self.ice_contact_phone, 1, 100)
            && has_optional_length_within(&self.important_info, 1, 10000) && email
    }

    /// The user after they changed what users keep up to date themselves:
    /// the phone, the three numbers, the contact in case of emergency, the
    /// important information and the e-mail address come from `submitted`;
    /// the name, the roles and the status stay.
    pub fn self_update(self, submitted: UserContent) -> (updated: UserContent)
        ensures
            updated == (UserContent {
                first_name: self.first_name,
                infix: self.infix,
                last_name: self.last_name,
                roles: self.roles,
                status: self.status,
                ..submitted
            }),
    {
        UserContent {
            first_name: self.first_name,
            infix: self.infix,
            last_name: self.last_name,
            roles: self.roles,
            status: self.status,
            phone: submitted.phone,
            student_number: submitted.student_number,
            nkbv_number: submitted.nkbv_number,
            sportcard_number: submitted.sportcard_number,
            ice_contact_name: submitted.ice_contact_name,
            ice_contact_email: submitted.ice_contact_email,
            ice_contact_phone: submitted.ice_contact_phone,
            important_info: submitted.important_info,
            email: submitted.email,
        }
    }
}

impl Validate for UserContent {
    /// The rules of [`UserContent::valid_given`], with both e-mail addresses
    /// well formed.
    open spec fn valid(&self) -> bool {
        self.valid_given(well_formed_email(self.email@), optional_email(self.ice_contact_email))
    }

    fn validate(&self) -> (res: Result<(), Error>) {
        let email = is_email(self.email.as_str());
        let ice_contact_email = is_optional_email(&self.ice_contact_email);
        verdict(self.is_valid_given(email, ice_contact_email))
    }
}

impl Validate for User {
    /// The content keeps its rules.
    open spec fn valid(&self) -> bool {
        self.content.valid()
    }

    fn validate(&self) -> (res: Result<(), Error>) {
        self.content.validate()
    }
}

/// What a user logs in with. It cannot be printed, so that no password
/// ends up in a log.
pub struct UserCredentials {
    pub email: String,
    pub password: String,
}

impl UserCredentials {
    /// Holds the password against the stored `hash`, a PHC string: `Ok` if it
    /// is the password that was hashed, `Unauthorized` if it is another,
    /// `Internal` if the hash cannot be used.
    pub fn verify_pwd(&self, hash: &str) -> (res: Result<(), Error>)
        ensures
            res == access_after(password_check(self.password@, hash@)),
    {
        verify_password(self.password.as_str(), hash)
    }

    /// Whether the credentials keep the rules, given whether the e-mail
    /// address is well formed: the password has 1 to 128 characters.
    pub open spec fn valid_given(&self, email: bool) -> bool {
        email && length_within(self.password@, 1, 128)
    }

    /// Whether the credentials keep the rules, given whether the e-mail
    /// address is well formed.
    pub fn is_valid_given(&self, email: bool) -> (ok: bool)
        ensures
            ok == self.valid_given(email),
    {
        email && has_length_within(self.password.as_str(), 1, 128)
    }
}

impl Validate for UserCredentials {
    /// The rules of [`UserCredentials::valid_given`], with the e-mail address
    /// well formed.
    open spec fn valid(&self) -> bool {
        self.valid_given(well_formed_email(self.email@))
    }

    fn validate(&self) -> (res: Result<(), Error>) {
        let email = is_email(self.email.as_str());
        verdict(self.is_valid_given(email))
    }
}

/// A new password. It cannot be printed, so that no password ends up in a
/// log.
pub struct Password {
    pub password: String,
}

impl Password {
    /// The hash under which the password is stored; `Internal` if it cannot
    /// be hashed. A hash that is handed out matches the password.
    pub fn pwd_hash(&self) -> (res: Result<String, Error>)
        ensures
            res is Err ==> res == Err::<String, Error>(Error::Internal),
            res matches Ok(hash) ==> password_check(self.password@, hash@)
                == PasswordCheck::Match,
    {
        password_hash(self.password.as_str())
    }
}

impl Validate for Password {
    /// The password has 10 to 128 characters.
    open spec fn valid(&self) -> bool {
        length_within(self.password@, 10, 128)
    }

    fn validate(&self) -> (res: Result<(), Error>) {
        verdict(has_length_within(self.password.as_str(), 10, 128))
    }
}

/// What somebody submits to become a user. It cannot be printed, so that no
/// password ends up in a log.
pub struct RegisterNewUser {
    pub first_name: String,
    pub infix: Option<String>,
    pub last_name: String,
    pub email: String,
    pub password: String,
    pub phone: String,
    pub student_number: Option<i32>,
    pub nkbv_number: Option<i32>,
    pub sportcard_number: Option<i32>,
    pub ice_contact_name: Option<String>,
    pub ice_contact_email: Option<String>,
    pub ice_contact_phone: Option<String>,
    pub important_info: Option<String>,
    pub status: MembershipStatus,
}

impl RegisterNewUser {
    /// The hash under which the password is stored; `Internal` if it cannot
    /// be hashed. A hash that is handed out matches the password.
    pub fn pwd_hash(&self) -> (res: Result<String, Error>)
        ensures
            res is Err ==> res == Err::<String, Error>(Error::Internal),
            res matches Ok(hash) ==> password_check(self.password@, hash@)
                == PasswordCheck::Match,
    {
        password_hash(self.password.as_str())
    }

    /// Whether the submission keeps the rules, given whether the e-mail
    /// address and that of the contact in case of emergency are well formed.
    ///
    /// Names have 1 to 100 characters, the password 10 to 128, the three
    /// numbers at most nine digits, the important information 1 to 10000
    /// characters.
    pub open spec fn valid_given(&self, email: bool, ice_contact_email: bool) -> bool {
        &&& length_within(self.first_name@, 1, 100)
        &&& optional_length_within(self.infix, 1, 100)
        &&& length_within(self.last_name@, 1, 100)
        &&& email
        &&& length_within(self.password@, 10, 128)
        &&& optional_number_within(self.student_number, 0, 999_999_999)
        &&& optional_number_within(self.nkbv_number, 0, 999_999_999)
        &&& optional_number_within(self.sportcard_number, 0, 999_999_999)
        &&& optional_length_within(self.ice_contact_name, 1, 100)
        &&& ice_contact_email
        &&& optional_length_within(self.ice_contact_phone, 1, 100)
        &&& optional_length_within(self.important_info, 1, 10000)
    }

    /// Whether the submission keeps the rules, given whether the e-mail
    /// address and that of the contact in case of emergency are well formed.
    pub fn is_valid_given(&self, email: bool, ice_contact_email: bool) -> (ok: bool)
        ensures
            ok == self.valid_given(email, ice_contact_email),
    {
        has_length_within(self.first_name.as_str(), 1, 100) && has_optional_length_within(
            &self.infix,
            1,
            100,
        ) && has_length_within(self.last_name.as_str(), 1, 100) && email && has_length_within(
            self.password.as_str(),
            10,
            128,
        ) && is_optional_number_within(self.student_number, 0, 999_999_999)
            && is_optional_number_within(self.nkbv_number, 0, 999_999_999)
            && is_optional_number_within(self.sportcard_number, 0, 999_999_999)
            && has_optional_length_within(&self.ice_contact_name, 1, 100) && ice_contact_email
            && has_optional_length_within(&self.ice_contact_phone, 1, 100)
            && has_optional_length_within(&self.important_info, 1, 10000)
    }

    /// The user that the submission asks for: with no roles, and pending
    /// whatever status was submitted.
    pub fn into_content(self) -> (content: UserContent)
        ensures
            content == (UserContent {
                first_name: self.first_name,
                infix: self.infix,
                last_name: self.last_name,
                roles: content.roles,
                status: MembershipStatus::Pending,
                email: self.email,
                phone: self.phone,
                student_number: self.student_number,
                nkbv_number: self.nkbv_number,
                sportcard_number: self.sportcard_number,
                ice_contact_name: self.ice_contact_name,
                ice_contact_email: self.ice_contact_email,
                ice_contact_phone: self.ice_contact_phone,
                important_info: self.important_info,
            }),
            content.roles@.len() == 0,
    {
        UserContent {
            first_name: self.first_name,
            infix: self.infix,
            last_name: self.last_name,
            roles: Vec::new(),
            status: MembershipStatus::Pending,
            email: self.email,
            phone: self.phone,
            student_number: self.student_number,
            nkbv_number: self.nkbv_number,
            sportcard_number: self.sportcard_number,
            ice_contact_name: self.ice_contact_name,
            ice_contact_email: self.ice_contact_email,
            ice_contact_phone: self.ice_contact_phone,
            important_info: self.important_info,
        }
    }
}

impl Validate for RegisterNewUser {
    /// The rules of [`RegisterNewUser::valid_given`], with both e-mail
    /// addresses well formed.
    open spec fn valid(&self) -> bool {
        self.valid_given(well_formed_email(self.email@), optional_email(self.ice_contact_email))
    }

    fn validate(&self) -> (res: Result<(), Error>) {
        let email = is_email(self.email.as_str());
        let ice_contact_email = is_optional_email(&self.ice_contact_email);
        verdict(self.is_valid_given(email, ice_contact_email))
    }
}

} // verus!
