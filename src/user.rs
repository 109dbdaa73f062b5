//! User records, registration requests and credentials.

use vstd::prelude::*;
use crate::config::AuthConfig;
use crate::errors::AuthError;
use crate::password::{bcrypt_hash, bcrypt_verdict, bcrypt_verify};

verus! {

#[verifier::external_type_specification]
#[verifier::external_body]
pub struct ExNaiveDateTime(chrono::NaiveDateTime);

/// Relies on chrono::Local::now: the local wall-clock time, without zone.
#[verifier::external_body]
fn local_now() -> (r: chrono::NaiveDateTime) {
    chrono::Local::now().naive_local()
}

/// A stored user, as the persistence layer hands it over.
#[derive(Debug)]
pub struct User {
    pub id: i32,
    pub email: String,
    pub username: String,
    /// The bcrypt hash of the user's password.
    pub password: String,
    pub created_at: chrono::NaiveDateTime,
}

/// A user ready to be stored: the password is already hashed.
#[derive(Debug)]
pub struct NewUser {
    pub email: String,
    pub username: String,
    pub password: String,
    pub created_at: chrono::NaiveDateTime,
}

/// A registration request, as the client sent it.
#[derive(Debug)]
pub struct RegisterUser {
    pub email: String,
    pub username: String,
    pub password: String,
    pub password_confirmation: String,
}

/// Login credentials.
#[derive(Debug)]
pub struct AuthUser {
    pub email: String,
    pub password: String,
}

/// Whether the password and its confirmation agree.
pub open spec fn passwords_match(r: RegisterUser) -> bool {
    r.password@ == r.password_confirmation@
}

/// Whether the password is not empty.
pub open spec fn password_present(r: RegisterUser) -> bool {
    r.password@.len() > 0
}

/// The record a login looks at among those the store found: the first.
pub open spec fn found_user(records: Seq<User>) -> Option<User> {
    if records.len() == 0 {
        None
    } else {
        Some(records[0])
    }
}

/// The detail of a registration whose password and confirmation differ.
pub open spec fn mismatch_text() -> Seq<char> {
    "Password and Password Confirmation does not match"@
}

/// The detail of a registration whose password is empty.
pub open spec fn weak_password_text() -> Seq<char> {
    "Wrong Password, check it is not empty"@
}

/// The detail of a login whose password does not verify.
pub open spec fn wrong_password_text() -> Seq<char> {
    "Wrong password, check again please"@
}

impl User {
    /// Hashes a plaintext password with a fresh salt at the configured cost.
    /// The hash verifies against the same plaintext.
    pub fn hash_password(plain: &str, config: &AuthConfig) -> (r: Result<String, AuthError>)
        ensures
            match r {
                Ok(h) => bcrypt_verdict(plain@, h@) == Some(true),
                Err(e) => e is HashError,
            },
    {
        match bcrypt_hash(plain, config.hash_cost()) {
            Ok(h) => Ok(h),
            Err(e) => Err(AuthError::from(e)),
        }
    }

    /// Checks a plaintext password against a stored hash; a hash that cannot
    /// be read is an error, never a mismatch.
    pub fn verify_password(plain: &str, hash: &str) -> (r: Result<bool, AuthError>)
        ensures
            match bcrypt_verdict(plain@, hash@) {
                Some(b) => r == Ok::<bool, AuthError>(b),
                None => r is Err && r->Err_0 is HashError,
            },
    {
        match bcrypt_verify(plain, hash) {
            Ok(b) => Ok(b),
            Err(e) => Err(AuthError::from(e)),
        }
    }

    /// The record to store for a registration: the request is validated
    /// first, and only a valid one is hashed.
    pub fn create(register_user: RegisterUser, config: &AuthConfig) -> (r: Result<NewUser, AuthError>)
        ensures
            !passwords_match(register_user) ==> r is Err && r->Err_0 is PasswordMismatch
                && r->Err_0->PasswordMismatch_0@ == mismatch_text(),
            passwords_match(register_user) && !password_present(register_user)
                ==> r is Err && r->Err_0 is WeakPassword
                && r->Err_0->WeakPassword_0@ == weak_password_text(),
            passwords_match(register_user) && password_present(register_user) ==> match r {
                Ok(n) => {
                    &&& n.email@ == register_user.email@
                    &&& n.username@ == register_user.username@
                    &&& bcrypt_verdict(register_user.password@, n.password@) == Some(true)
                },
                Err(e) => e is HashError,
            },
    {
        let valid = register_user.validates()?;
        let password = User::hash_password(valid.password.as_str(), config)?;
        Ok(NewUser {
            email: valid.email,
            username: valid.username,
            password,
            created_at: local_now(),
        })
    }
}

impl RegisterUser {
    /// Checks a registration request: a password that differs from its
    /// confirmation is a mismatch; else an empty one is too weak; else the
    /// request passes through unchanged.
    pub fn validates(self) -> (r: Result<RegisterUser, AuthError>)
        ensures
            !passwords_match(self) ==> r is Err && r->Err_0 is PasswordMismatch
                && r->Err_0->PasswordMismatch_0@ == mismatch_text(),
            passwords_match(self) && !password_present(self) ==> r is Err && r->Err_0 is WeakPassword
                && r->Err_0->WeakPassword_0@ == weak_password_text(),
            passwords_match(self) && password_present(self) ==> r == Ok::<RegisterUser, AuthError>(self),
    {
        let password_are_equal = self.password == self.password_confirmation;
        let password_not_empty = !self.password.as_str().is_empty();
        if password_are_equal && password_not_empty {
            Ok(self)
        } else if !password_are_equal {
            Err(AuthError::PasswordMismatch("Password and Password Confirmation does not match".to_string()))
        } else {
            Err(AuthError::WeakPassword("Wrong Password, check it is not empty".to_string()))
        }
    }
}

impl AuthUser {
    /// Checks the credentials against the records the store found for the
    /// email: none is `NotFound`; else the first record's hash decides.
    pub fn login(&self, records: Vec<User>) -> (r: Result<User, AuthError>)
        ensures
            match found_user(records@) {
                None => r == Err::<User, AuthError>(AuthError::NotFound),
                Some(u) => match bcrypt_verdict(self.password@, u.password@) {
                    Some(true) => r == Ok::<User, AuthError>(u),
                    Some(false) => r is Err && r->Err_0 is WrongPassword
                        && r->Err_0->WrongPassword_0@ == wrong_password_text(),
                    None => r is Err && r->Err_0 is HashError,
                },
            },
    {
        let mut records = records;
        if records.len() == 0 {
            return Err(AuthError::NotFound);
        }
        let user = records.remove(0);
        if User::verify_password(self.password.as_str(), user.password.as_str())? {
            Ok(user)
        } else {
            Err(AuthError::WrongPassword("Wrong password, check again please".to_string()))
        }
    }
}

} // verus!
