//! The closed set of authentication failures and their transport mapping.

use vstd::prelude::*;
use crate::password::bcrypt_error_text;

verus! {

/// A failure reported by the persistence layer, as this core sees it.
#[derive(Debug, PartialEq, Eq)]
pub enum StorageFailure {
    /// No handle on the store could be obtained.
    Unavailable,
    /// The query matched no record.
    NotFound,
    /// An insert broke a uniqueness constraint; the store's detail, when it
    /// gave one, and its message.
    UniqueViolation { details: Option<String>, message: String },
    /// Any other failure of the store.
    Other,
}

/// Every way an authentication operation can fail.
#[derive(Debug)]
pub enum AuthError {
    /// The hashing library failed to hash or to verify.
    HashError(bcrypt::BcryptError),
    /// Password and confirmation differ at registration.
    PasswordMismatch(String),
    /// The password given at registration is empty.
    WeakPassword(String),
    /// The password given at login does not verify.
    WrongPassword(String),
    /// No user is stored under the given email.
    NotFound,
    /// No handle on the store could be obtained.
    StorageUnavailable,
    /// A uniqueness violation, with the store's detail.
    StorageConflict(String),
    /// Any other persistence failure.
    StorageError,
    /// Missing, invalid or expired session or token.
    Unauthorized,
    /// Malformed input.
    BadRequest(String),
    /// Any unanticipated failure.
    InternalServerError,
}

/// The transport-level outcome of an error: a status code and a message.
#[derive(Debug, PartialEq, Eq)]
pub struct ErrorReply {
    pub status: u16,
    pub message: String,
}

/// The status code each kind of error maps to.
pub open spec fn status_of(e: AuthError) -> u16 {
    match e {
        AuthError::HashError(_) => 400,
        AuthError::PasswordMismatch(_) => 400,
        AuthError::WeakPassword(_) => 400,
        AuthError::WrongPassword(_) => 400,
        AuthError::NotFound => 404,
        AuthError::StorageUnavailable => 500,
        AuthError::StorageConflict(_) => 400,
        AuthError::StorageError => 500,
        AuthError::Unauthorized => 401,
        AuthError::BadRequest(_) => 400,
        AuthError::InternalServerError => 500,
    }
}

/// The client-facing message of an error: the carried text where the kind
/// carries one that is meant for the client, a fixed generic text otherwise.
pub open spec fn reply_text(e: AuthError) -> Seq<char> {
    match e {
        AuthError::HashError(_) => "hash error"@,
        AuthError::PasswordMismatch(m) => m@,
        AuthError::WeakPassword(m) => m@,
        AuthError::WrongPassword(m) => m@,
        AuthError::NotFound => "Record not found"@,
        AuthError::StorageUnavailable => "pg error"@,
        AuthError::StorageConflict(m) => m@,
        AuthError::StorageError => "db error"@,
        AuthError::Unauthorized => "Unauthorized"@,
        AuthError::BadRequest(m) => m@,
        AuthError::InternalServerError => "Internal Server Error, Please try later"@,
    }
}

/// The display text of an error, for every kind but `HashError`, whose text
/// is the hashing library's own.
pub open spec fn display_text(e: AuthError) -> Seq<char> {
    match e {
        AuthError::PasswordMismatch(m) => m@,
        AuthError::WeakPassword(m) => m@,
        AuthError::WrongPassword(m) => m@,
        AuthError::NotFound => "Record not found"@,
        AuthError::StorageUnavailable => "error obtaining a db connection"@,
        AuthError::StorageConflict(m) => m@,
        AuthError::StorageError => "db error"@,
        AuthError::Unauthorized => "Unauthorized"@,
        AuthError::BadRequest(m) => m@,
        _ => "InternalServerError"@,
    }
}

/// The error a storage failure becomes at the boundary of the core.
pub open spec fn storage_error_of(f: StorageFailure) -> AuthError {
    match f {
        StorageFailure::Unavailable => AuthError::StorageUnavailable,
        StorageFailure::NotFound => AuthError::NotFound,
        StorageFailure::UniqueViolation { details, message } => AuthError::StorageConflict(
            match details {
                Some(d) => d,
                None => message,
            },
        ),
        StorageFailure::Other => AuthError::StorageError,
    }
}

impl AuthError {
    /// Maps a persistence failure: a uniqueness violation keeps the
    /// store's detail (its message where it gave none); the rest carry nothing.
    pub fn from_storage(f: StorageFailure) -> (r: AuthError)
        ensures
            r == storage_error_of(f),
    {
        match f {
            StorageFailure::Unavailable => AuthError::StorageUnavailable,
            StorageFailure::NotFound => AuthError::NotFound,
            StorageFailure::UniqueViolation { details, message } => match details {
                Some(d) => AuthError::StorageConflict(d),
                None => AuthError::StorageConflict(message),
            },
            StorageFailure::Other => AuthError::StorageError,
        }
    }

    /// The transport mapping: total, one status and one message per kind.
    pub fn error_response(&self) -> (r: ErrorReply)
        ensures
            r.status == status_of(*self),
            r.message@ == reply_text(*self),
    {
        let status = self.status();
        let message = match self {
            AuthError::HashError(_) => "hash error".to_string(),
            AuthError::PasswordMismatch(m) => m.clone(),
            AuthError::WeakPassword(m) => m.clone(),
            AuthError::WrongPassword(m) => m.clone(),
            AuthError::NotFound => "Record not found".to_string(),
            AuthError::StorageUnavailable => "pg error".to_string(),
            AuthError::StorageConflict(m) => m.clone(),
            AuthError::StorageError => "db error".to_string(),
            AuthError::Unauthorized => "Unauthorized".to_string(),
            AuthError::BadRequest(m) => m.clone(),
            AuthError::InternalServerError => "Internal Server Error, Please try later".to_string(),
        };
        ErrorReply { status, message }
    }

    /// The display text of this error.
    pub fn message(&self) -> (r: String)
        ensures
            !(*self is HashError) ==> r@ == display_text(*self),
    {
        match self {
            AuthError::HashError(e) => bcrypt_error_text(e),
            AuthError::PasswordMismatch(m) => m.clone(),
            AuthError::WeakPassword(m) => m.clone(),
            AuthError::WrongPassword(m) => m.clone(),
            AuthError::NotFound => "Record not found".to_string(),
            AuthError::StorageUnavailable => "error obtaining a db connection".to_string(),
            AuthError::StorageConflict(m) => m.clone(),
            AuthError::StorageError => "db error".to_string(),
            AuthError::Unauthorized => "Unauthorized".to_string(),
            AuthError::BadRequest(m) => m.clone(),
            AuthError::InternalServerError => "InternalServerError".to_string(),
        }
    }

    /// The status code of this error.
    pub fn status(&self) -> (r: u16)
        ensures
            r == status_of(*self),
    {
        match self {
            AuthError::HashError(_) => 400,
            AuthError::PasswordMismatch(_) => 400,
            AuthError::WeakPassword(_) => 400,
            AuthError::WrongPassword(_) => 400,
            AuthError::NotFound => 404,
            AuthError::StorageUnavailable => 500,
            AuthError::StorageConflict(_) => 400,
            AuthError::StorageError => 500,
            AuthError::Unauthorized => 401,
            AuthError::BadRequest(_) => 400,
            AuthError::InternalServerError => 500,
        }
    }
}

impl From<bcrypt::BcryptError> for AuthError {
    fn from(error: bcrypt::BcryptError) -> (r: AuthError)
        ensures
            r == AuthError::HashError(error),
    {
        AuthError::HashError(error)
    }
}

impl vstd::std_specs::convert::FromSpecImpl<bcrypt::BcryptError> for AuthError {
    open spec fn obeys_from_spec() -> bool {
        true
    }

    open spec fn from_spec(error: bcrypt::BcryptError) -> AuthError {
        AuthError::HashError(error)
    }
}

} // verus!
