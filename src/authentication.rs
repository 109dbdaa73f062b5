//! The login flow and the recovery of a caller's identity from a session
//! artifact.

use vstd::prelude::*;
use crate::config::AuthConfig;
use crate::errors::AuthError;
use crate::jwt::{checked_at, create_token, current_timestamp, issued_for, verify_token, SlimUser};
use crate::password::bcrypt_verdict;
use crate::user::{found_user, wrong_password_text, AuthUser, User};

verus! {

/// Login credentials as a client submits them.
#[derive(Debug)]
pub struct AuthData {
    pub email: String,
    pub password: String,
}

/// Logs a user in against the records the store found for the email: where
/// the password verifies, the record and a fresh session token that reads
/// back to the user's identity until it expires.
pub fn login(auth_user: &AuthUser, records: Vec<User>, config: &AuthConfig) -> (r: Result<(User, String), AuthError>)
    ensures
        match found_user(records@) {
            None => r == Err::<(User, String), AuthError>(AuthError::NotFound),
            Some(u) => match bcrypt_verdict(auth_user.password@, u.password@) {
                Some(true) => {
                    &&& r is Ok
                    &&& r->Ok_0.0 == u
                    &&& issued_for(r->Ok_0.1@, u.id, u.email@, u.username@, config.secret())
                },
                Some(false) => r is Err && r->Err_0 is WrongPassword
                    && r->Err_0->WrongPassword_0@ == wrong_password_text(),
                None => r is Err && r->Err_0 is HashError,
            },
        },
{
    let user = match auth_user.login(records) {
        Ok(user) => user,
        Err(e) => return Err(e),
    };
    let token = match create_token(user.id, user.email.as_str(), user.username.as_str(), config) {
        Ok(token) => token,
        Err(e) => return Err(e),
    };
    Ok((user, token))
}

/// The caller's identity at time `now`, from the session artifact it
/// presented: none, or one that does not check as a live token, is
/// `Unauthorized`; a live token gives back the identity it carries.
pub fn extract_identity_at(artifact: Option<String>, secret: &[u8], now: i64) -> (r: Result<SlimUser, AuthError>)
    ensures
        match artifact {
            None => r == Err::<SlimUser, AuthError>(AuthError::Unauthorized),
            Some(a) => {
                &&& checked_at(a@, secret@, now, r)
                &&& !a@.contains('.') ==> r == Err::<SlimUser, AuthError>(AuthError::Unauthorized)
            },
        },
{
    match artifact {
        None => Err(AuthError::Unauthorized),
        Some(a) => verify_token(a.as_str(), secret, now),
    }
}

/// The caller's identity from its session artifact, checked against the
/// current time.
pub fn extract_identity(artifact: Option<String>, config: &AuthConfig) -> (r: Result<SlimUser, AuthError>)
    ensures
        match artifact {
            None => r == Err::<SlimUser, AuthError>(AuthError::Unauthorized),
            Some(a) => {
                &&& exists|now: i64| now >= 0 && #[trigger] checked_at(a@, config.secret(), now, r)
                &&& !a@.contains('.') ==> r == Err::<SlimUser, AuthError>(AuthError::Unauthorized)
            },
        },
{
    let now = current_timestamp();
    extract_identity_at(artifact, config.get_secret(), now)
}

} // verus!
