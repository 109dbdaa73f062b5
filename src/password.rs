//! Password hashing and verification, backed by bcrypt.

use vstd::prelude::*;

verus! {

#[verifier::external_type_specification]
#[verifier::external_body]
pub struct ExBcryptError(bcrypt::BcryptError);

/// The lowest work factor that bcrypt accepts.
pub const MIN_HASH_COST: u32 = 4;

/// The highest work factor that bcrypt accepts.
pub const MAX_HASH_COST: u32 = 31;

/// What `bcrypt::verify` answers for a password and a stored hash string:
/// `Some(matches)`, or `None` where the hash string cannot be read.
pub uninterp spec fn bcrypt_verdict(password: Seq<char>, hash: Seq<char>) -> Option<bool>;

/// Relies on bcrypt::hash: a fresh random salt and the given cost; the
/// resulting string verifies against the same password.
#[verifier::external_body]
pub(crate) fn bcrypt_hash(password: &str, cost: u32) -> (r: Result<String, bcrypt::BcryptError>)
    requires
        MIN_HASH_COST <= cost <= MAX_HASH_COST,
    ensures
        r is Ok ==> bcrypt_verdict(password@, r->Ok_0@) == Some(true),
{
    bcrypt::hash(password, cost)
}

/// Relies on bcrypt::verify: recomputes the hash with the stored salt and cost
/// and compares; fails where the stored string is not a bcrypt hash.
#[verifier::external_body]
pub(crate) fn bcrypt_verify(password: &str, hash: &str) -> (r: Result<bool, bcrypt::BcryptError>)
    ensures
        match r {
            Ok(b) => bcrypt_verdict(password@, hash@) == Some(b),
            Err(_) => bcrypt_verdict(password@, hash@) is None,
        },
{
    bcrypt::verify(password, hash)
}

/// Relies on the `Display` impl of `bcrypt::BcryptError` for its text.
#[verifier::external_body]
pub(crate) fn bcrypt_error_text(e: &bcrypt::BcryptError) -> (r: String) {
    e.to_string()
}

} // verus!
