//! Process-wide configuration: the token signing secret and the hash cost.

use vstd::prelude::*;
use crate::password::{MIN_HASH_COST, MAX_HASH_COST};

verus! {

/// Immutable settings built once at startup and handed to the operations
/// that sign tokens or hash passwords.
pub struct AuthConfig {
    secret: Vec<u8>,
    hash_cost: u32,
}

impl AuthConfig {
    /// The signing secret.
    pub closed spec fn secret(&self) -> Seq<u8> {
        self.secret@
    }

    /// The bcrypt work factor.
    pub closed spec fn cost(&self) -> u32 {
        self.hash_cost
    }

    #[verifier::type_invariant]
    spec fn inv(&self) -> bool {
        MIN_HASH_COST <= self.hash_cost <= MAX_HASH_COST
    }

    /// Builds the configuration; `None` where the cost is outside what bcrypt
    /// accepts.
    pub fn new(secret: Vec<u8>, hash_cost: u32) -> (r: Option<AuthConfig>)
        ensures
            match r {
                Some(c) => c.secret() == secret@ && c.cost() == hash_cost,
                None => !(MIN_HASH_COST <= hash_cost <= MAX_HASH_COST),
            },
    {
        if MIN_HASH_COST <= hash_cost && hash_cost <= MAX_HASH_COST {
            Some(AuthConfig { secret, hash_cost })
        } else {
            None
        }
    }

    /// The secret that signs and checks session tokens.
    pub fn get_secret(&self) -> (r: &[u8])
        ensures
            r@ == self.secret(),
    {
        self.secret.as_slice()
    }

    /// The bcrypt work factor, always one that bcrypt accepts.
    pub fn hash_cost(&self) -> (r: u32)
        ensures
            r == self.cost(),
            MIN_HASH_COST <= r <= MAX_HASH_COST,
    {
        proof {
            use_type_invariant(self);
        }
        self.hash_cost
    }
}

} // verus!
