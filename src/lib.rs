//! Authentication core of the store service: registration checks, password
//! hashing, signed session tokens, identity extraction and the error taxonomy.

pub mod errors;
pub mod password;
pub mod config;
pub mod jwt;
pub mod user;
pub mod authentication;
