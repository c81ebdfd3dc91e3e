//! A credential-hashing core: salted, memory-hard password hashing with
//! self-describing encoded hashes, plus verification of a candidate password
//! against a previously stored hash.
//!
//! Integration contract for existence-hiding callers: when a lookup by some
//! external key finds no stored hash, the calling layer must still invoke
//! [`hasher::Hasher::hash`] once against a fixed decoy password before
//! reporting "no match", so that the response time does not reveal whether
//! the key exists.

pub mod argon2id;
pub mod errors;
pub mod hasher;
pub mod params;

pub use argon2id::CheckOutcome;
pub use errors::ErrorClass;
pub use errors::HashError;
pub use hasher::Hasher;
pub use hasher::MAX_INPUT_LEN;
pub use params::HashParameters;
