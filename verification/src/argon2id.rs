use vstd::prelude::*;
use argon2::Algorithm;
use argon2::Argon2;
use argon2::Params;
use argon2::Version;
use argon2::password_hash::PasswordHash;
use argon2::password_hash::PasswordHasher;
use argon2::password_hash::PasswordVerifier;
use argon2::password_hash::SaltString;
use argon2::password_hash::rand_core::OsRng;

verus! {

/// Whether `enc` is a well-formed PHC-encoded password hash, that is, whether
/// parsing it succeeds. Parsing is a function of the string alone.
pub uninterp spec fn phc_well_formed(enc: Seq<char>) -> bool;

/// Whether Argon2id verification of the password `pw` against the encoded
/// hash `enc` succeeds: `enc` parses, and the digest recomputed from `pw`
/// with the algorithm, version, parameters and salt embedded in `enc` equals
/// the embedded digest. A function of the two strings alone.
pub uninterp spec fn phc_matches(pw: Seq<char>, enc: Seq<char>) -> bool;

/// The PHC prefix that identifies an Argon2id hash.
pub open spec fn argon2id_tag() -> Seq<char> {
    "$argon2id$"@
}

/// Outcome of checking a candidate password against a stored encoded hash.
#[derive(Clone, Copy, Debug, PartialEq, Eq, Structural)]
pub enum CheckOutcome {
    /// The hash parsed and the recomputed digest equals the embedded one.
    Matched,
    /// The hash parsed but the recomputed digest differs.
    Mismatched,
    /// The string is not a well-formed encoded hash.
    Malformed,
    /// The hash parsed but cannot be checked (unsupported algorithm
    /// identifier or corrupt embedded fields).
    Unsupported,
}

/// Computes the Argon2id hash of `pw` with the given costs and a fresh random
/// 16-byte salt, as a self-describing PHC string.
///
/// Relies on `argon2::Params::new` (cost validation), `argon2::Argon2::new`,
/// `password_hash::SaltString::generate` (fresh random salt, never reused),
/// and `argon2::Argon2::hash_password`, whose output is a PHC string
/// beginning with the `$argon2id$` identifier that parses back and verifies
/// against the same password.
#[verifier::external_body]
pub(crate) fn argon2id_hash(pw: &str, m_cost: u32, t_cost: u32, p_cost: u32, output_len: usize) -> (r: Option<
    String,
>)
    ensures
        r matches Some(h) ==> {
            &&& phc_matches(pw@, h@)
            &&& phc_well_formed(h@)
            &&& h@.len() >= 10
            &&& h@.subrange(0, 10) == argon2id_tag()
        },
{
    let params = match Params::new(m_cost, t_cost, p_cost, Some(output_len)) {
        Ok(p) => p,
        Err(_) => return None,
    };
    let engine = Argon2::new(Algorithm::Argon2id, Version::V0x13, params);
    let salt = SaltString::generate(&mut OsRng);
    match engine.hash_password(pw.as_bytes(), &salt) {
        Ok(h) => Some(h.to_string()),
        Err(_) => None,
    }
}

/// Checks the candidate password `pw` against the PHC-encoded hash `enc`.
///
/// Relies on `password_hash::PasswordHash::new`, whose success depends on
/// `enc` alone, and `argon2::Argon2::verify_password`, which recomputes the
/// digest with the algorithm, version, parameters and salt embedded in the
/// hash — never this engine's own costs — and compares the outputs in
/// constant time. The engine carries no secret, so the outcome is a function
/// of `pw` and `enc` alone; `Error::Password` is its mismatch case, any other
/// failure means the hash cannot be checked.
#[verifier::external_body]
pub(crate) fn argon2id_check(pw: &str, enc: &str) -> (r: CheckOutcome)
    ensures
        r is Matched <==> phc_matches(pw@, enc@),
        r is Malformed <==> !phc_well_formed(enc@),
{
    let parsed = match PasswordHash::new(enc) {
        Ok(h) => h,
        Err(_) => return CheckOutcome::Malformed,
    };
    match Argon2::default().verify_password(pw.as_bytes(), &parsed) {
        Ok(()) => CheckOutcome::Matched,
        Err(argon2::password_hash::Error::Password) => CheckOutcome::Mismatched,
        Err(_) => CheckOutcome::Unsupported,
    }
}

} // verus!
