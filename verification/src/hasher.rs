use vstd::prelude::*;
use crate::argon2id::CheckOutcome;
use crate::argon2id::argon2id_check;
use crate::argon2id::argon2id_hash;
use crate::argon2id::argon2id_tag;
use crate::argon2id::phc_matches;
use crate::argon2id::phc_well_formed;
use crate::errors::HashError;
use crate::params::HashParameters;

verus! {

/// The longest password and the longest stored hash string accepted, in
/// characters. The bound caps the worst-case cost of the memory-hard
/// function, so oversized inputs cannot amplify CPU or memory use.
pub const MAX_INPUT_LEN: usize = 2048;

/// A candidate password the validator accepts: nonempty and within the bound.
pub open spec fn password_ok(p: Seq<char>) -> bool {
    0 < p.len() <= MAX_INPUT_LEN
}

/// A stored hash string the validator accepts: nonempty and within the bound.
pub open spec fn stored_hash_ok(h: Seq<char>) -> bool {
    0 < h.len() <= MAX_INPUT_LEN
}

/// Checks a candidate password against the input rules, before any expensive
/// cryptographic work: empty and oversized passwords are rejected, nothing
/// else — no trimming, no normalization.
pub fn validate_password(p: &str) -> (r: Option<HashError>)
    ensures
        r is None <==> password_ok(p@),
        r == Some(HashError::EmptyInput) <==> p@.len() == 0,
        r == Some(HashError::InputTooLong) <==> p@.len() > MAX_INPUT_LEN,
{
    let n = p.unicode_len();
    if n == 0 {
        Some(HashError::EmptyInput)
    } else if n > MAX_INPUT_LEN {
        Some(HashError::InputTooLong)
    } else {
        None
    }
}

/// Checks a stored hash string against the same empty and oversized rules,
/// with the parallel error kinds.
pub fn validate_stored_hash(h: &str) -> (r: Option<HashError>)
    ensures
        r is None <==> stored_hash_ok(h@),
        r == Some(HashError::EmptyHash) <==> h@.len() == 0,
        r == Some(HashError::HashTooLong) <==> h@.len() > MAX_INPUT_LEN,
{
    let n = h.unicode_len();
    if n == 0 {
        Some(HashError::EmptyHash)
    } else if n > MAX_INPUT_LEN {
        Some(HashError::HashTooLong)
    } else {
        None
    }
}

/// Maps the outcome of the hashing primitive to the library's result: any
/// failure of the primitive is an internal fault, never a user-input error.
pub fn complete_hash(outcome: Option<String>) -> (r: Result<String, HashError>)
    ensures
        outcome matches Some(h) ==> r == Ok::<String, HashError>(h),
        outcome is None ==> r == Err::<String, HashError>(HashError::HashingFailed),
{
    match outcome {
        Some(h) => Ok(h),
        None => Err(HashError::HashingFailed),
    }
}

/// Turns a check outcome into the verification result: a digest mismatch is a
/// legitimate `false`, not an error, and a hash that cannot be parsed or
/// checked is reported as invalid — never as a wrong password.
pub fn decide_verification(outcome: CheckOutcome) -> (r: Result<bool, HashError>)
    ensures
        outcome is Matched ==> r == Ok::<bool, HashError>(true),
        outcome is Mismatched ==> r == Ok::<bool, HashError>(false),
        outcome is Malformed ==> r == Err::<bool, HashError>(HashError::InvalidHash),
        outcome is Unsupported ==> r == Err::<bool, HashError>(HashError::InvalidHash),
{
    match outcome {
        CheckOutcome::Matched => Ok(true),
        CheckOutcome::Mismatched => Ok(false),
        CheckOutcome::Malformed => Err(HashError::InvalidHash),
        CheckOutcome::Unsupported => Err(HashError::InvalidHash),
    }
}

/// The credential hasher: an immutable parameter set plus the two operations,
/// `hash` and `verify`. It is stateless apart from the parameters, so one
/// value can serve arbitrarily many concurrent calls.
pub struct Hasher {
    params: HashParameters,
}

impl Hasher {
    /// The parameter set this hasher was built with.
    pub closed spec fn params(self) -> HashParameters {
        self.params
    }

    /// A well-formed hasher carries parameters in the accepted ranges.
    pub open spec fn wf(self) -> bool {
        self.params().wf()
    }

    /// Builds a hasher around an explicitly constructed, immutable parameter
    /// set; there is no later mutation path.
    pub fn new(params: HashParameters) -> (r: Self)
        requires
            params.wf(),
        ensures
            r.params() == params,
            r.wf(),
    {
        Hasher { params }
    }

    /// Hashes a password into a self-describing encoded hash: a fresh random
    /// salt, the configured costs and the digest, all embedded in one string
    /// that begins with the Argon2id identifier, fits the stored-hash bound,
    /// and verifies as true against the same password.
    pub fn hash(&self, password: &str) -> (r: Result<String, HashError>)
        ensures
            r == Err::<String, HashError>(HashError::EmptyInput) <==> password@.len() == 0,
            r == Err::<String, HashError>(HashError::InputTooLong) <==> password@.len()
                > MAX_INPUT_LEN,
            r matches Err(e) ==> (e is EmptyInput || e is InputTooLong || e is HashingFailed),
            r matches Ok(h) ==> {
                &&& password_ok(password@)
                &&& phc_matches(password@, h@)
                &&& phc_well_formed(h@)
                &&& stored_hash_ok(h@)
                &&& h@.len() >= 10
                &&& h@.subrange(0, 10) == argon2id_tag()
            },
    {
        if let Some(e) = validate_password(password) {
            return Err(e);
        }
        let outcome = argon2id_hash(
            password,
            self.params.m_cost,
            self.params.t_cost,
            self.params.p_cost,
            self.params.output_len,
        );
        match complete_hash(outcome) {
            Ok(h) => {
                if h.as_str().unicode_len() <= MAX_INPUT_LEN {
                    Ok(h)
                } else {
                    Err(HashError::HashingFailed)
                }
            },
            Err(e) => Err(e),
        }
    }

    /// Decides whether a candidate password matches a stored encoded hash.
    /// The check uses the parameters embedded in the hash, never this
    /// hasher's own, so hashes produced under older parameters keep
    /// verifying. A mismatch is the legitimate `false` outcome; a hash that
    /// every valid password fails to match because it cannot be parsed or
    /// checked is an `InvalidHash` error, and verification never reports an
    /// internal fault.
    pub fn verify(&self, password: &str, encoded: &str) -> (r: Result<bool, HashError>)
        ensures
            r == Err::<bool, HashError>(HashError::EmptyInput) <==> password@.len() == 0,
            r == Err::<bool, HashError>(HashError::InputTooLong) <==> password@.len()
                > MAX_INPUT_LEN,
            r == Err::<bool, HashError>(HashError::EmptyHash) <==> (password_ok(password@)
                && encoded@.len() == 0),
            r == Err::<bool, HashError>(HashError::HashTooLong) <==> (password_ok(password@)
                && encoded@.len() > MAX_INPUT_LEN),
            password_ok(password@) && stored_hash_ok(encoded@) && !phc_well_formed(encoded@)
                ==> r == Err::<bool, HashError>(HashError::InvalidHash),
            r == Err::<bool, HashError>(HashError::InvalidHash) ==> (password_ok(password@)
                && stored_hash_ok(encoded@) && !phc_matches(password@, encoded@)),
            r matches Ok(m) ==> {
                &&& password_ok(password@)
                &&& stored_hash_ok(encoded@)
                &&& phc_well_formed(encoded@)
                &&& m == phc_matches(password@, encoded@)
            },
            password_ok(password@) && stored_hash_ok(encoded@) && phc_matches(password@, encoded@)
                ==> r == Ok::<bool, HashError>(true),
            r matches Err(e) ==> !(e is HashingFailed),
    {
        if let Some(e) = validate_password(password) {
            return Err(e);
        }
        if let Some(e) = validate_stored_hash(encoded) {
            return Err(e);
        }
        let outcome = argon2id_check(password, encoded);
        decide_verification(outcome)
    }
}

} // verus!
