use vstd::prelude::*;

verus! {

/// The closed set of failures the credential hasher can report. Validation
/// failures are deterministic and recoverable by the caller; `HashingFailed`
/// alone is an infrastructure fault of the hashing primitive itself.
#[derive(Clone, Copy, Debug, PartialEq, Eq, Structural)]
pub enum HashError {
    /// The candidate password was empty.
    EmptyInput,
    /// The candidate password exceeded the maximum accepted length.
    InputTooLong,
    /// The stored hash string was empty.
    EmptyHash,
    /// The stored hash string exceeded the maximum accepted length.
    HashTooLong,
    /// The stored hash string is not a checkable encoded hash.
    InvalidHash,
    /// The hashing primitive itself failed (parameter, salt or encoding fault).
    HashingFailed,
}

/// Coarse severity of an error, for mapping to a transport status: a client
/// error means the caller can correct its input and retry, a server error is
/// an internal fault.
#[derive(Clone, Copy, Debug, PartialEq, Eq, Structural)]
pub enum ErrorClass {
    Client,
    Server,
}

impl HashError {
    /// The stable machine-readable code of this error, for boundary payloads.
    pub fn code(&self) -> (r: &'static str)
        ensures
            self is EmptyInput ==> r@ == "empty_input"@,
            self is InputTooLong ==> r@ == "input_too_long"@,
            self is EmptyHash ==> r@ == "empty_hash"@,
            self is HashTooLong ==> r@ == "hash_too_long"@,
            self is InvalidHash ==> r@ == "invalid_hash"@,
            self is HashingFailed ==> r@ == "hashing_failed"@,
    {
        match self {
            HashError::EmptyInput => "empty_input",
            HashError::InputTooLong => "input_too_long",
            HashError::EmptyHash => "empty_hash",
            HashError::HashTooLong => "hash_too_long",
            HashError::InvalidHash => "invalid_hash",
            HashError::HashingFailed => "hashing_failed",
        }
    }

    /// The severity class: every validation or parse failure is the caller's
    /// to fix, only a fault of the hashing primitive is a server error.
    pub fn class(&self) -> (r: ErrorClass)
        ensures
            r is Server <==> self is HashingFailed,
    {
        match self {
            HashError::HashingFailed => ErrorClass::Server,
            _ => ErrorClass::Client,
        }
    }

    /// The HTTP-style status this error maps to at a transport boundary.
    pub fn http_status(&self) -> (r: u16)
        ensures
            r == (if self is HashingFailed { 500u16 } else { 400u16 }),
    {
        match self {
            HashError::HashingFailed => 500,
            _ => 400,
        }
    }
}

} // verus!
