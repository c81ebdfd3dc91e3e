use credhash::ErrorClass;
use credhash::HashError;
use credhash::HashParameters;
use credhash::Hasher;
use credhash::MAX_INPUT_LEN;

/// A hasher with small (but valid) costs, so the memory-hard function stays
/// fast in these tests; the recommended costs are exercised separately.
fn small_hasher() -> Hasher {
    Hasher::new(HashParameters { m_cost: 64, t_cost: 1, p_cost: 1, output_len: 32 })
}

#[test]
fn round_trip_succeeds() {
    let hasher = small_hasher();
    let encoded = hasher.hash("correct horse battery staple").unwrap();
    assert!(encoded.starts_with("$argon2id$"));
    assert_eq!(
        hasher.verify("correct horse battery staple", &encoded),
        Ok(true)
    );
}

#[test]
fn wrong_password_fails() {
    let hasher = small_hasher();
    let encoded = hasher.hash("right password").unwrap();
    assert_eq!(hasher.verify("wrong password", &encoded), Ok(false));
    assert_eq!(hasher.verify("right password ", &encoded), Ok(false));
}

#[test]
fn rehashing_gives_fresh_salts() {
    let hasher = small_hasher();
    let first = hasher.hash("same password").unwrap();
    let second = hasher.hash("same password").unwrap();
    assert_ne!(first, second);
    assert_eq!(hasher.verify("same password", &first), Ok(true));
    assert_eq!(hasher.verify("same password", &second), Ok(true));
}

#[test]
fn boundary_password_length() {
    let hasher = small_hasher();
    let longest = "a".repeat(MAX_INPUT_LEN);
    let encoded = hasher.hash(&longest).unwrap();
    assert_eq!(hasher.verify(&longest, &encoded), Ok(true));

    let too_long = "a".repeat(MAX_INPUT_LEN + 1);
    assert_eq!(hasher.hash(&too_long), Err(HashError::InputTooLong));
    assert_eq!(
        hasher.verify(&too_long, &encoded),
        Err(HashError::InputTooLong)
    );
}

#[test]
fn empty_and_malformed_inputs() {
    let hasher = small_hasher();
    assert_eq!(hasher.hash(""), Err(HashError::EmptyInput));
    assert_eq!(hasher.verify("x", ""), Err(HashError::EmptyHash));
    assert_eq!(hasher.verify("x", "not-a-hash"), Err(HashError::InvalidHash));
    assert_eq!(hasher.verify("", "not-a-hash"), Err(HashError::EmptyInput));
}

#[test]
fn oversized_stored_hash() {
    let hasher = small_hasher();
    let oversized = "a".repeat(MAX_INPUT_LEN + 1);
    assert_eq!(
        hasher.verify("x", &oversized),
        Err(HashError::HashTooLong)
    );
}

#[test]
fn scenario_my_secret() {
    let hasher = Hasher::new(HashParameters::recommended());
    let encoded = hasher.hash("my-secret").unwrap();
    assert!(encoded.starts_with("$argon2id$"));
    assert_eq!(hasher.verify("my-secret", &encoded), Ok(true));
    assert_eq!(hasher.verify("wrong", &encoded), Ok(false));
}

#[test]
fn encoded_hash_is_bounded() {
    let hasher = small_hasher();
    let encoded = hasher.hash("bounded output").unwrap();
    assert!(!encoded.is_empty());
    assert!(encoded.len() <= MAX_INPUT_LEN);
}

#[test]
fn embedded_parameters_decide_verification() {
    let low_cost = small_hasher();
    let encoded = low_cost.hash("upgrade me").unwrap();
    // A hasher configured with different (stronger) parameters still verifies
    // an old hash: the parameters travel inside the encoded string.
    let high_cost = Hasher::new(HashParameters::recommended());
    assert_eq!(high_cost.verify("upgrade me", &encoded), Ok(true));
    assert_eq!(high_cost.verify("downgrade me", &encoded), Ok(false));
}

#[test]
fn corrupt_digest_of_valid_length_is_a_mismatch() {
    let hasher = small_hasher();
    let encoded = hasher.hash("tamper target").unwrap();
    // Flip one character in the middle of the digest, keeping the string a
    // well-formed encoded hash of the same length: the outcome is the same
    // legitimate `false` a wrong password gets, never an early-exit error.
    let digest_start = encoded.rfind('$').unwrap() + 1;
    let mut chars: Vec<char> = encoded.chars().collect();
    let target = digest_start + 5;
    chars[target] = if chars[target] == 'A' { 'B' } else { 'A' };
    let tampered: String = chars.into_iter().collect();
    assert_eq!(tampered.len(), encoded.len());
    assert_eq!(hasher.verify("tamper target", &tampered), Ok(false));
}

#[test]
fn unsupported_algorithm_is_invalid() {
    let hasher = small_hasher();
    // Well-formed PHC syntax, but an algorithm this core cannot check.
    let alien = "$nosuchalg$c2FsdHNhbHQxMjM0$QUFBQUFBQUFBQUFBQUFBQUFBQUFBQUFB";
    assert_eq!(hasher.verify("x", alien), Err(HashError::InvalidHash));
}

#[test]
fn error_codes_are_stable() {
    assert_eq!(HashError::EmptyInput.code(), "empty_input");
    assert_eq!(HashError::InputTooLong.code(), "input_too_long");
    assert_eq!(HashError::EmptyHash.code(), "empty_hash");
    assert_eq!(HashError::HashTooLong.code(), "hash_too_long");
    assert_eq!(HashError::InvalidHash.code(), "invalid_hash");
    assert_eq!(HashError::HashingFailed.code(), "hashing_failed");
}

#[test]
fn error_classes_map_to_statuses() {
    let client_errors = [
        HashError::EmptyInput,
        HashError::InputTooLong,
        HashError::EmptyHash,
        HashError::HashTooLong,
        HashError::InvalidHash,
    ];
    for e in client_errors {
        assert_eq!(e.class(), ErrorClass::Client);
        assert_eq!(e.http_status(), 400);
    }
    assert_eq!(HashError::HashingFailed.class(), ErrorClass::Server);
    assert_eq!(HashError::HashingFailed.http_status(), 500);
}

#[test]
fn recommended_parameters_are_the_owasp_minimums() {
    let params = HashParameters::recommended();
    assert_eq!(params.m_cost, 19456);
    assert_eq!(params.t_cost, 2);
    assert_eq!(params.p_cost, 1);
    assert_eq!(params.output_len, 32);
}

#[test]
fn mismatch_latency_is_uniform() {
    // Both a wrong password and a corrupt digest of valid length take the full
    // recompute-and-compare path: their average latencies must not differ by
    // an order of magnitude, as an early-exit comparison would show.
    let hasher = small_hasher();
    let encoded = hasher.hash("timing target").unwrap();
    let digest_start = encoded.rfind('$').unwrap() + 1;
    let mut chars: Vec<char> = encoded.chars().collect();
    let target = digest_start + 7;
    chars[target] = if chars[target] == 'C' { 'D' } else { 'C' };
    let tampered: String = chars.into_iter().collect();

    let rounds: u32 = 15;
    let wrong_password = std::time::Instant::now();
    for _ in 0..rounds {
        assert_eq!(hasher.verify("wrong password", &encoded), Ok(false));
    }
    let wrong_password_time = wrong_password.elapsed().as_nanos().max(1);

    let corrupt_digest = std::time::Instant::now();
    for _ in 0..rounds {
        assert_eq!(hasher.verify("timing target", &tampered), Ok(false));
    }
    let corrupt_digest_time = corrupt_digest.elapsed().as_nanos().max(1);

    assert!(wrong_password_time < corrupt_digest_time * 10);
    assert!(corrupt_digest_time < wrong_password_time * 10);
}
