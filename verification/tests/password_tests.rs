use auth_core::password::hash_password;
use auth_core::password::is_strong_password;
use auth_core::password::verify_password;

#[test]
fn test_is_strong_password() {
    assert!(is_strong_password("Test@123"));
    assert!(is_strong_password("Password1$"));
    assert!(!is_strong_password("weakpass"));
    assert!(!is_strong_password("12345678"));
    // Uppercase, digit and symbol present with length 15: the policy asks
    // for no lowercase letter, so this password is strong.
    assert!(is_strong_password("NOLOWERCASE123!"));
}

#[test]
fn strength_policy_edge_cases() {
    // Exactly eight characters with every required class present.
    assert!(is_strong_password("Abcdef1!"));
    // One character short.
    assert!(!is_strong_password("Abcde1!"));
    // Empty password.
    assert!(!is_strong_password(""));
    // Symbol outside the fixed set does not count.
    assert!(!is_strong_password("Abcdefg1#"));
    assert!(is_strong_password("Abcdefg1&"));
}

#[test]
fn hash_then_verify_succeeds() {
    let digest = hash_password("Secret1!").unwrap();
    assert!(verify_password(&digest, "Secret1!"));
}

#[test]
fn verify_rejects_a_different_password() {
    let digest = hash_password("Secret1!").unwrap();
    assert!(!verify_password(&digest, "Secret2!"));
    assert!(!verify_password(&digest, ""));
}

#[test]
fn verify_rejects_a_malformed_digest() {
    assert!(!verify_password("", "Secret1!"));
    assert!(!verify_password("not-an-encoded-digest", "Secret1!"));
}

#[test]
fn equal_passwords_get_distinct_digests() {
    let first = hash_password("Secret1!").unwrap();
    let second = hash_password("Secret1!").unwrap();
    assert_ne!(first, second);
    assert!(verify_password(&first, "Secret1!"));
    assert!(verify_password(&second, "Secret1!"));
}
