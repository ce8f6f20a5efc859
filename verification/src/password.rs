//! The credential manager: password hashing, verification, and the
//! strength policy.
//!
//! Hashing derives a fresh random salt on every call and returns an encoded
//! digest string that embeds the algorithm parameters and the salt.
//! Verification re-derives from those embedded parameters, so whether a
//! password matches a digest is a function of the two strings alone; that
//! function is named `password_matches` and every contract here speaks of it.

use argon2::PasswordHasher;
use argon2::PasswordVerifier;
use vstd::prelude::*;
use vstd::string::StrSliceExecFns;

use crate::errors::AuthError;

verus! {

/// Whether `password` re-derives to the output embedded in the encoded
/// digest `digest`. This is what the verifier computes from the two strings
/// alone; it is false for every malformed digest.
pub uninterp spec fn password_matches(digest: Seq<char>, password: Seq<char>) -> bool;

/// Relies on `Argon2::hash_password` (argon2): the returned digest embeds
/// the derived output together with the fresh salt and the parameters used,
/// so verifying that digest against the same password succeeds. The digest
/// itself depends on the random salt, so nothing more is stated of it.
#[verifier::external_body]
fn argon2_hash(password: &str) -> (r: Result<String, argon2::password_hash::Error>)
    ensures
        r matches Ok(digest) ==> password_matches(digest@, password@),
{
    let salt = argon2::password_hash::SaltString::generate(&mut rand::rngs::OsRng);
    match argon2::Argon2::default().hash_password(password.as_bytes(), &salt) {
        Ok(hash) => Ok(hash.to_string()),
        Err(e) => Err(e),
    }
}

/// Relies on `Argon2::verify_password` (argon2): it re-derives the hash
/// using the algorithm, parameters and salt embedded in `digest` and
/// compares outputs, returning an error on a malformed digest or a
/// mismatch. The outcome is a function of the two strings alone.
#[verifier::external_body]
fn argon2_verify(digest: &str, password: &str) -> (r: bool)
    ensures
        r == password_matches(digest@, password@),
{
    match argon2::password_hash::PasswordHash::new(digest) {
        Ok(parsed) => {
            argon2::Argon2::default().verify_password(password.as_bytes(), &parsed).is_ok()
        },
        Err(_) => false,
    }
}

/// The error type of the argon2 password-hash API, carried opaquely.
#[verifier::external_type_specification]
#[verifier::external_body]
pub struct ExPasswordHashError(argon2::password_hash::Error);

/// Hashes a password with a fresh random salt, returning the encoded
/// digest. A hashing fault surfaces as `Internal`.
pub fn hash_password(password: &str) -> (r: Result<String, AuthError>)
    ensures
        r matches Ok(digest) ==> password_matches(digest@, password@),
        r matches Err(e) ==> e == AuthError::Internal,
{
    match argon2_hash(password) {
        Ok(digest) => Ok(digest),
        Err(_) => Err(AuthError::Internal),
    }
}

/// Whether `password` matches the encoded digest `digest`. Malformed
/// digests, mismatches and internal faults are indistinguishable to the
/// caller: all return false.
pub fn verify_password(digest: &str, password: &str) -> (r: bool)
    ensures
        r == password_matches(digest@, password@),
{
    argon2_verify(digest, password)
}

/// The symbols the strength policy accepts as special characters.
pub open spec fn spec_is_policy_symbol(c: char) -> bool {
    c == '@' || c == '$' || c == '!' || c == '%' || c == '*' || c == '?' || c == '&'
}

/// The password-strength policy: at least 8 characters, one uppercase
/// letter, one digit, and one symbol from the fixed set `@$!%*?&`.
pub open spec fn spec_is_strong_password(s: Seq<char>) -> bool {
    &&& s.len() >= 8
    &&& exists|i: int| 0 <= i < s.len() && 'A' <= #[trigger] s[i] <= 'Z'
    &&& exists|i: int| 0 <= i < s.len() && '0' <= #[trigger] s[i] <= '9'
    &&& exists|i: int| 0 <= i < s.len() && spec_is_policy_symbol(#[trigger] s[i])
}

/// Checks the strength policy. Pure; no side effects.
pub fn is_strong_password(password: &str) -> (strong: bool)
    ensures
        strong == spec_is_strong_password(password@),
{
    let n = password.unicode_len();
    let mut has_upper = false;
    let mut has_digit = false;
    let mut has_symbol = false;
    let mut i: usize = 0;
    while i < n
        invariant
            i <= n,
            n == password@.len(),
            has_upper == exists|j: int| 0 <= j < i && 'A' <= #[trigger] password@[j] <= 'Z',
            has_digit == exists|j: int| 0 <= j < i && '0' <= #[trigger] password@[j] <= '9',
            has_symbol == exists|j: int| 0 <= j < i && spec_is_policy_symbol(
                #[trigger] password@[j],
            ),
        decreases n - i,
    {
        let c = password.get_char(i);
        if 'A' <= c && c <= 'Z' {
            has_upper = true;
        }
        if '0' <= c && c <= '9' {
            has_digit = true;
        }
        if c == '@' || c == '$' || c == '!' || c == '%' || c == '*' || c == '?' || c == '&' {
            has_symbol = true;
        }
        i += 1;
    }
    n >= 8 && has_upper && has_digit && has_symbol
}

} // verus!
