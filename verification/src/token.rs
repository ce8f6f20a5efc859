//! The token issuer and the token validation core.
//!
//! A token carries three claims — subject, role tag, absolute expiry in
//! seconds — plus, for password-reset tokens only, a purpose marker that
//! keeps a reset token from being replayed as a session token. Tokens are
//! signed with the server's symmetric secret under a pinned algorithm; the
//! validator never trusts an algorithm named by the token itself.
//!
//! Signing is deterministic in (claims, secret), so the signed string is
//! named `token_of`; what signature verification and claim extraction
//! recover from a string is likewise deterministic and named
//! `decoded_claims_of`. The contracts of the issuing and validating
//! functions are stated over those two names, and the wrapper around the
//! signing call ties them together: what it signs, decoding recovers.

use jsonwebtoken::Algorithm;
use jsonwebtoken::DecodingKey;
use jsonwebtoken::EncodingKey;
use jsonwebtoken::Header;
use jsonwebtoken::Validation;
use serde_json::Value;
use std::collections::HashSet;
use vstd::prelude::*;
use vstd::string::StringExecFns;

use crate::config::Config;
use crate::errors::AuthError;
use crate::identity::uuid_of;
use crate::identity::uuid_str_of;
use crate::identity::uuid_to_string;
use crate::models::User;
use crate::roles::Role;
use crate::roles::spec_role_tag;
use crate::text::str_eq;

verus! {

/// Lifetime of a session token, seconds.
pub const SESSION_TTL_SECS: u64 = 3600;

/// Lifetime of a password-reset token, seconds.
pub const RESET_TTL_SECS: u64 = 300;

/// The signed token for the given claims under the given secret. Signing
/// with the pinned algorithm is deterministic, so this is a function of its
/// arguments alone.
pub uninterp spec fn token_of(
    sub: Seq<char>,
    exp: u64,
    role: Seq<char>,
    purpose: Option<Seq<char>>,
    secret: Seq<char>,
) -> Seq<char>;

/// The claims that signature verification under `secret` recovers from
/// `token`: subject, expiry, role tag, and the optional purpose marker.
/// `None` where the token is structurally invalid, unsigned, signed with
/// another key or algorithm, or missing a claim.
pub uninterp spec fn decoded_claims_of(token: Seq<char>, secret: Seq<char>) -> Option<
    (Seq<char>, u64, Seq<char>, Option<Seq<char>>),
>;

/// The view of an optional borrowed string.
pub open spec fn spec_opt_str_view(o: Option<&String>) -> Option<Seq<char>> {
    match o {
        Some(s) => Some(s@),
        None => None,
    }
}

/// The view of an optional owned string.
pub open spec fn spec_opt_string_view(o: Option<String>) -> Option<Seq<char>> {
    match o {
        Some(s) => Some(s@),
        None => None,
    }
}

/// The error type of the jsonwebtoken crate, carried opaquely.
#[verifier::external_type_specification]
#[verifier::external_body]
pub struct ExJwtError(jsonwebtoken::errors::Error);

/// Relies on `jsonwebtoken::encode` with a pinned HS256 header: the token
/// it returns is the deterministic signature of exactly the claims passed,
/// and `jsonwebtoken::decode` under the same secret recovers those claims
/// from it unchanged. The call succeeds on every input: the HS256 header
/// matches the HMAC key family, a string-keyed claims map always
/// serializes, and HMAC signing accepts any key and message.
#[verifier::external_body]
fn jwt_encode(
    sub: &String,
    exp: u64,
    role: &String,
    purpose: Option<&String>,
    secret: &String,
) -> (r: Result<String, jsonwebtoken::errors::Error>)
    ensures
        r is Ok,
        r matches Ok(t) ==> t@ == token_of(sub@, exp, role@, spec_opt_str_view(purpose), secret@),
        r matches Ok(t) ==> decoded_claims_of(t@, secret@) == Some(
            (sub@, exp, role@, spec_opt_str_view(purpose)),
        ),
{
    let mut claims = serde_json::Map::new();
    claims.insert("sub".to_string(), Value::String(sub.clone()));
    claims.insert("exp".to_string(), Value::from(exp));
    claims.insert("role".to_string(), Value::String(role.clone()));
    if let Some(p) = purpose {
        claims.insert("purpose".to_string(), Value::String(p.clone()));
    }
    let key = EncodingKey::from_secret(secret.as_bytes());
    jsonwebtoken::encode(&Header::new(Algorithm::HS256), &Value::Object(claims), &key)
}

/// Relies on `jsonwebtoken::decode` with the algorithm pinned to HS256 and
/// time-based checks disabled, so the outcome is a function of the token
/// and the secret alone: the signature is verified against the first two
/// segments, then the claims are read out of the payload.
#[verifier::external_body]
fn jwt_decode(token: &str, secret: &String) -> (r: Option<(String, u64, String, Option<String>)>)
    ensures
        r is Some <==> decoded_claims_of(token@, secret@) is Some,
        r matches Some(c) ==> decoded_claims_of(token@, secret@) == Some(
            (c.0@, c.1, c.2@, spec_opt_string_view(c.3)),
        ),
{
    let mut validation = Validation::new(Algorithm::HS256);
    validation.validate_exp = false;
    validation.required_spec_claims = HashSet::new();
    let key = DecodingKey::from_secret(secret.as_bytes());
    let data = jsonwebtoken::decode::<Value>(token, &key, &validation).ok()?.claims;
    let sub = data.get("sub").and_then(Value::as_str)?.to_string();
    let exp = data.get("exp").and_then(Value::as_u64)?;
    let role = data.get("role").and_then(Value::as_str)?.to_string();
    let purpose = match data.get("purpose") {
        Some(v) => Some(v.as_str()?.to_string()),
        None => None,
    };
    Some((sub, exp, role, purpose))
}

/// Relies on `SystemTime::now`: the current time, seconds since the epoch.
/// Nothing is stated of the value; callers handle every outcome.
#[verifier::external_body]
pub(crate) fn now_unix() -> u64 {
    match std::time::SystemTime::now().duration_since(std::time::UNIX_EPOCH) {
        Ok(d) => d.as_secs(),
        Err(_) => 0,
    }
}

/// The structured payload carried inside a signed session token.
#[derive(Clone, Debug)]
pub struct Claims {
    /// Subject: the user's identifier in UUID string form.
    pub sub: String,
    /// Absolute expiry, seconds since the epoch.
    pub exp: u64,
    /// Wire tag of the user's role.
    pub role: String,
}

/// The session token issued to `user` at time `now`.
pub open spec fn spec_session_token(id: u128, role: Role, now: u64, secret: Seq<char>) -> Seq<
    char,
>
    recommends
        now + SESSION_TTL_SECS <= u64::MAX,
{
    token_of(
        uuid_str_of(id),
        (now + SESSION_TTL_SECS) as u64,
        spec_role_tag(role),
        None,
        secret,
    )
}

/// Issues a session token for `user`: subject and role from the record,
/// expiry `now` plus the session lifetime. Issuance always succeeds: the
/// precondition bounds the expiry arithmetic and HS256 signing is total.
pub fn issue_session_token(user: &User, now: u64, config: &Config) -> (r: Result<
    String,
    AuthError,
>)
    requires
        now + SESSION_TTL_SECS <= u64::MAX,
    ensures
        r is Ok,
        r matches Ok(token) ==> token@ == spec_session_token(
            user.id,
            user.role,
            now,
            config.secret_key@,
        ),
        r matches Ok(token) ==> decoded_claims_of(token@, config.secret_key@) == Some(
            (
                uuid_str_of(user.id),
                (now + SESSION_TTL_SECS) as u64,
                spec_role_tag(user.role),
                None::<Seq<char>>,
            ),
        ),
        r matches Ok(token) ==> uuid_of(uuid_str_of(user.id)) == Some(user.id),
{
    let sub = uuid_to_string(user.id);
    let role_tag = user.role.tag();
    let exp = now + SESSION_TTL_SECS;
    match jwt_encode(&sub, exp, &role_tag, None, &config.secret_key) {
        Ok(token) => Ok(token),
        Err(_) => unreached(),
    }
}

/// Issues a short-lived password-reset token: same claims as a session
/// token but with the reset lifetime and a `reset` purpose marker, so the
/// session validator refuses it. Issuance always succeeds.
pub fn issue_reset_token(user: &User, now: u64, config: &Config) -> (r: Result<String, AuthError>)
    requires
        now + RESET_TTL_SECS <= u64::MAX,
    ensures
        r is Ok,
        r matches Ok(token) ==> token@ == token_of(
            uuid_str_of(user.id),
            (now + RESET_TTL_SECS) as u64,
            spec_role_tag(user.role),
            Some("reset"@),
            config.secret_key@,
        ),
        r matches Ok(token) ==> decoded_claims_of(token@, config.secret_key@) == Some(
            (
                uuid_str_of(user.id),
                (now + RESET_TTL_SECS) as u64,
                spec_role_tag(user.role),
                Some("reset"@),
            ),
        ),
{
    let sub = uuid_to_string(user.id);
    let role_tag = user.role.tag();
    let purpose = String::from_str("reset");
    let exp = now + RESET_TTL_SECS;
    match jwt_encode(&sub, exp, &role_tag, Some(&purpose), &config.secret_key) {
        Ok(token) => Ok(token),
        Err(_) => unreached(),
    }
}

/// Issues a session token for `user`, reading the clock itself. The clock
/// value is unconstrained, so the contract only ties a success to some
/// issuing time; `issue_session_token` carries the exact statement, and
/// the only failure left is a clock reading too large for the expiry
/// arithmetic.
pub fn generate_jwt(user: &User, config: &Config) -> (r: Result<String, AuthError>)
    ensures
        r matches Ok(token) ==> exists|now: u64|
            now + SESSION_TTL_SECS <= u64::MAX && token@ == spec_session_token(
                user.id,
                user.role,
                now,
                config.secret_key@,
            ),
        r matches Err(e) ==> e == AuthError::Internal,
{
    let now = now_unix();
    if now > u64::MAX - SESSION_TTL_SECS {
        return Err(AuthError::Internal);
    }
    issue_session_token(user, now, config)
}

/// The session-validation outcome for a token at time `now`: the recovered
/// claims where the token is authentic, purpose-free and not yet expired,
/// else the exact error. Expiry is strict: a token whose expiry equals
/// `now` is already rejected.
pub open spec fn spec_validate(token: Seq<char>, secret: Seq<char>, now: u64) -> Result<
    (Seq<char>, u64, Seq<char>),
    AuthError,
> {
    match decoded_claims_of(token, secret) {
        None => Err(AuthError::InvalidToken),
        Some((sub, exp, role, purpose)) => if purpose is Some {
            Err(AuthError::InvalidToken)
        } else if exp <= now {
            Err(AuthError::TokenExpired)
        } else {
            Ok((sub, exp, role))
        },
    }
}

/// Validates a session token at time `now`: verifies the signature under
/// the pinned algorithm, refuses purpose-scoped tokens, and requires the
/// expiry to lie strictly in the future.
pub fn validate_jwt(token: &str, config: &Config, now: u64) -> (r: Result<Claims, AuthError>)
    ensures
        r matches Ok(c) ==> spec_validate(token@, config.secret_key@, now) == Ok::<
            (Seq<char>, u64, Seq<char>),
            AuthError,
        >((c.sub@, c.exp, c.role@)),
        r matches Err(e) ==> spec_validate(token@, config.secret_key@, now) matches Err(e2) && e
            == e2,
{
    match jwt_decode(token, &config.secret_key) {
        None => Err(AuthError::InvalidToken),
        Some((sub, exp, role, purpose)) => {
            if purpose.is_some() {
                Err(AuthError::InvalidToken)
            } else if exp <= now {
                Err(AuthError::TokenExpired)
            } else {
                Ok(Claims { sub, exp, role })
            }
        },
    }
}

/// The reset-validation outcome for a token at time `now`: the recovered
/// claims where the token is authentic, scoped to the reset purpose and
/// not yet expired, else the exact error. A session token (no purpose
/// marker) is refused here, as a reset token is refused by the session
/// validator.
pub open spec fn spec_validate_reset(token: Seq<char>, secret: Seq<char>, now: u64) -> Result<
    (Seq<char>, u64, Seq<char>),
    AuthError,
> {
    match decoded_claims_of(token, secret) {
        None => Err(AuthError::InvalidToken),
        Some((sub, exp, role, purpose)) => if purpose != Some("reset"@) {
            Err(AuthError::InvalidToken)
        } else if exp <= now {
            Err(AuthError::TokenExpired)
        } else {
            Ok((sub, exp, role))
        },
    }
}

/// Redeems a password-reset token at time `now`: accepts exactly the
/// authentic, unexpired tokens carrying the reset purpose marker.
pub fn validate_reset_token(token: &str, config: &Config, now: u64) -> (r: Result<
    Claims,
    AuthError,
>)
    ensures
        r matches Ok(c) ==> spec_validate_reset(token@, config.secret_key@, now) == Ok::<
            (Seq<char>, u64, Seq<char>),
            AuthError,
        >((c.sub@, c.exp, c.role@)),
        r matches Err(e) ==> spec_validate_reset(token@, config.secret_key@, now) matches Err(e2)
            && e == e2,
{
    match jwt_decode(token, &config.secret_key) {
        None => Err(AuthError::InvalidToken),
        Some((sub, exp, role, purpose)) => {
            let is_reset = match &purpose {
                Some(p) => str_eq(p.as_str(), "reset"),
                None => false,
            };
            if !is_reset {
                Err(AuthError::InvalidToken)
            } else if exp <= now {
                Err(AuthError::TokenExpired)
            } else {
                Ok(Claims { sub, exp, role })
            }
        },
    }
}

/// An authentic token whose expiry has passed — or equals the current
/// time — is always rejected, and with the expiry error where no purpose
/// marker rejects it first.
pub proof fn lemma_expired_token_rejected(token: Seq<char>, secret: Seq<char>, now: u64)
    requires
        decoded_claims_of(token, secret) matches Some(c) && c.1 <= now,
    ensures
        spec_validate(token, secret, now) is Err,
        (decoded_claims_of(token, secret) matches Some(c) && c.3 is None) ==> spec_validate(
            token,
            secret,
            now,
        ) == Err::<(Seq<char>, u64, Seq<char>), AuthError>(AuthError::TokenExpired),
{
}

/// A purpose-scoped token (such as a password-reset token) never validates
/// as a session token, whatever the time.
pub proof fn lemma_reset_token_is_no_session_token(token: Seq<char>, secret: Seq<char>, now: u64)
    requires
        decoded_claims_of(token, secret) matches Some(c) && c.3 is Some,
    ensures
        spec_validate(token, secret, now) == Err::<(Seq<char>, u64, Seq<char>), AuthError>(
            AuthError::InvalidToken,
        ),
{
}

} // verus!
