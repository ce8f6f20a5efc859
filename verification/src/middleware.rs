//! The token-validation middleware and the role gate.
//!
//! Validation is a per-request state machine with terminal rejections:
//! extract the bearer credential from the authorization header (absent or
//! malformed: 401), verify the signature under the pinned algorithm (401),
//! check the expiry strictly against the current time (401), parse the
//! subject identifier (400), and only then admit the request with an
//! authenticated identity attached. No step is retried.

use vstd::prelude::*;
use vstd::string::StrSliceExecFns;

use crate::config::Config;
use crate::errors::AuthError;
use crate::identity::Identity;
use crate::identity::parse_uuid;
use crate::identity::uuid_of;
use crate::identity::uuid_str_of;
use crate::roles::Role;
use crate::roles::lemma_role_tag_round_trip;
use crate::roles::spec_parse_role;
use crate::roles::spec_role_tag;
use crate::text::str_eq;
use crate::token::decoded_claims_of;
use crate::token::spec_opt_str_view;
use crate::token::spec_validate;
use crate::token::validate_jwt;

verus! {

/// The token a well-formed authorization header carries: the characters
/// after the `Bearer ` prefix.
pub open spec fn spec_extract_bearer(header: Seq<char>) -> Option<Seq<char>> {
    if header.len() >= 7 && header.subrange(0, 7) == "Bearer "@ {
        Some(header.skip(7))
    } else {
        None
    }
}

/// Reads the bearer credential out of an authorization header value.
fn extract_bearer(header: &str) -> (r: Option<&str>)
    ensures
        r is Some <==> spec_extract_bearer(header@) is Some,
        r matches Some(t) ==> spec_extract_bearer(header@) == Some(t@),
{
    let n = header.unicode_len();
    if n < 7 {
        return None;
    }
    let prefix = header.substring_char(0, 7);
    if !str_eq(prefix, "Bearer ") {
        return None;
    }
    let token = header.substring_char(7, n);
    proof {
        assert(header@.skip(7) =~= header@.subrange(7, header@.len() as int));
    }
    Some(token)
}

/// The full validation state machine over an optional authorization header:
/// missing or prefix-less header, then signature and purpose checks, then
/// the strict expiry bound, then subject and role parsing — each failure
/// terminal with its exact error.
pub open spec fn spec_authenticate(header: Option<Seq<char>>, secret: Seq<char>, now: u64) -> Result<
    Identity,
    AuthError,
> {
    match header {
        None => Err(AuthError::MissingToken),
        Some(h) => match spec_extract_bearer(h) {
            None => Err(AuthError::MissingToken),
            Some(token) => match spec_validate(token, secret, now) {
                Err(e) => Err(e),
                Ok((sub, exp, role)) => match uuid_of(sub) {
                    None => Err(AuthError::InvalidSubject),
                    Some(subject) => match spec_parse_role(role) {
                        None => Err(AuthError::InvalidToken),
                        Some(parsed_role) => Ok(Identity { subject, role: parsed_role }),
                    },
                },
            },
        },
    }
}

/// The authentication layer. Applying it to a configuration yields the
/// per-request validation service; the configuration is passed explicitly
/// at construction and never read from ambient state.
#[derive(Clone, Debug)]
pub struct AuthMiddleware;

impl AuthMiddleware {
    /// Builds the validation service around the given configuration.
    pub fn layer(&self, config: &Config) -> (s: AuthMiddlewareService)
        ensures
            s.config.secret_key@ == config.secret_key@,
    {
        AuthMiddlewareService {
            config: Config {
                database_url: config.database_url.clone(),
                secret_key: config.secret_key.clone(),
            },
        }
    }
}

/// The token-validation service: holds the configuration and decides, for
/// one request's authorization header and the current time, whether the
/// request is authenticated and as whom.
#[derive(Clone, Debug)]
pub struct AuthMiddlewareService {
    /// The configuration fixed at construction.
    pub config: Config,
}

impl AuthMiddlewareService {
    /// Runs the validation state machine on one request. The result is
    /// exactly `spec_authenticate` on the header's view.
    pub fn call(&self, authorization: Option<&String>, now: u64) -> (r: Result<Identity, AuthError>)
        ensures
            r == spec_authenticate(spec_opt_str_view(authorization), self.config.secret_key@, now),
    {
        let header = match authorization {
            Some(h) => h,
            None => {
                return Err(AuthError::MissingToken);
            },
        };
        let token = match extract_bearer(header.as_str()) {
            Some(t) => t,
            None => {
                return Err(AuthError::MissingToken);
            },
        };
        let claims = match validate_jwt(token, &self.config, now) {
            Ok(c) => c,
            Err(e) => {
                return Err(e);
            },
        };
        let subject = match parse_uuid(claims.sub.as_str()) {
            Some(id) => id,
            None => {
                return Err(AuthError::InvalidSubject);
            },
        };
        let role = match Role::parse(claims.role.as_str()) {
            Some(parsed_role) => parsed_role,
            None => {
                return Err(AuthError::InvalidToken);
            },
        };
        Ok(Identity { subject, role })
    }
}

/// Round-trip correctness: a token carrying a user's subject and role —
/// exactly what the issuer signs — presented as a bearer credential before
/// its expiry, authenticates to an identity with that same subject and
/// role.
pub proof fn lemma_issue_validate_round_trip(
    header: Seq<char>,
    token: Seq<char>,
    subject: u128,
    exp: u64,
    role: Role,
    secret: Seq<char>,
    now: u64,
)
    requires
        decoded_claims_of(token, secret) == Some(
            (uuid_str_of(subject), exp, spec_role_tag(role), None::<Seq<char>>),
        ),
        uuid_of(uuid_str_of(subject)) == Some(subject),
        header == "Bearer "@ + token,
        now < exp,
    ensures
        spec_authenticate(Some(header), secret, now) == Ok::<Identity, AuthError>(
            Identity { subject, role },
        ),
{
    reveal_strlit("Bearer ");
    assert(header.subrange(0, 7) =~= "Bearer "@);
    assert(header.skip(7) =~= token);
    lemma_role_tag_round_trip(role);
}

/// A bearer credential whose expiry has passed — or equals the current
/// time — never authenticates, whatever else the token carries.
pub proof fn lemma_expired_bearer_rejected(header: Seq<char>, secret: Seq<char>, now: u64)
    requires
        spec_extract_bearer(header) matches Some(token) && (decoded_claims_of(token, secret)
            matches Some(c) && c.1 <= now),
    ensures
        spec_authenticate(Some(header), secret, now) is Err,
{
}

/// The optional liveness check of a protected route group: where a route
/// trades a store round trip for protection against tokens issued to
/// since-deleted accounts, the caller re-fetches the record of the
/// authenticated subject and hands in whether it still exists. A vanished
/// account is never silently admitted.
pub fn confirm_liveness(identity: &Identity, account_exists: bool) -> (r: Result<
    Identity,
    AuthError,
>)
    ensures
        account_exists ==> (r matches Ok(confirmed) && confirmed == identity),
        !account_exists ==> (r matches Err(e) && e == AuthError::Unauthenticated),
{
    if account_exists {
        Ok(*identity)
    } else {
        Err(AuthError::Unauthenticated)
    }
}

/// A role gate: built with the tag a route requires, it rejects every
/// request whose attached role tag differs.
#[derive(Clone, Debug)]
pub struct RequireRole {
    /// The wire tag the guarded routes demand.
    pub required_role: String,
}

impl RequireRole {
    /// A gate demanding exactly `required_role`.
    pub fn new(required_role: String) -> (s: Self)
        ensures
            s.required_role@ == required_role@,
    {
        RequireRole { required_role }
    }

    /// Builds the per-request service for this gate.
    pub fn layer(&self) -> (s: RequireRoleService)
        ensures
            s.required_role@ == self.required_role@,
    {
        RequireRoleService { required_role: self.required_role.clone() }
    }
}

/// The per-request role-gate service.
#[derive(Clone, Debug)]
pub struct RequireRoleService {
    /// The wire tag the guarded routes demand.
    pub required_role: String,
}

impl RequireRoleService {
    /// Passes a request exactly when its attached role tag equals the
    /// required one or is the master administrator's, who is allowed on
    /// all actions unconditionally; any other tag — including an unknown
    /// one — is refused (fail-closed).
    pub fn call(&self, role: &String) -> (r: Result<(), AuthError>)
        ensures
            r is Ok <==> (role@ == self.required_role@ || role@ == spec_role_tag(
                Role::AdminMaster,
            )),
            r matches Err(e) ==> e == AuthError::Forbidden,
    {
        if *role == self.required_role || str_eq(role.as_str(), "admin_master") {
            Ok(())
        } else {
            Err(AuthError::Forbidden)
        }
    }
}

} // verus!
