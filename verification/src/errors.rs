//! The error taxonomy of the authentication pipeline.
//!
//! Every failure a component can report is one of these variants, and each
//! maps to exactly one HTTP status class: authentication failures are 401,
//! malformed input is 400, authorization denials are 403, duplicate
//! registration is 409, a missing record is 404, admission-control rejection
//! is 429, and internal faults (hashing, signing, persistence) are 500.

use vstd::prelude::*;

verus! {

/// A terminal failure of the authentication/authorization pipeline.
///
/// Authentication failures are deliberately coarse towards the caller:
/// `Unauthenticated` covers both "no such user" and "wrong password" so the
/// response does not reveal which check failed.
#[derive(Clone, Copy, Debug, PartialEq, Eq, Structural)]
pub enum AuthError {
    /// Login credentials were wrong (unknown phone or wrong password).
    Unauthenticated,
    /// No bearer credential was presented on a protected route.
    MissingToken,
    /// The bearer credential failed signature or structural checks.
    InvalidToken,
    /// The bearer credential's expiry timestamp has passed.
    TokenExpired,
    /// The token's subject claim is not a valid identifier.
    InvalidSubject,
    /// The request body failed validation before any processing.
    MalformedInput,
    /// The identity is authenticated but not authorized for the action.
    Forbidden,
    /// The resource to create already exists (duplicate registration).
    Conflict,
    /// The referenced record does not exist.
    NotFound,
    /// The admission guard is saturated; the request was shed.
    Overloaded,
    /// An internal fault: hashing, signing or persistence failed.
    Internal,
}

/// The HTTP status that `e` surfaces as.
pub open spec fn spec_status_code(e: AuthError) -> u16 {
    match e {
        AuthError::Unauthenticated => 401,
        AuthError::MissingToken => 401,
        AuthError::InvalidToken => 401,
        AuthError::TokenExpired => 401,
        AuthError::InvalidSubject => 400,
        AuthError::MalformedInput => 400,
        AuthError::Forbidden => 403,
        AuthError::Conflict => 409,
        AuthError::NotFound => 404,
        AuthError::Overloaded => 429,
        AuthError::Internal => 500,
    }
}

impl AuthError {
    /// The HTTP status code this error is reported with.
    pub fn status_code(&self) -> (code: u16)
        ensures
            code == spec_status_code(*self),
    {
        match self {
            AuthError::Unauthenticated => 401,
            AuthError::MissingToken => 401,
            AuthError::InvalidToken => 401,
            AuthError::TokenExpired => 401,
            AuthError::InvalidSubject => 400,
            AuthError::MalformedInput => 400,
            AuthError::Forbidden => 403,
            AuthError::Conflict => 409,
            AuthError::NotFound => 404,
            AuthError::Overloaded => 429,
            AuthError::Internal => 500,
        }
    }
}

} // verus!
