//! Subject identifiers and the authenticated identity.
//!
//! A subject identifier travels as a UUID string inside tokens and as its
//! 128-bit value everywhere else. Parsing and formatting are delegated to
//! the uuid crate; both are functions of their argument alone, named here
//! so contracts can speak of them.

use vstd::prelude::*;

use crate::roles::Role;

verus! {

/// The 128-bit value a string parses to as a UUID, or `None` where it is
/// not a valid UUID in any textual form the uuid crate accepts.
pub uninterp spec fn uuid_of(s: Seq<char>) -> Option<u128>;

/// The canonical hyphenated string of the UUID with value `id`.
pub uninterp spec fn uuid_str_of(id: u128) -> Seq<char>;

/// Relies on `Uuid::parse_str` (uuid): parsing is a function of the string
/// alone.
#[verifier::external_body]
pub(crate) fn parse_uuid(s: &str) -> (r: Option<u128>)
    ensures
        r == uuid_of(s@),
{
    match uuid::Uuid::parse_str(s) {
        Ok(u) => Some(u.as_u128()),
        Err(_) => None,
    }
}

/// Relies on `Uuid::from_u128` and its `Display` form (uuid): formatting
/// yields the canonical hyphenated string, and `Uuid::parse_str` accepts
/// that string back as the same value.
#[verifier::external_body]
pub(crate) fn uuid_to_string(id: u128) -> (r: String)
    ensures
        r@ == uuid_str_of(id),
        uuid_of(r@) == Some(id),
{
    uuid::Uuid::from_u128(id).to_string()
}

/// The authenticated identity attached to a request after token
/// validation: the parsed subject identifier and the parsed role. Created
/// by the token validator, consumed by the enforcer and downstream
/// handlers.
#[derive(Clone, Copy, Debug, PartialEq, Eq, Structural)]
pub struct Identity {
    /// Subject identifier of the authenticated user.
    pub subject: u128,
    /// Privilege tier carried by the validated token.
    pub role: Role,
}

} // verus!
