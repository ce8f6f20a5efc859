//! The closed set of privilege tiers.
//!
//! Role values are parsed from their wire tags exactly once, at the boundary;
//! any tag outside the three known ones fails parsing there (fail-closed), so
//! no free-form role string is ever compared downstream.

use vstd::prelude::*;
use vstd::string::StringExecFns;

use crate::text::str_eq;

verus! {

/// A privilege tier. `AdminMaster` is the single master administrator;
/// `Admin` is a secondary administrator; `Client` is an ordinary user.
#[derive(Clone, Copy, Debug, PartialEq, Eq, Structural)]
pub enum Role {
    Client,
    Admin,
    AdminMaster,
}

/// The wire tag a role is carried under inside tokens and records.
pub open spec fn spec_role_tag(role: Role) -> Seq<char> {
    match role {
        Role::Client => "client"@,
        Role::Admin => "admin"@,
        Role::AdminMaster => "admin_master"@,
    }
}

/// Parsing of a wire tag back into a role; anything but the three known
/// tags yields `None`.
pub open spec fn spec_parse_role(tag: Seq<char>) -> Option<Role> {
    if tag == "client"@ {
        Some(Role::Client)
    } else if tag == "admin"@ {
        Some(Role::Admin)
    } else if tag == "admin_master"@ {
        Some(Role::AdminMaster)
    } else {
        None
    }
}

impl Role {
    /// The wire tag of this role.
    pub fn tag(&self) -> (s: String)
        ensures
            s@ == spec_role_tag(*self),
    {
        match self {
            Role::Client => String::from_str("client"),
            Role::Admin => String::from_str("admin"),
            Role::AdminMaster => String::from_str("admin_master"),
        }
    }

    /// Parses a wire tag, refusing every tag outside the closed set.
    pub fn parse(tag: &str) -> (r: Option<Role>)
        ensures
            r == spec_parse_role(tag@),
    {
        if str_eq(tag, "client") {
            Some(Role::Client)
        } else if str_eq(tag, "admin") {
            Some(Role::Admin)
        } else if str_eq(tag, "admin_master") {
            Some(Role::AdminMaster)
        } else {
            None
        }
    }
}

/// Tags and parsing are inverse: the tag of every role parses back to
/// exactly that role.
pub proof fn lemma_role_tag_round_trip(role: Role)
    ensures
        spec_parse_role(spec_role_tag(role)) == Some(role),
{
    reveal_strlit("client");
    reveal_strlit("admin");
    reveal_strlit("admin_master");
    assert("client"@.len() == 6);
    assert("admin"@.len() == 5);
    assert("admin_master"@.len() == 12);
}

} // verus!
