//! Records exchanged with the persistent store and the transport layer,
//! modelled as plain values: identifiers are 128-bit integers, timestamps
//! are seconds since the epoch, and the role of a stored user is the parsed,
//! closed enumeration.

use vstd::prelude::*;

use crate::roles::Role;

verus! {

/// A stored user, as the persistence collaborator hands it to this core.
/// The role has already been parsed at the boundary; records with an
/// unknown role tag never reach this type.
#[derive(Clone, Debug)]
pub struct User {
    /// Opaque unique identifier (the 128 bits of the store's UUID).
    pub id: u128,
    /// Display name.
    pub name: String,
    /// Unique login key.
    pub phone: String,
    /// Encoded password digest produced by the credential manager.
    pub password_hash: String,
    /// Privilege tier.
    pub role: Role,
    /// Whether the phone number was confirmed.
    pub sms_verified: bool,
    /// Creation time, seconds since the epoch.
    pub created_at: i64,
}

/// A registration request on its way to the store. On arrival from the
/// transport, `password_hash` still holds the submitted plaintext; the
/// registration flow replaces it with the encoded digest before the record
/// may be inserted.
#[derive(Clone, Debug)]
pub struct NewUser {
    pub name: String,
    pub phone: String,
    pub password_hash: String,
    pub role: String,
}

/// A partial update of a stored user; absent fields are left unchanged.
#[derive(Clone, Debug)]
pub struct UpdateUser {
    pub name: Option<String>,
    pub phone: Option<String>,
    pub password_hash: Option<String>,
    pub role: Option<String>,
}

/// A login request body.
#[derive(Clone, Debug)]
pub struct LoginRequest {
    pub phone: String,
    pub password: String,
}

/// A successful login response: the signed session token together with the
/// identity it was issued for.
#[derive(Clone, Debug)]
pub struct LoginResponse {
    pub token: String,
    pub user_id: u128,
    pub role: String,
}

} // verus!
