//! A multi-role authentication and authorization core.
//!
//! The library covers the identity pipeline of a small service with three
//! privilege tiers (client, admin, master admin): password hashing and
//! verification, signed-token issuance and validation, role and ownership
//! enforcement, and the admission guard that bounds concurrent requests.
//! Persistence and HTTP transport are left to the caller, which hands the
//! library plain values (looked-up users, header strings, timestamps).

pub mod account;
pub mod authorize;
pub mod config;
pub mod errors;
pub mod identity;
pub mod middleware;
pub mod models;
pub mod password;
pub mod rate_limit;
pub mod roles;
pub mod text;
pub mod token;
