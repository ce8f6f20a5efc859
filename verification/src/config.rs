//! Process configuration.
//!
//! The server secret and the store connection string are read once at
//! startup by the caller and passed in explicitly; no component reads
//! ambient state. The secret is immutable for the life of the process.

use vstd::prelude::*;

verus! {

/// The explicit configuration handed to the token issuer and validator at
/// construction time.
#[derive(Clone, Debug)]
pub struct Config {
    /// Connection string of the persistent store (used only by the caller).
    pub database_url: String,
    /// Symmetric signing key for tokens.
    pub secret_key: String,
}

} // verus!
