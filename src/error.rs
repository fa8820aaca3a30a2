use vstd::prelude::*;

verus! {

/// What can go wrong in the session store.
#[derive(Debug, Clone, Copy, PartialEq, Eq, Structural)]
pub enum StoreError {
    /// The database could not be reached at construction.
    Connection,
    /// No session identifier can be derived from the presented cookie value.
    MalformedCookie,
    /// The session payload could not be encoded or decoded.
    Serialization,
    /// A find, replace, delete, drop or index command failed.
    DatabaseOperation,
}

impl StoreError {
    /// A short description of the error.
    pub fn message(&self) -> &'static str {
        match self {
            StoreError::Connection => "cannot connect to the database",
            StoreError::MalformedCookie => "malformed session cookie",
            StoreError::Serialization => "cannot encode or decode the session",
            StoreError::DatabaseOperation => "database operation failed",
        }
    }
}

} // verus!
