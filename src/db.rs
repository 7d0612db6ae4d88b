//! Storage-side values: where the reference data lives and how reaching it fails.

use vstd::prelude::*;

verus! {

/// Which storage backend to open, and where.
#[derive(Clone, Debug, PartialEq, Eq)]
pub struct DbConfig {
    /// Name of a registered backend, such as `sqlite`.
    pub backend: String,
    /// Backend-specific location, such as a file path or `:memory:`.
    pub connection_string: String,
}

impl Default for DbConfig {
    /// An in-memory SQLite database.
    fn default() -> (r: Self)
        ensures
            r.backend@ == "sqlite"@,
            r.connection_string@ == ":memory:"@,
    {
        DbConfig { backend: String::from_str("sqlite"), connection_string: String::from_str(":memory:") }
    }
}

/// Why the reference data could not be read or written.
#[derive(Clone, Debug, PartialEq, Eq)]
pub enum RepositoryError {
    /// No such record.
    NotFound,
    /// The database refused an operation.
    Database(String),
    /// The database could not be opened.
    Connection(String),
}

/// The factory for the SQLite backend.
#[derive(Clone, Copy, Debug)]
pub struct SqliteRepositoryFactory;

impl SqliteRepositoryFactory {
    /// The name the backend is registered under.
    pub fn backend_name(&self) -> (r: &'static str)
        ensures
            r@ == "sqlite"@,
    {
        "sqlite"
    }
}

} // verus!
