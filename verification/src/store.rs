//! Database connection settings.

use vstd::prelude::*;
use vstd::string::*;

verus! {

/// Where the SQLite database lives and how many connections the pool opens.
#[derive(Debug, Clone, PartialEq, Eq)]
pub struct SqliteConfig {
    pub url: String,
    pub max_connections: u32,
}

impl Default for SqliteConfig {
    /// `data.db` in the working directory, created when missing; five
    /// connections.
    fn default() -> (c: SqliteConfig)
        ensures
            c.url@ == "sqlite://data.db?mode=rwc"@,
            c.max_connections == 5,
    {
        SqliteConfig { url: String::from_str("sqlite://data.db?mode=rwc"), max_connections: 5 }
    }
}

} // verus!
