//! What a client hands over to open a session, how its pool is sized, and
//! what the broker needs of a database server.
use crate::catalog::{Database, Table};
use vstd::prelude::*;

verus! {

/// The server and the credentials of a new session.
#[derive(Clone, Debug, PartialEq, Eq)]
pub struct ConnectionData {
    pub host: String,
    pub port: u16,
    pub username: String,
    pub password: String,
    pub database: String,
}

/// The size of a session's pool, fixed when the pool is built, and how long
/// a request waits for one of its connections.
#[derive(Clone, Copy, Debug, PartialEq, Eq, Structural)]
pub struct PoolSettings {
    pub max_size: u32,
    pub connection_timeout_ms: u64,
}

/// The largest number of connections that a pool holds by default.
pub const DEFAULT_MAX_SIZE: u32 = 10;

/// How long, in milliseconds, a request waits for a connection by default.
pub const DEFAULT_TIMEOUT_MS: u64 = 30000;

/// The longest wait for a connection, in milliseconds, that a pool accepts:
/// one day.
pub const MAX_TIMEOUT_MS: u64 = 86400000;

impl PoolSettings {
    /// Settings with the given size and wait.
    pub fn new(max_size: u32, connection_timeout_ms: u64) -> (r: PoolSettings)
        ensures
            r.max_size == max_size,
            r.connection_timeout_ms == connection_timeout_ms,
    {
        PoolSettings { max_size, connection_timeout_ms }
    }

    /// A pool can be built with these settings: it holds at least one
    /// connection and waits a positive, bounded time for one.
    pub open spec fn usable(self) -> bool {
        self.max_size > 0 && 0 < self.connection_timeout_ms <= MAX_TIMEOUT_MS
    }

    /// Whether a pool can be built with these settings.
    pub fn is_usable(&self) -> (r: bool)
        ensures
            r == self.usable(),
    {
        self.max_size > 0 && 0 < self.connection_timeout_ms && self.connection_timeout_ms
            <= MAX_TIMEOUT_MS
    }
}

impl Default for PoolSettings {
    fn default() -> (r: PoolSettings)
        ensures
            r.max_size == DEFAULT_MAX_SIZE,
            r.connection_timeout_ms == DEFAULT_TIMEOUT_MS,
    {
        PoolSettings { max_size: DEFAULT_MAX_SIZE, connection_timeout_ms: DEFAULT_TIMEOUT_MS }
    }
}

/// Why a catalog query failed.
#[derive(Clone, Debug, PartialEq, Eq)]
pub enum QueryError {
    /// The server refused or could not run the query.
    Failed(String),
    /// The connection was closed under the query.
    ConnectionLost(String),
}

/// What the broker needs of a kind of database server: building a pool of
/// connections to it, taking a connection from a pool, and reading the two
/// catalogs over a connection. A connection goes back to its pool when it
/// is dropped.
pub trait DatabaseConnection {
    /// A live connection taken from a pool.
    type Connection;

    /// A pool of connections to one server; clones are handles to the same pool.
    type Pool: Clone;

    /// Builds a pool with the given settings, or gives the reason it could not.
    fn init_db_pool(connection_data: &ConnectionData, settings: &PoolSettings) -> Result<
        Self::Pool,
        String,
    >
        requires
            settings.usable(),
    ;

    /// Takes a connection from the pool, waiting at most the pool's wait,
    /// or gives the reason there was none.
    fn get_connection(pool: &Self::Pool) -> Result<Self::Connection, String>;

    /// The databases of the server that are not templates, in any order.
    fn fetch_databases(db_conn: Self::Connection) -> Result<Vec<Database>, QueryError>;

    /// The ordinary tables visible in the search path, outside the system
    /// schemas, in any order.
    fn fetch_tables(db_conn: Self::Connection) -> Result<Vec<Table>, QueryError>;
}

} // verus!
