//! The errors of the broker and of the catalog queries.
use vstd::prelude::*;

verus! {

/// Why a broker operation or a catalog query failed.
#[derive(Clone, Debug, PartialEq, Eq)]
pub enum PgError {
    /// The pool for a new session could not be built: bad credentials, an
    /// unreachable host, or no connection within the pool's wait.
    PoolError(String),
    /// The session's pool had no free connection within its wait; the same
    /// request may be tried again without a new session.
    PoolTimeout(String),
    /// A catalog query failed on a live connection.
    PostgresError(String),
    /// The connection was closed while a catalog query ran.
    ConnectionLost(String),
    /// No session is registered under the identifier, or the token is not
    /// an identifier at all.
    NoDbSession,
    /// No unused identifier could be drawn for a new session.
    CouldNotWriteDbSession,
}

} // verus!
