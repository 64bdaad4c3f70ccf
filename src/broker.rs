//! The broker: opening sessions, resolving them to connections, and running
//! the catalog queries, for any kind of server that implements
//! `DatabaseConnection`.
use crate::catalog::{list_in_order, listed_in_order, CatalogOrder, Database, Table};
use crate::connection::{ConnectionData, DatabaseConnection, PoolSettings, QueryError};
use crate::error::PgError;
use crate::session_id::{identifier_length, parse_session_id, SessionId};
use crate::shared::SharedSessions;
use vstd::prelude::*;
use vstd::string::StringExecFns;

verus! {

/// The broker error of a failed catalog query: the same kind, the same text.
pub open spec fn query_failure(e: QueryError) -> PgError {
    match e {
        QueryError::Failed(m) => PgError::PostgresError(m),
        QueryError::ConnectionLost(m) => PgError::ConnectionLost(m),
    }
}

/// The broker error of a failed catalog query, of the same kind.
pub fn from_query_error(e: QueryError) -> (r: PgError)
    ensures
        r == query_failure(e),
{
    match e {
        QueryError::Failed(m) => PgError::PostgresError(m),
        QueryError::ConnectionLost(m) => PgError::ConnectionLost(m),
    }
}

/// The failures that a catalog query reports.
pub open spec fn is_query_failure(e: PgError) -> bool {
    e is PostgresError || e is ConnectionLost
}

/// What taking a connection from a session's pool gives: the connection,
/// or `PoolTimeout` with the pool's reason when none was free in time.
pub fn connection_outcome<C>(got: Result<C, String>) -> (r: Result<C, PgError>)
    ensures
        got matches Ok(c) ==> r == Ok::<C, PgError>(c),
        got matches Err(m) ==> r == Err::<C, PgError>(PgError::PoolTimeout(m)),
{
    match got {
        Ok(c) => Ok(c),
        Err(m) => Err(PgError::PoolTimeout(m)),
    }
}

/// What a catalog query gives once its records are fetched: the records in
/// the order of their kind, or the query's failure, of the same kind.
pub fn catalog_outcome<T: CatalogOrder>(fetched: Result<Vec<T>, QueryError>) -> (r: Result<
    Vec<T>,
    PgError,
>)
    ensures
        fetched matches Err(e) ==> r == Err::<Vec<T>, PgError>(query_failure(e)),
        fetched matches Ok(v) ==> (r matches Ok(w) && listed_in_order(w@) && w@.to_multiset()
            =~= v@.to_multiset()),
{
    match fetched {
        Ok(found) => Ok(list_in_order(found)),
        Err(e) => Err(from_query_error(e)),
    }
}

/// Builds the pool of a new session. Settings that no pool can have are
/// refused before the server is contacted.
pub fn init_db_pool<D: DatabaseConnection>(
    connection_data: &ConnectionData,
    settings: &PoolSettings,
) -> (r: Result<D::Pool, String>)
    ensures
        !settings.usable() ==> r is Err,
{
    if !settings.is_usable() {
        return Err(
            String::from_str("a pool needs a positive size and a positive wait of at most one day"),
        );
    }
    D::init_db_pool(connection_data, settings)
}

/// Opens a session: builds its pool, then registers it under a fresh
/// identifier. A pool that cannot be built leaves the registry as it was
/// and gives `PoolError`.
pub fn connect<D: DatabaseConnection>(
    connection_data: &ConnectionData,
    settings: &PoolSettings,
    db_sessions: &SharedSessions<D::Pool>,
) -> (r: Result<SessionId, PgError>)
    ensures
        !settings.usable() ==> r matches Err(PgError::PoolError(_)),
        r is Ok || r matches Err(PgError::PoolError(_)) || r == Err::<SessionId, PgError>(
            PgError::CouldNotWriteDbSession,
        ),
{
    let outcome = init_db_pool::<D>(connection_data, settings);
    db_sessions.register(outcome)
}

/// Takes a connection from the pool of the session named `session_id`:
/// `NoDbSession` when there is no such session, `PoolTimeout` when the pool
/// has no free connection within its wait.
pub fn acquire_connection<D: DatabaseConnection>(
    db_sessions: &SharedSessions<D::Pool>,
    session_id: &SessionId,
) -> (r: Result<D::Connection, PgError>)
    ensures
        r matches Err(e) ==> (e == PgError::NoDbSession || e is PoolTimeout),
{
    let pool = match db_sessions.lookup(session_id) {
        Ok(pool) => pool,
        Err(e) => {
            return Err(e);
        },
    };
    connection_outcome(D::get_connection(&pool))
}

/// Takes a connection for the session that `token` names; a token that
/// names no identifier gives `NoDbSession`.
pub fn acquire_by_token<D: DatabaseConnection>(
    db_sessions: &SharedSessions<D::Pool>,
    token: &str,
) -> (r: Result<D::Connection, PgError>)
    ensures
        parse_session_id(token@) is None ==> r matches Err(PgError::NoDbSession),
        !identifier_length(token@) ==> r matches Err(PgError::NoDbSession),
        r matches Err(e) ==> (e == PgError::NoDbSession || e is PoolTimeout),
{
    match SessionId::is_valid(token) {
        Ok(id) => acquire_connection::<D>(db_sessions, &id),
        Err(_) => Err(PgError::NoDbSession),
    }
}

/// The databases of the server, by name. The connection is consumed, so
/// it goes back to its pool when the call ends, on every path.
pub fn get_databases<D: DatabaseConnection>(db_conn: D::Connection) -> (r: Result<
    Vec<Database>,
    PgError,
>)
    ensures
        r matches Ok(v) ==> listed_in_order(v@),
        r matches Err(e) ==> is_query_failure(e),
{
    catalog_outcome(D::fetch_databases(db_conn))
}

/// The tables of the server, by schema and then by name. The connection is
/// consumed, so it goes back to its pool when the call ends, on every path.
pub fn get_tables<D: DatabaseConnection>(db_conn: D::Connection) -> (r: Result<
    Vec<Table>,
    PgError,
>)
    ensures
        r matches Ok(v) ==> listed_in_order(v@),
        r matches Err(e) ==> is_query_failure(e),
{
    catalog_outcome(D::fetch_tables(db_conn))
}

/// The databases of the session named `session_id`, by name; fails with
/// `NoDbSession`, `PoolTimeout` or the query's failure.
pub fn list_databases<D: DatabaseConnection>(
    db_sessions: &SharedSessions<D::Pool>,
    session_id: &SessionId,
) -> (r: Result<Vec<Database>, PgError>)
    ensures
        r matches Ok(v) ==> listed_in_order(v@),
        r matches Err(e) ==> (e == PgError::NoDbSession || e is PoolTimeout || is_query_failure(
            e,
        )),
{
    match acquire_connection::<D>(db_sessions, session_id) {
        Ok(conn) => get_databases::<D>(conn),
        Err(e) => Err(e),
    }
}

/// The tables of the session named `session_id`, by schema and name; fails
/// with `NoDbSession`, `PoolTimeout` or the query's failure.
pub fn list_tables<D: DatabaseConnection>(
    db_sessions: &SharedSessions<D::Pool>,
    session_id: &SessionId,
) -> (r: Result<Vec<Table>, PgError>)
    ensures
        r matches Ok(v) ==> listed_in_order(v@),
        r matches Err(e) ==> (e == PgError::NoDbSession || e is PoolTimeout || is_query_failure(
            e,
        )),
{
    match acquire_connection::<D>(db_sessions, session_id) {
        Ok(conn) => get_tables::<D>(conn),
        Err(e) => Err(e),
    }
}

/// Checks that the session named `session_id` can still hand out a
/// connection, and gives it straight back.
pub fn check_session<D: DatabaseConnection>(
    db_sessions: &SharedSessions<D::Pool>,
    session_id: &SessionId,
) -> (r: Result<SessionId, PgError>)
    ensures
        r matches Ok(id) ==> id == *session_id,
        r matches Err(e) ==> (e == PgError::NoDbSession || e is PoolTimeout),
{
    match acquire_connection::<D>(db_sessions, session_id) {
        Ok(_conn) => Ok(*session_id),
        Err(e) => Err(e),
    }
}

} // verus!
