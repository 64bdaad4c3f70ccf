//! PostgreSQL servers, reached through r2d2 pools: building a session's
//! pool, taking a connection from it, and reading the two catalogs.
use crate::catalog::{Database, Table};
use crate::connection::{ConnectionData, DatabaseConnection, PoolSettings, QueryError, MAX_TIMEOUT_MS};
use vstd::prelude::*;

verus! {

/// A row of a `postgres` query result, carried opaquely.
#[verifier::external_type_specification]
#[verifier::external_body]
pub struct ExRow(postgres::Row);

/// An error of the `postgres` client, carried opaquely.
#[verifier::external_type_specification]
#[verifier::external_body]
pub struct ExPostgresError(postgres::Error);

/// A pool of connections to one PostgreSQL server. Clones are handles to
/// the same pool.
#[verifier::external_body]
pub struct PgPool {
    pool: r2d2::Pool<r2d2_postgres::PostgresConnectionManager<postgres::NoTls>>,
}

impl Clone for PgPool {
    /// Relies on `r2d2::Pool::clone`: a second handle to the same pool.
    #[verifier::external_body]
    fn clone(&self) -> (r: PgPool) {
        PgPool { pool: self.pool.clone() }
    }
}

/// A connection taken from a `PgPool`; dropping it gives it back to the pool.
#[verifier::external_body]
pub struct PgConnection {
    conn: r2d2::PooledConnection<r2d2_postgres::PostgresConnectionManager<postgres::NoTls>>,
}

/// Relies on `postgres::Error::is_closed`: whether the error comes from a
/// closed connection.
pub assume_specification[ postgres::Error::is_closed ](e: &postgres::Error) -> bool;

/// Relies on `r2d2::Builder::build` with a `r2d2_postgres::PostgresConnectionManager`
/// for the given server: it opens the pool's connections within the given
/// wait, or gives the text of r2d2's error. r2d2 panics on a size or a wait
/// of zero, and on a wait too long to add to the present instant.
#[verifier::external_body]
fn open_pool(data: &ConnectionData, max_size: u32, timeout_ms: u64) -> (r: Result<PgPool, String>)
    requires
        max_size > 0,
        0 < timeout_ms <= MAX_TIMEOUT_MS,
{
    let mut config = postgres::Config::new();
    config.host(&data.host).port(data.port).user(&data.username);
    config.password(&data.password).dbname(&data.database);
    let manager = r2d2_postgres::PostgresConnectionManager::new(config, postgres::NoTls);
    r2d2::Pool::builder().max_size(max_size).connection_timeout(
        std::time::Duration::from_millis(timeout_ms),
    ).build(manager).map(|pool| PgPool { pool }).map_err(|e| e.to_string())
}

/// Relies on `r2d2::Pool::get`: a connection of the pool, or the text of
/// r2d2's error once the pool's wait has passed.
#[verifier::external_body]
fn take_connection(pool: &PgPool) -> (r: Result<PgConnection, String>) {
    pool.pool.get().map(|conn| PgConnection { conn }).map_err(|e| e.to_string())
}

/// Relies on `postgres::Client::query`, reached through the pooled
/// connection: the rows of a statement without parameters.
#[verifier::external_body]
fn run_query(conn: &mut PgConnection, sql: &str) -> (r: Result<Vec<postgres::Row>, postgres::Error>) {
    conn.conn.query(sql, &[])
}

/// Relies on `postgres::Row::try_get`: the text in the named column.
#[verifier::external_body]
fn column_text(row: &postgres::Row, column: &str) -> (r: Result<String, postgres::Error>) {
    row.try_get::<&str, String>(column)
}

/// Relies on `postgres::Row::try_get`: the object identifier in the named column.
#[verifier::external_body]
fn column_oid(row: &postgres::Row, column: &str) -> (r: Result<u32, postgres::Error>) {
    row.try_get::<&str, u32>(column)
}

/// Relies on the `Display` of `postgres::Error`: its message.
#[verifier::external_body]
fn error_message(e: &postgres::Error) -> (r: String) {
    e.to_string()
}

/// The catalog query that lists the databases that are not templates.
pub const DATABASES_QUERY: &'static str =
    "SELECT datname, oid FROM pg_database WHERE NOT datistemplate ORDER BY datname ASC";

/// The catalog query that lists the ordinary tables visible in the search
/// path, outside the system schemas.
pub const TABLES_QUERY: &'static str = "SELECT n.nspname AS \"schema\", c.relname AS \"name\", pg_catalog.pg_get_userbyid(c.relowner) AS \"owner\" FROM pg_catalog.pg_class c LEFT JOIN pg_catalog.pg_namespace n ON n.oid = c.relnamespace WHERE c.relkind IN ('r', '') AND n.nspname <> 'pg_catalog' AND n.nspname <> 'information_schema' AND n.nspname !~ '^pg_toast' AND pg_catalog.pg_table_is_visible(c.oid) ORDER BY 1, 2";

/// The error of a failed query: `ConnectionLost` when the connection was
/// closed under it, `Failed` otherwise.
pub fn query_error(closed: bool, message: String) -> (r: QueryError)
    ensures
        closed ==> r == QueryError::ConnectionLost(message),
        !closed ==> r == QueryError::Failed(message),
{
    if closed {
        QueryError::ConnectionLost(message)
    } else {
        QueryError::Failed(message)
    }
}

fn to_query_error(e: postgres::Error) -> (r: QueryError) {
    let closed = e.is_closed();
    query_error(closed, error_message(&e))
}

/// The databases in the rows of `DATABASES_QUERY`, one per row and in the
/// rows' order; the first column that cannot be read ends the call with its
/// error.
fn databases_from_rows(rows: &Vec<postgres::Row>) -> (r: Result<Vec<Database>, QueryError>)
    ensures
        r matches Ok(v) ==> v.len() == rows.len(),
{
    let mut found: Vec<Database> = Vec::new();
    let mut i: usize = 0;
    while i < rows.len()
        invariant
            i <= rows.len(),
            found.len() == i,
        decreases rows.len() - i,
    {
        let name = match column_text(&rows[i], "datname") {
            Ok(v) => v,
            Err(e) => {
                return Err(to_query_error(e));
            },
        };
        let oid = match column_oid(&rows[i], "oid") {
            Ok(v) => v,
            Err(e) => {
                return Err(to_query_error(e));
            },
        };
        found.push(Database { name, oid });
        i = i + 1;
    }
    Ok(found)
}

/// The tables in the rows of `TABLES_QUERY`, one per row and in the rows'
/// order; the first column that cannot be read ends the call with its error.
fn tables_from_rows(rows: &Vec<postgres::Row>) -> (r: Result<Vec<Table>, QueryError>)
    ensures
        r matches Ok(v) ==> v.len() == rows.len(),
{
    let mut found: Vec<Table> = Vec::new();
    let mut i: usize = 0;
    while i < rows.len()
        invariant
            i <= rows.len(),
            found.len() == i,
        decreases rows.len() - i,
    {
        let name = match column_text(&rows[i], "name") {
            Ok(v) => v,
            Err(e) => {
                return Err(to_query_error(e));
            },
        };
        let schema = match column_text(&rows[i], "schema") {
            Ok(v) => v,
            Err(e) => {
                return Err(to_query_error(e));
            },
        };
        let owner = match column_text(&rows[i], "owner") {
            Ok(v) => v,
            Err(e) => {
                return Err(to_query_error(e));
            },
        };
        found.push(Table { name, schema, owner });
        i = i + 1;
    }
    Ok(found)
}

/// The connector to PostgreSQL servers.
pub struct PgDatabaseConnection {}

impl DatabaseConnection for PgDatabaseConnection {
    type Connection = PgConnection;

    type Pool = PgPool;

    fn init_db_pool(connection_data: &ConnectionData, settings: &PoolSettings) -> (r: Result<
        PgPool,
        String,
    >) {
        open_pool(connection_data, settings.max_size, settings.connection_timeout_ms)
    }

    fn get_connection(pool: &PgPool) -> (r: Result<PgConnection, String>) {
        take_connection(pool)
    }

    fn fetch_databases(db_conn: PgConnection) -> (r: Result<Vec<Database>, QueryError>) {
        let mut conn = db_conn;
        match run_query(&mut conn, DATABASES_QUERY) {
            Ok(rows) => databases_from_rows(&rows),
            Err(e) => Err(to_query_error(e)),
        }
    }

    fn fetch_tables(db_conn: PgConnection) -> (r: Result<Vec<Table>, QueryError>) {
        let mut conn = db_conn;
        match run_query(&mut conn, TABLES_QUERY) {
            Ok(rows) => tables_from_rows(&rows),
            Err(e) => Err(to_query_error(e)),
        }
    }
}

} // verus!
