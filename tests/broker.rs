use database_manager::api::{self, ApiResponse, ResponseBody};
use database_manager::broker::{
    acquire_by_token, acquire_connection, catalog_outcome, check_session, connect,
    connection_outcome, from_query_error, get_databases, list_databases, list_tables,
};
use database_manager::catalog::{Database, Table};
use database_manager::connection::{
    ConnectionData, DatabaseConnection, PoolSettings, QueryError,
};
use database_manager::error::PgError;
use database_manager::pg_connection::{query_error, PgDatabaseConnection, PgPool};
use database_manager::session_id::SessionId;
use database_manager::shared::SharedSessions;
use std::sync::{Arc, Mutex};

fn target(host: &str, password: &str) -> ConnectionData {
    ConnectionData {
        host: host.to_string(),
        port: 5432,
        username: "u".to_string(),
        password: password.to_string(),
        database: "mydb".to_string(),
    }
}

fn unreachable_target() -> ConnectionData {
    ConnectionData { port: 1, ..target("127.0.0.1", "wrong") }
}

/// What an in-memory server has handed out and taken back.
#[derive(Default)]
struct Ledger {
    capacity: usize,
    out: usize,
    acquired: usize,
    released: usize,
    fail_queries: bool,
}

/// An in-memory server: the password `p` opens it; its pools hold at most
/// `max_size` connections and never wait.
struct MemoryDb;

#[derive(Clone)]
struct MemoryPool(Arc<Mutex<Ledger>>);

struct MemoryConnection(Arc<Mutex<Ledger>>);

impl Drop for MemoryConnection {
    fn drop(&mut self) {
        let mut ledger = self.0.lock().unwrap();
        ledger.out -= 1;
        ledger.released += 1;
    }
}

impl DatabaseConnection for MemoryDb {
    type Connection = MemoryConnection;
    type Pool = MemoryPool;

    fn init_db_pool(data: &ConnectionData, settings: &PoolSettings) -> Result<MemoryPool, String> {
        if data.password != "p" {
            return Err("password authentication failed".to_string());
        }
        let ledger = Ledger { capacity: settings.max_size as usize, ..Ledger::default() };
        Ok(MemoryPool(Arc::new(Mutex::new(ledger))))
    }

    fn get_connection(pool: &MemoryPool) -> Result<MemoryConnection, String> {
        let mut ledger = pool.0.lock().unwrap();
        if ledger.out == ledger.capacity {
            return Err("timed out waiting for connection".to_string());
        }
        ledger.out += 1;
        ledger.acquired += 1;
        Ok(MemoryConnection(pool.0.clone()))
    }

    fn fetch_databases(conn: MemoryConnection) -> Result<Vec<Database>, QueryError> {
        if conn.0.lock().unwrap().fail_queries {
            return Err(QueryError::Failed("relation does not exist".to_string()));
        }
        Ok(vec![
            Database { name: "zeta".to_string(), oid: 3 },
            Database { name: "postgres".to_string(), oid: 1 },
            Database { name: "mydb".to_string(), oid: 2 },
        ])
    }

    fn fetch_tables(conn: MemoryConnection) -> Result<Vec<Table>, QueryError> {
        if conn.0.lock().unwrap().fail_queries {
            return Err(QueryError::ConnectionLost("connection closed".to_string()));
        }
        let t = |schema: &str, name: &str| Table {
            name: name.to_string(),
            schema: schema.to_string(),
            owner: "u".to_string(),
        };
        Ok(vec![t("public", "users"), t("audit", "log"), t("public", "accounts")])
    }
}

fn ledger_of(sessions: &SharedSessions<MemoryPool>, id: &SessionId) -> Arc<Mutex<Ledger>> {
    sessions.lookup(id).unwrap().0
}

#[test]
fn connect_then_list_databases() {
    let sessions: SharedSessions<MemoryPool> = SharedSessions::new();
    let id = connect::<MemoryDb>(&target("db1", "p"), &PoolSettings::default(), &sessions).unwrap();
    let dbs = list_databases::<MemoryDb>(&sessions, &id).unwrap();
    let names: Vec<&str> = dbs.iter().map(|d| d.name.as_str()).collect();
    assert_eq!(names, vec!["mydb", "postgres", "zeta"]);
    assert!(names.contains(&"mydb"));
}

#[test]
fn list_tables_by_schema_then_name() {
    let sessions: SharedSessions<MemoryPool> = SharedSessions::new();
    let id = connect::<MemoryDb>(&target("db1", "p"), &PoolSettings::default(), &sessions).unwrap();
    let tables = list_tables::<MemoryDb>(&sessions, &id).unwrap();
    let keys: Vec<(&str, &str)> =
        tables.iter().map(|t| (t.schema.as_str(), t.name.as_str())).collect();
    assert_eq!(keys, vec![("audit", "log"), ("public", "accounts"), ("public", "users")]);
}

#[test]
fn wrong_password_is_refused_and_registers_nothing() {
    let sessions: SharedSessions<MemoryPool> = SharedSessions::new();
    connect::<MemoryDb>(&target("db1", "p"), &PoolSettings::default(), &sessions).unwrap();
    let r = connect::<MemoryDb>(&target("db1", "bad"), &PoolSettings::default(), &sessions);
    assert_eq!(r, Err(PgError::PoolError("password authentication failed".to_string())));
    assert_eq!(sessions.count(), 1);
}

#[test]
fn capacity_one_pool_hands_out_one_connection() {
    let sessions: SharedSessions<MemoryPool> = SharedSessions::new();
    let id = connect::<MemoryDb>(&target("db1", "p"), &PoolSettings::new(1, 100), &sessions).unwrap();
    let first = acquire_connection::<MemoryDb>(&sessions, &id).ok().unwrap();
    let second = acquire_connection::<MemoryDb>(&sessions, &id);
    assert!(matches!(second, Err(PgError::PoolTimeout(_))));
    assert_eq!(ledger_of(&sessions, &id).lock().unwrap().out, 1);
    drop(first);
    let third = acquire_connection::<MemoryDb>(&sessions, &id);
    assert!(third.is_ok());
}

#[test]
fn every_connection_goes_back_even_when_the_query_fails() {
    let sessions: SharedSessions<MemoryPool> = SharedSessions::new();
    let id = connect::<MemoryDb>(&target("db1", "p"), &PoolSettings::new(2, 100), &sessions).unwrap();
    list_databases::<MemoryDb>(&sessions, &id).unwrap();
    ledger_of(&sessions, &id).lock().unwrap().fail_queries = true;
    let failed = list_databases::<MemoryDb>(&sessions, &id);
    assert_eq!(failed, Err(PgError::PostgresError("relation does not exist".to_string())));
    let lost = list_tables::<MemoryDb>(&sessions, &id);
    assert_eq!(lost, Err(PgError::ConnectionLost("connection closed".to_string())));
    check_session::<MemoryDb>(&sessions, &id).unwrap();
    let ledger = ledger_of(&sessions, &id);
    let ledger = ledger.lock().unwrap();
    assert_eq!(ledger.acquired, 4);
    assert_eq!(ledger.released, 4);
    assert_eq!(ledger.out, 0);
}

#[test]
fn unknown_session_is_not_a_transient_failure() {
    let sessions: SharedSessions<MemoryPool> = SharedSessions::new();
    let id = connect::<MemoryDb>(&target("db1", "p"), &PoolSettings::default(), &sessions).unwrap();
    let other = SessionId(id.0 ^ 1);
    assert!(matches!(list_databases::<MemoryDb>(&sessions, &other), Err(PgError::NoDbSession)));
    assert!(matches!(
        acquire_by_token::<MemoryDb>(&sessions, "not-a-real-token"),
        Err(PgError::NoDbSession)
    ));
    assert_eq!(check_session::<MemoryDb>(&sessions, &id), Ok(id));
}

#[test]
fn direct_query_keeps_order() {
    let sessions: SharedSessions<MemoryPool> = SharedSessions::new();
    let id = connect::<MemoryDb>(&target("db1", "p"), &PoolSettings::default(), &sessions).unwrap();
    let conn = acquire_by_token::<MemoryDb>(&sessions, &id.to_string()).ok().unwrap();
    let dbs = get_databases::<MemoryDb>(conn).unwrap();
    assert_eq!(dbs[0], Database { name: "mydb".to_string(), oid: 2 });
}

#[test]
fn unusable_settings_are_refused() {
    let sessions: SharedSessions<PgPool> = SharedSessions::new();
    let r = connect::<PgDatabaseConnection>(
        &unreachable_target(),
        &PoolSettings::new(0, 100),
        &sessions,
    );
    assert!(matches!(r, Err(PgError::PoolError(_))));
    let r = connect::<PgDatabaseConnection>(&unreachable_target(), &PoolSettings::new(1, 0), &sessions);
    assert!(matches!(r, Err(PgError::PoolError(_))));
    assert_eq!(sessions.count(), 0);
}

#[test]
fn overlong_wait_is_refused() {
    let sessions: SharedSessions<PgPool> = SharedSessions::new();
    let r = connect::<PgDatabaseConnection>(
        &unreachable_target(),
        &PoolSettings::new(2, u64::MAX),
        &sessions,
    );
    assert!(matches!(r, Err(PgError::PoolError(_))));
    assert_eq!(sessions.count(), 0);
}

#[test]
fn unreachable_server_is_refused_without_a_session() {
    let sessions: SharedSessions<PgPool> = SharedSessions::new();
    let r = connect::<PgDatabaseConnection>(
        &unreachable_target(),
        &PoolSettings::new(1, 300),
        &sessions,
    );
    assert!(matches!(r, Err(PgError::PoolError(_))));
    assert_eq!(sessions.count(), 0);
}

#[test]
fn unknown_postgres_session_fails_with_no_session() {
    let sessions: SharedSessions<PgPool> = SharedSessions::new();
    let id = SessionId::new();
    assert!(matches!(
        list_databases::<PgDatabaseConnection>(&sessions, &id),
        Err(PgError::NoDbSession)
    ));
    assert!(matches!(
        list_tables::<PgDatabaseConnection>(&sessions, &id),
        Err(PgError::NoDbSession)
    ));
}

#[test]
fn query_errors_keep_their_kind() {
    assert_eq!(query_error(true, "closed".to_string()), QueryError::ConnectionLost("closed".to_string()));
    assert_eq!(query_error(false, "syntax".to_string()), QueryError::Failed("syntax".to_string()));
    assert_eq!(
        from_query_error(QueryError::Failed("syntax".to_string())),
        PgError::PostgresError("syntax".to_string())
    );
    assert_eq!(
        from_query_error(QueryError::ConnectionLost("closed".to_string())),
        PgError::ConnectionLost("closed".to_string())
    );
}

#[test]
fn default_pool_settings() {
    let s = PoolSettings::default();
    assert_eq!(s.max_size, 10);
    assert_eq!(s.connection_timeout_ms, 30000);
    assert!(s.is_usable());
    assert!(!PoolSettings::new(0, 5).is_usable());
    assert!(PoolSettings::new(1, 86_400_000).is_usable());
    assert!(!PoolSettings::new(1, 86_400_001).is_usable());
}

#[test]
fn pool_checkout_failure_is_a_timeout() {
    assert_eq!(connection_outcome::<u8>(Ok(4)), Ok(4));
    assert_eq!(
        connection_outcome::<u8>(Err("timed out".to_string())),
        Err(PgError::PoolTimeout("timed out".to_string()))
    );
}

#[test]
fn catalog_outcome_orders_or_propagates() {
    let fetched = Ok(vec![
        Database { name: "zeta".to_string(), oid: 3 },
        Database { name: "alpha".to_string(), oid: 1 },
    ]);
    let names: Vec<String> = catalog_outcome(fetched).unwrap().into_iter().map(|d| d.name).collect();
    assert_eq!(names, vec!["alpha".to_string(), "zeta".to_string()]);
    let failed: Result<Vec<Table>, QueryError> = Err(QueryError::Failed("boom".to_string()));
    assert_eq!(catalog_outcome(failed), Err(PgError::PostgresError("boom".to_string())));
    let lost: Result<Vec<Table>, QueryError> = Err(QueryError::ConnectionLost("gone".to_string()));
    assert_eq!(catalog_outcome(lost), Err(PgError::ConnectionLost("gone".to_string())));
}

#[test]
fn databases_route_answers_each_case() {
    let sessions: SharedSessions<MemoryPool> = SharedSessions::new();
    let r = api::connect::<MemoryDb>(&target("db1", "p"), &PoolSettings::default(), &sessions);
    let id = match r.body {
        ResponseBody::SessionCreated(id) => id,
        other => panic!("no session: {:?}", other),
    };
    assert_eq!(r.status, 200);
    let header = id.to_string();
    let ok = api::get_databases::<MemoryDb>(Some(header.as_str()), &sessions);
    assert_eq!(ok.status, 200);
    match ok.body {
        ResponseBody::Databases(v) => assert_eq!(v[0].name, "mydb"),
        other => panic!("not a listing: {:?}", other),
    }
    let malformed = api::get_databases::<MemoryDb>(Some("not-a-real-token"), &sessions);
    assert_eq!(malformed, ApiResponse { status: 400, body: ResponseBody::Empty });
    let missing = api::get_databases::<MemoryDb>(None, &sessions);
    assert_eq!(missing, ApiResponse { status: 400, body: ResponseBody::Empty });
    let unknown = SessionId(id.0 ^ 1).to_string();
    let r = api::get_databases::<MemoryDb>(Some(unknown.as_str()), &sessions);
    assert_eq!(r.status, 400);
    assert!(matches!(r.body, ResponseBody::Error(_)));
    assert_eq!(sessions.count(), 1);
}

#[test]
fn tables_route_answers_400_when_the_query_fails() {
    let sessions: SharedSessions<MemoryPool> = SharedSessions::new();
    let id = connect::<MemoryDb>(&target("db1", "p"), &PoolSettings::default(), &sessions).unwrap();
    let header = id.to_string();
    let ok = api::get_tables::<MemoryDb>(Some(header.as_str()), &sessions);
    assert_eq!(ok.status, 200);
    ledger_of(&sessions, &id).lock().unwrap().fail_queries = true;
    let failed = api::get_tables::<MemoryDb>(Some(header.as_str()), &sessions);
    assert_eq!(failed, ApiResponse { status: 400, body: ResponseBody::Error("connection closed".to_string()) });
}

#[test]
fn retry_route_answers_timeout_when_pool_is_full() {
    let sessions: SharedSessions<MemoryPool> = SharedSessions::new();
    let id = connect::<MemoryDb>(&target("db1", "p"), &PoolSettings::new(1, 100), &sessions).unwrap();
    let header = id.to_string();
    let ok = api::connection_retry::<MemoryDb>(Some(header.as_str()), &sessions);
    assert_eq!(ok, ApiResponse { status: 200, body: ResponseBody::Session(id) });
    let held = acquire_connection::<MemoryDb>(&sessions, &id).ok().unwrap();
    let busy = api::connection_retry::<MemoryDb>(Some(header.as_str()), &sessions);
    assert_eq!(busy.status, 504);
    drop(held);
}

#[test]
fn connect_route_refuses_wrong_password() {
    let sessions: SharedSessions<MemoryPool> = SharedSessions::new();
    let r = api::connect::<MemoryDb>(&target("db1", "bad"), &PoolSettings::default(), &sessions);
    assert_eq!(r, ApiResponse { status: 400, body: ResponseBody::Error("Connection refused".to_string()) });
    assert_eq!(sessions.count(), 0);
    let r = api::connect::<MemoryDb>(&target("db1", "p"), &PoolSettings::new(0, 10), &sessions);
    assert_eq!(r.status, 400);
    assert_eq!(sessions.count(), 0);
}
