//! A session-scoped connection broker for PostgreSQL servers.
//!
//! A client opens a session with `connect`, receives an opaque session
//! identifier, and later resolves that identifier back to the pool of live
//! connections the session owns, to run catalog queries on it.
//!
//! `registry` and `shared` hold the sessions, `broker` opens and resolves
//! them for any server kind that implements `connection::DatabaseConnection`,
//! `pg_connection` is that kind for PostgreSQL, `catalog` orders what the
//! catalog queries return, and `api` decides what the HTTP routes answer.
pub mod session_id;
pub mod error;
pub mod registry;
pub mod shared;
pub mod catalog;
pub mod connection;
pub mod pg_connection;
pub mod broker;
pub mod api;
pub mod laws;
