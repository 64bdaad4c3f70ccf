//! The registry shared by all workers, behind a reader-writer lock.
//!
//! Lookups take the lock for reading and run side by side; registering a
//! session takes it for writing, so a lookup sees either the registry
//! without the new entry or with the whole of it. Nothing that runs under
//! the lock can panic, so the lock never stays held by a failed worker.
use crate::error::PgError;
use crate::registry::DbSessions;
use crate::session_id::{identifier_length, parse_session_id, SessionId};
use vstd::prelude::*;
use vstd::rwlock::RwLock;

verus! {

/// How many identifiers `register` draws before it gives up. A draw has 122
/// random bits, so it hits a given registered identifier with a chance of
/// one in 2^122.
pub const ID_ATTEMPTS: u32 = 4;

/// The registry of one broker, shared by the workers that serve its requests.
#[verifier::reject_recursive_types(P)]
pub struct SharedSessions<P> {
    lock: RwLock<DbSessions<P>, spec_fn(DbSessions<P>) -> bool>,
}

impl<P> SharedSessions<P> {
    /// The lock admits every registry value.
    #[verifier::type_invariant]
    spec fn admits_any(self) -> bool {
        forall|s: DbSessions<P>| #[trigger] self.lock.inv(s)
    }
}

impl<P: Clone> SharedSessions<P> {
    /// A shared registry with no session.
    pub fn new() -> (r: Self) {
        let ghost any = |s: DbSessions<P>| true;
        SharedSessions { lock: RwLock::new(DbSessions::new(), Ghost(any)) }
    }

    /// The number of sessions registered at the moment of the call.
    pub fn count(&self) -> (r: usize) {
        let handle = self.lock.acquire_read();
        let n = handle.borrow().len();
        handle.release_read();
        n
    }

    /// A handle to the pool registered under `session_id`, or `NoDbSession`.
    pub fn lookup(&self, session_id: &SessionId) -> (r: Result<P, PgError>)
        ensures
            r matches Err(e) ==> e == PgError::NoDbSession,
    {
        let handle = self.lock.acquire_read();
        let found = match handle.borrow().resolve(session_id) {
            Ok(pool) => Ok(pool.clone()),
            Err(e) => Err(e),
        };
        handle.release_read();
        found
    }

    /// A handle to the pool registered under the identifier that `token`
    /// spells; `NoDbSession` when there is none, and without taking the lock
    /// when `token` spells no identifier.
    pub fn lookup_token(&self, token: &str) -> (r: Result<P, PgError>)
        ensures
            parse_session_id(token@) is None ==> r == Err::<P, PgError>(PgError::NoDbSession),
            !identifier_length(token@) ==> r == Err::<P, PgError>(PgError::NoDbSession),
            r matches Err(e) ==> e == PgError::NoDbSession,
    {
        match SessionId::is_valid(token) {
            Ok(id) => self.lookup(&id),
            Err(_) => Err(PgError::NoDbSession),
        }
    }

    /// Registers a newly built pool under a fresh random identifier and
    /// returns that identifier. A pool that could not be built leaves the
    /// registry untouched and comes back as `PoolError`.
    pub fn register(&self, outcome: Result<P, String>) -> (r: Result<SessionId, PgError>)
        ensures
            outcome matches Err(msg) ==> r == Err::<SessionId, PgError>(PgError::PoolError(msg)),
            outcome is Ok ==> (r is Ok || r == Err::<SessionId, PgError>(
                PgError::CouldNotWriteDbSession,
            )),
    {
        let mut pool = match outcome {
            Ok(pool) => pool,
            Err(msg) => {
                return Err(PgError::PoolError(msg));
            },
        };
        let mut attempt: u32 = 0;
        while attempt < ID_ATTEMPTS
            invariant
                outcome is Ok,
                attempt <= ID_ATTEMPTS,
            decreases ID_ATTEMPTS - attempt,
        {
            let candidate = SessionId::new();
            proof {
                use_type_invariant(self);
            }
            let (mut sessions, handle) = self.lock.acquire_write();
            let step = sessions.register_pool(Ok(pool), candidate);
            handle.release_write(sessions);
            match step {
                Ok(id) => {
                    return Ok(id);
                },
                Err((_, Some(back))) => {
                    pool = back;
                },
                Err((e, None)) => {
                    return Err(e);
                },
            }
            attempt = attempt + 1;
        }
        Err(PgError::CouldNotWriteDbSession)
    }
}

/// A shared registry with no session, for the workers of one broker.
pub fn init_sessions<P: Clone>() -> (r: SharedSessions<P>) {
    SharedSessions::new()
}

} // verus!
