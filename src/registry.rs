//! The session registry: the map from session identifiers to pools.
use crate::error::PgError;
use crate::session_id::{identifier_length, parse_session_id, SessionId};
use std::collections::HashMap;
use vstd::prelude::*;

verus! {

broadcast use vstd::std_specs::hash::group_hash_axioms;

/// The sessions of one broker, each identifier mapped to the pool it owns.
pub struct DbSessions<P> {
    sessions: HashMap<u128, P>,
}

impl<P> View for DbSessions<P> {
    type V = Map<u128, P>;

    closed spec fn view(&self) -> Map<u128, P> {
        self.sessions@
    }
}

/// What resolving an identifier against registry contents `m` gives.
pub open spec fn resolve_spec<P>(m: Map<u128, P>, id: SessionId) -> Result<P, PgError> {
    if m.contains_key(id.0) {
        Ok(m[id.0])
    } else {
        Err(PgError::NoDbSession)
    }
}

/// What resolving a textual token against registry contents `m` gives.
pub open spec fn resolve_token_spec<P>(m: Map<u128, P>, token: Seq<char>) -> Result<P, PgError> {
    match parse_session_id(token) {
        Some(id) => resolve_spec(m, id),
        None => Err(PgError::NoDbSession),
    }
}

/// `after` is `before` with `pool` registered under `id`, which `before` did not hold.
pub open spec fn admission<P>(
    before: Map<u128, P>,
    after: Map<u128, P>,
    id: SessionId,
    pool: P,
) -> bool {
    &&& !before.contains_key(id.0)
    &&& after == before.insert(id.0, pool)
}

/// Every identifier registered in `before` is still registered in `after`.
pub open spec fn keeps_sessions<P>(before: Map<u128, P>, after: Map<u128, P>) -> bool {
    before.dom().subset_of(after.dom())
}

impl<P> DbSessions<P> {
    /// An empty registry.
    pub fn new() -> (r: Self)
        ensures
            r@ == Map::<u128, P>::empty(),
    {
        DbSessions { sessions: HashMap::new() }
    }

    /// Registers `db_conn` under `session_id`, handing back the pool that
    /// was registered there before, if any.
    pub fn add(&mut self, session_id: SessionId, db_conn: P) -> (r: Option<P>)
        ensures
            final(self)@ == old(self)@.insert(session_id.0, db_conn),
            match r {
                Some(p) => old(self)@.contains_key(session_id.0) && p == old(self)@[session_id.0],
                None => !old(self)@.contains_key(session_id.0),
            },
    {
        self.sessions.insert(session_id.0, db_conn)
    }

    /// The pool registered under `session_id`, if any.
    pub fn get(&self, session_id: &SessionId) -> (r: Option<&P>)
        ensures
            match r {
                Some(p) => self@.contains_key(session_id.0) && *p == self@[session_id.0],
                None => !self@.contains_key(session_id.0),
            },
    {
        self.sessions.get(&session_id.0)
    }

    /// Whether a pool is registered under `session_id`.
    pub fn contains(&self, session_id: &SessionId) -> (r: bool)
        ensures
            r == self@.contains_key(session_id.0),
    {
        self.sessions.contains_key(&session_id.0)
    }

    /// The number of registered sessions.
    pub fn len(&self) -> (r: usize)
        ensures
            r == self@.len(),
    {
        self.sessions.len()
    }

    /// The pool registered under `session_id`, or `NoDbSession`.
    pub fn resolve(&self, session_id: &SessionId) -> (r: Result<&P, PgError>)
        ensures
            match r {
                Ok(p) => resolve_spec(self@, *session_id) == Ok::<P, PgError>(*p),
                Err(e) => resolve_spec(self@, *session_id) == Err::<P, PgError>(e),
            },
    {
        match self.sessions.get(&session_id.0) {
            Some(p) => Ok(p),
            None => Err(PgError::NoDbSession),
        }
    }

    /// The pool registered under the session identifier that `token` spells,
    /// or `NoDbSession`, also when `token` spells no identifier.
    pub fn resolve_token(&self, token: &str) -> (r: Result<&P, PgError>)
        ensures
            match r {
                Ok(p) => resolve_token_spec(self@, token@) == Ok::<P, PgError>(*p),
                Err(e) => resolve_token_spec(self@, token@) == Err::<P, PgError>(e),
            },
            !identifier_length(token@) ==> r matches Err(PgError::NoDbSession),
    {
        match SessionId::is_valid(token) {
            Ok(id) => self.resolve(&id),
            Err(_) => Err(PgError::NoDbSession),
        }
    }

    /// Registers a newly built pool under `candidate` when no session holds
    /// that identifier yet. Where the pool could not be built, or the
    /// identifier is taken, the registry is left as it was and the pool, if
    /// any, is handed back.
    pub fn register_pool(&mut self, outcome: Result<P, String>, candidate: SessionId) -> (r: Result<
        SessionId,
        (PgError, Option<P>),
    >)
        ensures
            match outcome {
                Err(msg) => {
                    &&& r == Err::<SessionId, (PgError, Option<P>)>((PgError::PoolError(msg), None))
                    &&& final(self)@ == old(self)@
                },
                Ok(pool) => if old(self)@.contains_key(candidate.0) {
                    &&& r == Err::<SessionId, (PgError, Option<P>)>(
                        (PgError::CouldNotWriteDbSession, Some(pool)),
                    )
                    &&& final(self)@ == old(self)@
                } else {
                    &&& r == Ok::<SessionId, (PgError, Option<P>)>(candidate)
                    &&& admission(old(self)@, final(self)@, candidate, pool)
                },
            },
    {
        match outcome {
            Err(msg) => Err((PgError::PoolError(msg), None)),
            Ok(pool) => {
                if self.sessions.contains_key(&candidate.0) {
                    Err((PgError::CouldNotWriteDbSession, Some(pool)))
                } else {
                    self.sessions.insert(candidate.0, pool);
                    Ok(candidate)
                }
            },
        }
    }
}

} // verus!
