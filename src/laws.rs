//! Properties of the registry that hold across calls.
use crate::error::PgError;
use crate::registry::{admission, keeps_sessions, resolve_spec, resolve_token_spec};
use crate::session_id::{parse_session_id, SessionId};
use vstd::prelude::*;

verus! {

/// Session identifiers handed out by successful admissions are pairwise
/// distinct over the life of a registry. `before[i]` and `after[i]` are the
/// registry just before and just after the `i`-th admission, which
/// registered `pools[i]` under `ids[i]`; whatever happens between two
/// admissions removes no session.
pub proof fn lemma_session_ids_distinct<P>(
    before: Seq<Map<u128, P>>,
    after: Seq<Map<u128, P>>,
    ids: Seq<SessionId>,
    pools: Seq<P>,
)
    requires
        before.len() == ids.len(),
        after.len() == ids.len(),
        pools.len() == ids.len(),
        forall|i: int| 0 <= i < ids.len() ==> admission(before[i], after[i], ids[i], pools[i]),
        forall|i: int| 0 <= i < ids.len() - 1 ==> keeps_sessions(after[i], before[i + 1]),
    ensures
        forall|i: int, j: int| 0 <= i < j < ids.len() ==> ids[i] != ids[j],
{
    assert forall|i: int, j: int| 0 <= i < j < ids.len() implies ids[i] != ids[j] by {
        lemma_admitted_id_stays(before, after, ids, pools, i, j);
    }
}

/// The identifier of the `i`-th admission is registered before every later one.
proof fn lemma_admitted_id_stays<P>(
    before: Seq<Map<u128, P>>,
    after: Seq<Map<u128, P>>,
    ids: Seq<SessionId>,
    pools: Seq<P>,
    i: int,
    j: int,
)
    requires
        before.len() == ids.len(),
        after.len() == ids.len(),
        pools.len() == ids.len(),
        forall|k: int| 0 <= k < ids.len() ==> admission(before[k], after[k], ids[k], pools[k]),
        forall|k: int| 0 <= k < ids.len() - 1 ==> keeps_sessions(after[k], before[k + 1]),
        0 <= i < j < ids.len(),
    ensures
        before[j].contains_key(ids[i].0),
    decreases j - i,
{
    assert(admission(before[j - 1], after[j - 1], ids[j - 1], pools[j - 1]));
    assert(keeps_sessions(after[j - 1], before[j]));
    if j - 1 > i {
        lemma_admitted_id_stays(before, after, ids, pools, i, j - 1);
    }
    assert(after[j - 1].contains_key(ids[i].0));
}

/// An admission is seen whole or not at all: before it the new identifier
/// resolves to `NoDbSession`, after it to the new pool, and every other
/// identifier resolves as it did.
pub proof fn lemma_admission_is_atomic<P>(
    before: Map<u128, P>,
    after: Map<u128, P>,
    id: SessionId,
    pool: P,
    other: SessionId,
)
    requires
        before.dom().finite(),
        admission(before, after, id, pool),
        other != id,
    ensures
        resolve_spec(before, id) == Err::<P, PgError>(PgError::NoDbSession),
        resolve_spec(after, id) == Ok::<P, PgError>(pool),
        resolve_spec(after, other) == resolve_spec(before, other),
        keeps_sessions(before, after),
        after.len() == before.len() + 1,
{
    assert(after.dom() == before.dom().insert(id.0));
}

/// A token that is not an identifier, or names an identifier that was never
/// registered, resolves to `NoDbSession` whatever else the registry holds.
pub proof fn lemma_unknown_token_has_no_session<P>(m: Map<u128, P>, token: Seq<char>)
    requires
        parse_session_id(token) matches Some(id) ==> !m.contains_key(id.0),
    ensures
        resolve_token_spec(m, token) == Err::<P, PgError>(PgError::NoDbSession),
{
}

} // verus!
