use vstd::prelude::*;

use crate::nanos::Nanos;

verus! {

/// The `Option<Nanos>` that a decision function is handed for a stored
/// marker: `None` for a key that never recorded a state, the marker itself
/// otherwise.
pub open spec fn to_nanos(v: Option<u64>) -> Option<Nanos> {
    match v {
        Some(x) => Some(Nanos(x)),
        None => None,
    }
}

/// Whether a stored marker is strictly older than `cutoff`. A cell that has
/// never recorded a state is not older than any cutoff.
pub open spec fn value_older_than(v: Option<u64>, cutoff: u64) -> bool {
    match v {
        Some(x) => x < cutoff,
        None => false,
    }
}

/// What one atomic read-transform-write step on a single cell promises:
/// the result `r` and the new stored marker `now` arise from one application
/// of the decision function `f` to the prior marker `prev`; on failure the
/// marker is exactly what it was.
pub open spec fn cell_step_post<T, E, F: Fn(Option<Nanos>) -> Result<(T, Nanos), E>>(
    f: F,
    prev: Option<u64>,
    now: Option<u64>,
    r: Result<T, E>,
) -> bool {
    match r {
        Ok(t) => now is Some
            && call_ensures(f, (to_nanos(prev),), Ok::<(T, Nanos), E>((t, Nanos(now.unwrap())))),
        Err(e) => call_ensures(f, (to_nanos(prev),), Err::<(T, Nanos), E>(e)) && now == prev,
    }
}

/// The marker a key currently maps to, as the decision function will see it:
/// `None` both for an absent key and for a key whose cell never recorded a
/// state.
pub open spec fn value_at(m: Map<u64, Option<u64>>, key: u64) -> Option<u64> {
    if m.contains_key(key) {
        m[key]
    } else {
        None
    }
}

/// What one `measure_and_replace` call promises over the store's contents:
/// the decision function is applied exactly once, to the key's authoritative
/// prior marker; on success the new marker is installed for the key and no
/// other key changes; on failure the key's marker is exactly what it was,
/// though a fresh (empty) cell may now exist for the key.
pub open spec fn measure_and_replace_post<T, E, F: Fn(Option<Nanos>) -> Result<(T, Nanos), E>>(
    f: F,
    m0: Map<u64, Option<u64>>,
    key: u64,
    m1: Map<u64, Option<u64>>,
    r: Result<T, E>,
) -> bool {
    let prev = value_at(m0, key);
    match r {
        Ok(t) => m1.contains_key(key) && m1[key] is Some && call_ensures(
            f,
            (to_nanos(prev),),
            Ok::<(T, Nanos), E>((t, Nanos(m1[key].unwrap()))),
        ) && m1 == m0.insert(key, m1[key]),
        Err(e) => call_ensures(f, (to_nanos(prev),), Err::<(T, Nanos), E>(e)) && m1 == m0.insert(
            key,
            prev,
        ),
    }
}

/// The facade between "any concurrent key→cell map" and the rate limiter: a
/// keyed store offering the atomic measure-and-replace protocol.
pub trait StateStore {
    /// The stored marker for each present key.
    spec fn contents(&self) -> Map<u64, Option<u64>>;

    /// Apply the caller's decision function to the current marker of `key`,
    /// creating the cell if the key was never seen, and install the new
    /// marker only on success.
    fn measure_and_replace<T, E, F: Fn(Option<Nanos>) -> Result<(T, Nanos), E>>(
        &mut self,
        key: u64,
        f: &F,
    ) -> (r: Result<T, E>)
        requires
            forall|p: Option<Nanos>| #[trigger] call_requires(f, (p,)),
        ensures
            measure_and_replace_post(f, old(self).contents(), key, final(self).contents(), r),
    ;
}

/// No side effect on failure: if the decision function reports an error, the
/// key's stored marker after the call is exactly what it was before — and no
/// other key is affected either.
pub proof fn lemma_no_side_effect_on_failure<
    T,
    E,
    F: Fn(Option<Nanos>) -> Result<(T, Nanos), E>,
>(f: F, m0: Map<u64, Option<u64>>, key: u64, m1: Map<u64, Option<u64>>, r: Result<T, E>)
    requires
        measure_and_replace_post(f, m0, key, m1, r),
        r is Err,
    ensures
        value_at(m1, key) == value_at(m0, key),
        forall|k: u64| k != key ==> #[trigger] value_at(m1, k) == value_at(m0, k),
{
}

/// Fresh-key default: a call on a never-seen key hands the decision function
/// `None`.
pub proof fn lemma_fresh_key_sees_none<T, E, F: Fn(Option<Nanos>) -> Result<(T, Nanos), E>>(
    f: F,
    m0: Map<u64, Option<u64>>,
    key: u64,
    m1: Map<u64, Option<u64>>,
    r: Result<T, E>,
)
    requires
        measure_and_replace_post(f, m0, key, m1, r),
        !m0.contains_key(key),
    ensures
        r matches Ok(t) ==> m1[key] is Some && call_ensures(
            f,
            (None::<Nanos>,),
            Ok::<(T, Nanos), E>((t, Nanos(m1[key].unwrap()))),
        ),
        r matches Err(e) ==> call_ensures(f, (None::<Nanos>,), Err::<(T, Nanos), E>(e)),
{
}

/// Atomicity of chained updates: when two calls for the same key run one
/// after the other, the second decision is shown exactly the marker the first
/// call installed — the first update is never lost — and the final marker is
/// the second decision's value.
pub proof fn lemma_updates_chain<
    T1,
    E1,
    F: Fn(Option<Nanos>) -> Result<(T1, Nanos), E1>,
    T2,
    E2,
    G: Fn(Option<Nanos>) -> Result<(T2, Nanos), E2>,
>(
    f: F,
    g: G,
    m0: Map<u64, Option<u64>>,
    key: u64,
    m1: Map<u64, Option<u64>>,
    m2: Map<u64, Option<u64>>,
    r1: Result<T1, E1>,
    r2: Result<T2, E2>,
)
    requires
        measure_and_replace_post(f, m0, key, m1, r1),
        r1 is Ok,
        measure_and_replace_post(g, m1, key, m2, r2),
    ensures
        m1[key] is Some,
        r2 matches Ok(t2) ==> m2[key] is Some && call_ensures(
            g,
            (Some(Nanos(m1[key].unwrap())),),
            Ok::<(T2, Nanos), E2>((t2, Nanos(m2[key].unwrap()))),
        ),
        r2 is Err ==> value_at(m2, key) == m1[key],
{
}

/// A successful call leaves its key in the store; the key count never shrinks
/// and grows by exactly one for a never-seen key.
pub proof fn lemma_key_count_after_call<T, E, F: Fn(Option<Nanos>) -> Result<(T, Nanos), E>>(
    f: F,
    m0: Map<u64, Option<u64>>,
    key: u64,
    m1: Map<u64, Option<u64>>,
    r: Result<T, E>,
)
    requires
        measure_and_replace_post(f, m0, key, m1, r),
        m0.dom().finite(),
    ensures
        m1.contains_key(key),
        m1.dom().finite(),
        m1.dom().len() >= m0.dom().len(),
        !m0.contains_key(key) ==> m1.dom().len() == m0.dom().len() + 1,
{
    assert(m1.dom() =~= m0.dom().insert(key));
    if m0.contains_key(key) {
        assert(m0.dom().insert(key) =~= m0.dom());
    }
}

/// The per-key cell: the last-known state marker for one key. `None` means
/// the key has a cell but never completed a successful update.
pub struct InMemoryState {
    value: Option<Nanos>,
}

impl View for InMemoryState {
    type V = Option<u64>;

    closed spec fn view(&self) -> Option<u64> {
        match self.value {
            Some(n) => Some(n.0),
            None => None,
        }
    }
}

impl Default for InMemoryState {
    /// A fresh cell: no state recorded yet.
    fn default() -> (r: Self)
        ensures
            r@ is None,
    {
        InMemoryState { value: None }
    }
}

impl InMemoryState {
    /// Apply the decision function to the cell's current value: on
    /// `Ok((t, next))` install `next` and return `Ok(t)`; on `Err` leave the
    /// cell exactly as it was.
    pub fn measure_and_replace_one<T, E, F: Fn(Option<Nanos>) -> Result<(T, Nanos), E>>(
        &mut self,
        f: &F,
    ) -> (r: Result<T, E>)
        requires
            call_requires(f, (to_nanos(old(self)@),)),
        ensures
            cell_step_post(f, old(self)@, final(self)@, r),
    {
        let prev = self.value;
        match f(prev) {
            Ok((t, next)) => {
                self.value = Some(next);
                Ok(t)
            },
            Err(e) => Err(e),
        }
    }

    /// Whether the recorded state is strictly older than `cutoff`; a cell
    /// that never recorded a state is not.
    pub fn is_older_than(&self, cutoff: Nanos) -> (r: bool)
        ensures
            r == value_older_than(self@, cutoff.0),
    {
        match self.value {
            Some(n) => n.0 < cutoff.0,
            None => false,
        }
    }

    /// The retention predicate: whether this cell survives a sweep with the
    /// given cutoff.
    pub fn outlasts(&self, drop_below: Nanos) -> (r: bool)
        ensures
            r == !value_older_than(self@, drop_below.0),
    {
        !self.is_older_than(drop_below)
    }
}

} // verus!
