use vstd::prelude::*;

verus! {

/// A fetched value and the instant (milliseconds) at which it was stored.
#[derive(Clone, Debug, PartialEq, Eq)]
pub struct QueryData<V> {
    pub data: V,
    pub updated_at: u64,
}

/// Lifecycle of one cached key.
#[derive(Clone, Debug, PartialEq, Eq)]
pub enum QueryState<V> {
    /// No data yet.
    Created,
    /// First fetch in flight, no data.
    Loading,
    /// Refresh in flight; the previous data is kept.
    Fetching(QueryData<V>),
    /// Fresh result.
    Loaded(QueryData<V>),
    /// Result present but flagged for a mandatory refetch.
    Invalid(QueryData<V>),
}

/// The data a state holds, if any.
pub open spec fn data_of<V>(s: QueryState<V>) -> Option<QueryData<V>> {
    match s {
        QueryState::Fetching(d) => Some(d),
        QueryState::Loaded(d) => Some(d),
        QueryState::Invalid(d) => Some(d),
        _ => None,
    }
}

/// When the data a state holds was stored.
pub open spec fn updated_at_of<V>(s: QueryState<V>) -> Option<u64> {
    match data_of(s) {
        Some(d) => Some(d.updated_at),
        None => None,
    }
}

/// States from which a fetch may start.
pub open spec fn is_idle<V>(s: QueryState<V>) -> bool {
    s is Created || s is Loaded || s is Invalid
}

/// The state once a fetch has started from `s`.
pub open spec fn started<V>(s: QueryState<V>) -> QueryState<V> {
    match s {
        QueryState::Created => QueryState::Loading,
        QueryState::Loaded(d) => QueryState::Fetching(d),
        QueryState::Invalid(d) => QueryState::Fetching(d),
        _ => s,
    }
}

/// The state once the fetch ends at `now`: `Some(v)` when it produced `v`, `None` when it
/// failed or was cancelled. A failed first load goes back to `Created`; a failed refresh
/// keeps the previous data.
pub open spec fn settled<V>(s: QueryState<V>, result: Option<V>, now: u64) -> QueryState<V> {
    match result {
        Some(v) => QueryState::Loaded(QueryData { data: v, updated_at: now }),
        None => match s {
            QueryState::Loading => QueryState::Created,
            QueryState::Fetching(d) => QueryState::Loaded(d),
            _ => s,
        },
    }
}

/// The state once persisted data `d` arrives: loaded data is never overwritten, and a fetch
/// in flight keeps running with `d` as its retained data.
pub open spec fn hydrated<V>(s: QueryState<V>, d: QueryData<V>) -> QueryState<V> {
    match s {
        QueryState::Loaded(_) => s,
        QueryState::Loading => QueryState::Fetching(d),
        QueryState::Fetching(_) => QueryState::Fetching(d),
        _ => QueryState::Loaded(d),
    }
}

/// A fetch that ends without a value never loses cached data: a first load returns to
/// `Created`, and a refresh returns to `Loaded` with the data it started from.
pub proof fn lemma_cancelled_fetch_keeps_data<V>(s: QueryState<V>, now: u64)
    requires
        s is Loading || s is Fetching,
    ensures
        data_of(settled(s, None, now)) == data_of(s),
        s is Loading ==> settled(s, None, now) == QueryState::<V>::Created,
        s is Fetching ==> settled(s, None, now) == QueryState::Loaded(s->Fetching_0),
{
}

impl<V> QueryState<V> {
    pub fn updated_at(&self) -> (r: Option<u64>)
        ensures
            r == updated_at_of(*self),
    {
        match self {
            QueryState::Fetching(d) => Some(d.updated_at),
            QueryState::Loaded(d) => Some(d.updated_at),
            QueryState::Invalid(d) => Some(d.updated_at),
            _ => None,
        }
    }

    /// The value this state holds, if any.
    pub fn data(&self) -> (r: Option<&V>)
        ensures
            r == (match data_of(*self) {
                Some(d) => Some(&d.data),
                None => None,
            }),
    {
        match self {
            QueryState::Fetching(d) => Some(&d.data),
            QueryState::Loaded(d) => Some(&d.data),
            QueryState::Invalid(d) => Some(&d.data),
            _ => None,
        }
    }
}

} // verus!
