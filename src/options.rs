use vstd::prelude::*;

verus! {

/// How the presentation binding suspends while a query loads.
#[derive(Clone, Copy, Debug, PartialEq, Eq, Structural)]
pub enum ResourceOption {
    NonBlocking,
    Blocking,
    Local,
}

/// Options that one observer attaches to a query. Durations are in milliseconds.
#[derive(Clone, Copy, Debug, PartialEq, Eq, Structural)]
pub struct QueryOptions {
    /// Age after which data counts as stale; `None` means never stale.
    pub stale_time: Option<u64>,
    /// How long an unobserved query is kept; `None` asks for no bound.
    pub gc_time: Option<u64>,
    /// Cadence of periodic re-execution while subscribed.
    pub refetch_interval: Option<u64>,
    pub resource_option: Option<ResourceOption>,
}

impl QueryOptions {
    pub fn new() -> (r: QueryOptions)
        ensures
            r.stale_time.is_none(),
            r.gc_time.is_none(),
            r.refetch_interval.is_none(),
            r.resource_option.is_none(),
    {
        QueryOptions { stale_time: None, gc_time: None, refetch_interval: None, resource_option: None }
    }
}

impl Default for QueryOptions {
    fn default() -> (r: QueryOptions)
        ensures
            r == QueryOptions::new_spec(),
    {
        QueryOptions::new()
    }
}

impl QueryOptions {
    /// Options that ask for nothing: never stale, no retention bound, no refetch.
    pub open spec fn new_spec() -> QueryOptions {
        QueryOptions { stale_time: None, gc_time: None, refetch_interval: None, resource_option: None }
    }
}

} // verus!
