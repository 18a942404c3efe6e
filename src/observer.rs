use vstd::prelude::*;

use crate::cache::QueryCache;
use crate::options::QueryOptions;

verus! {

/// Identity of one observer.
#[derive(Clone, Copy, Debug, PartialEq, Eq, Hash, Structural)]
pub struct ObserverKey(u32);

impl ObserverKey {
    pub closed spec fn value(&self) -> u32 {
        self.0
    }

    pub fn get(&self) -> (r: u32)
        ensures
            r == self.value(),
    {
        self.0
    }
}

/// Hands out the identity held in `counter` and advances it.
pub fn next_id(counter: &mut u32) -> (r: ObserverKey)
    requires
        *old(counter) < u32::MAX,
    ensures
        r.value() == *old(counter),
        *final(counter) == *old(counter) + 1,
{
    let current_id = *counter;
    *counter = current_id + 1;
    ObserverKey(current_id)
}

/// One subscriber's binding to a query, by key.
///
/// `refetch` is `Some(interval)` while a periodic refetch timer should run for this
/// observer; the runtime starts it and stops it once `refetch` is `None`.
#[derive(Clone, Copy, Debug, PartialEq, Eq, Structural)]
pub struct QueryObserver {
    id: ObserverKey,
    query: Option<u64>,
    fetcher: bool,
    refetch: Option<u64>,
    options: QueryOptions,
}

impl QueryObserver {
    pub closed spec fn id(&self) -> ObserverKey {
        self.id
    }

    /// The key of the query this observer is bound to.
    pub closed spec fn bound(&self) -> Option<u64> {
        self.query
    }

    /// Whether this observer supplies a fetch function.
    pub closed spec fn fetches(&self) -> bool {
        self.fetcher
    }

    pub closed spec fn refetch_timer(&self) -> Option<u64> {
        self.refetch
    }

    pub closed spec fn options(&self) -> QueryOptions {
        self.options
    }

    pub fn get_id(&self) -> (r: ObserverKey)
        ensures
            r == self.id(),
    {
        self.id
    }

    pub fn get_options(&self) -> (r: &QueryOptions)
        ensures
            *r == self.options(),
    {
        &self.options
    }

    /// Whether this observer supplies a fetch function.
    pub fn get_fetcher(&self) -> (r: bool)
        ensures
            r == self.fetches(),
    {
        self.fetcher
    }

    /// The key of the query this observer is bound to.
    pub fn get_query(&self) -> (r: Option<u64>)
        ensures
            r == self.bound(),
    {
        self.query
    }

    /// The interval of the refetch timer that should be running, if any.
    pub fn get_refetch(&self) -> (r: Option<u64>)
        ensures
            r == self.refetch_timer(),
    {
        self.refetch
    }
}

/// `mid` is `before` once observer `o` left the query it is bound to, if any.
pub open spec fn left_binding<V>(
    before: QueryCache<V>,
    o: QueryObserver,
    now: u64,
    mid: QueryCache<V>,
    left: bool,
) -> bool {
    match o.bound() {
        Some(c) => before.unsubscribed_at(c, o, now, &mid, left),
        None => mid == before && !left,
    }
}

/// `after` is `mid` once observer `o` joined the query it is bound to, if any, and executed
/// it if needed at `now`.
pub open spec fn joined_binding<V>(
    mid: QueryCache<V>,
    o: QueryObserver,
    now: u64,
    after: QueryCache<V>,
) -> bool {
    match o.bound() {
        Some(k) => exists|after_sub: QueryCache<V>, added: bool, started: bool|
            #![trigger mid.subscribed_at(k, o, &after_sub, added), after_sub.ensured_at(k, now, &after, started)]
            mid.subscribed_at(k, o, &after_sub, added) && after_sub.ensured_at(
                k,
                now,
                &after,
                started,
            ),
        None => after == mid,
    }
}

impl QueryObserver {
    /// An observer that fetches, with the next identity of `counter`, subscribed to the
    /// query for `key`, which it executes at once when that query has no data, is invalid
    /// or is stale at `now`. It asks for a refetch timer when its options set an interval.
    pub fn with_fetcher<V>(
        counter: &mut u32,
        options: QueryOptions,
        key: u64,
        cache: &mut QueryCache<V>,
        now: u64,
    ) -> (r: QueryObserver)
        requires
            *old(counter) < u32::MAX,
            old(cache).wf(),
        ensures
            r.id().value() == *old(counter),
            *final(counter) == *old(counter) + 1,
            r.bound() == Some(key),
            r.fetches(),
            r.options() == options,
            r.refetch_timer() == options.refetch_interval,
            final(cache).wf(),
            exists|mid: QueryCache<V>, added: bool|
                old(cache).subscribed_at(key, r, &mid, added) && exists|started: bool|
                    mid.ensured_at(key, now, final(cache), started),
    {
        let id = next_id(counter);
        let observer = QueryObserver {
            id,
            query: Some(key),
            fetcher: true,
            refetch: options.refetch_interval,
            options,
        };
        let added = cache.subscribe(key, &observer);
        let ghost mid = *cache;
        let started = cache.ensure_execute(key, now);
        assert(mid.ensured_at(key, now, &*cache, started));
        assert(old(cache).subscribed_at(key, observer, &mid, added));
        observer
    }

    /// A passive observer, with the next identity of `counter`: it supplies no fetch
    /// function and keeps the query for `key`, if any, observed.
    pub fn no_fetcher<V>(
        counter: &mut u32,
        options: QueryOptions,
        key: Option<u64>,
        cache: &mut QueryCache<V>,
    ) -> (r: QueryObserver)
        requires
            *old(counter) < u32::MAX,
            old(cache).wf(),
        ensures
            r.id().value() == *old(counter),
            *final(counter) == *old(counter) + 1,
            r.bound() == key,
            !r.fetches(),
            r.options() == options,
            r.refetch_timer().is_none(),
            final(cache).wf(),
            match key {
                Some(k) => exists|added: bool| old(cache).subscribed_at(k, r, final(cache), added),
                None => *final(cache) == *old(cache),
            },
    {
        let id = next_id(counter);
        let observer = QueryObserver { id, query: key, fetcher: false, refetch: None, options };
        match key {
            Some(k) => {
                let added = cache.subscribe(k, &observer);
                assert(old(cache).subscribed_at(k, observer, &*cache, added));
            },
            None => {},
        }
        observer
    }

    /// Rebinds this observer to `new_key`: nothing happens when it is already bound to that
    /// key; otherwise it leaves its current query, then subscribes to the new one and
    /// executes it if needed at `now`.
    pub fn update_query<V>(&mut self, cache: &mut QueryCache<V>, new_key: Option<u64>, now: u64)
        requires
            old(cache).wf(),
        ensures
            final(cache).wf(),
            final(self).id() == old(self).id(),
            final(self).fetches() == old(self).fetches(),
            final(self).options() == old(self).options(),
            final(self).refetch_timer() == old(self).refetch_timer(),
            final(self).bound() == new_key,
            (old(self).bound().is_some() && old(self).bound() == new_key) ==> *final(cache) == *old(
                cache),
            !(old(self).bound().is_some() && old(self).bound() == new_key) ==> exists|
                mid: QueryCache<V>,
                left: bool,
            |
                #[trigger] left_binding(*old(cache), *old(self), now, mid, left) && joined_binding(
                    mid,
                    *final(self),
                    now,
                    *final(cache),
                ),
    {
        let same = match (self.query, new_key) {
            (Some(current), Some(next)) => current == next,
            _ => false,
        };
        if same {
            return;
        }
        let ghost mut left = false;
        match self.query {
            Some(current) => {
                let removed = cache.unsubscribe(current, self, now);
                proof {
                    left = removed;
                }
            },
            None => {},
        }
        let ghost mid = *cache;
        self.query = new_key;
        match new_key {
            Some(k) => {
                let added = cache.subscribe(k, self);
                let ghost after_sub = *cache;
                let started = cache.ensure_execute(k, now);
                assert(mid.subscribed_at(k, *self, &after_sub, added));
                assert(after_sub.ensured_at(k, now, &*cache, started));
            },
            None => {},
        }
        assert(left_binding(*old(cache), *old(self), now, mid, left));
    }

    /// Detaches this observer: it leaves its query and stops asking for a refetch timer.
    pub fn cleanup<V>(&mut self, cache: &mut QueryCache<V>, now: u64)
        requires
            old(cache).wf(),
        ensures
            final(cache).wf(),
            final(self).id() == old(self).id(),
            final(self).fetches() == old(self).fetches(),
            final(self).options() == old(self).options(),
            final(self).bound().is_none(),
            final(self).refetch_timer().is_none(),
            match old(self).bound() {
                Some(c) => exists|left: bool|
                    old(cache).unsubscribed_at(c, *old(self), now, final(cache), left),
                None => *final(cache) == *old(cache),
            },
    {
        match self.query {
            Some(current) => {
                let left = cache.unsubscribe(current, self, now);
                assert(old(cache).unsubscribed_at(current, *old(self), now, &*cache, left));
            },
            None => {},
        }
        self.query = None;
        self.refetch = None;
    }
}

} // verus!
