use vstd::prelude::*;

use crate::gc::GcTime;
use crate::observer::QueryObserver;
use crate::options::QueryOptions;
use crate::query::{Launch, Query};
use crate::state::{hydrated, QueryData, QueryState};

verus! {

/// What the registry announces to its event consumers.
#[derive(Clone, Copy, Debug, PartialEq, Eq, Structural)]
pub enum CacheEvent {
    Created(u64),
    Updated(u64),
    ObserverAdded(u64, QueryOptions),
    ObserverRemoved(u64),
    Removed(u64),
}

pub open spec fn removed_event<V>(q: Query<V>) -> CacheEvent {
    CacheEvent::Removed(q.key())
}

pub open spec fn created_event<V>(q: Query<V>) -> CacheEvent {
    CacheEvent::Created(q.key())
}

/// The registry of queries of one value type, keyed by `u64`, with its entry counter and
/// the events it has yet to deliver.
pub struct QueryCache<V> {
    queries: Vec<Query<V>>,
    size: usize,
    events: Vec<CacheEvent>,
}

impl<V> QueryCache<V> {
    pub closed spec fn queries(&self) -> Seq<Query<V>> {
        self.queries@
    }

    pub closed spec fn counter(&self) -> usize {
        self.size
    }

    /// Events not yet taken, oldest first.
    pub closed spec fn events(&self) -> Seq<CacheEvent> {
        self.events@
    }

    pub open spec fn has_key(&self, key: u64) -> bool {
        exists|i: int| 0 <= i < self.queries().len() && self.queries()[i].key() == key
    }

    /// One query per key, each well formed, and the counter equal to the number of entries.
    pub open spec fn wf(&self) -> bool {
        &&& self.counter() == self.queries().len()
        &&& forall|i: int, j: int|
            0 <= i < j < self.queries().len() ==> self.queries()[i].key()
                != self.queries()[j].key()
        &&& forall|i: int| 0 <= i < self.queries().len() ==> self.queries()[i].wf()
    }

    /// `after` differs from this registry at most in entry `i`, which holds `key` in both.
    pub open spec fn changed_at(&self, after: &Self, i: int, key: u64) -> bool {
        &&& 0 <= i < self.queries().len()
        &&& after.queries().len() == self.queries().len()
        &&& self.queries()[i].key() == key
        &&& after.queries()[i].key() == key
        &&& forall|j: int|
            0 <= j < self.queries().len() && j != i ==> after.queries()[j] == self.queries()[j]
        &&& after.counter() == self.counter()
    }

    /// `after` is this registry once `o` subscribed to the query for `key`.
    pub open spec fn subscribed_at(&self, key: u64, o: QueryObserver, after: &Self, r: bool) -> bool {
        &&& after.wf()
        &&& !self.has_key(key) ==> !r && after.queries() == self.queries()
        &&& self.has_key(key) ==> exists|i: int|
            self.changed_at(after, i, key) && self.queries()[i].subscribed(o, &after.queries()[i], r)
        &&& after.events() == self.events() + event_if(
            r,
            CacheEvent::ObserverAdded(key, o.options()),
        )
    }

    /// `after` is this registry once `o` unsubscribed from the query for `key` at `now`.
    pub open spec fn unsubscribed_at(
        &self,
        key: u64,
        o: QueryObserver,
        now: u64,
        after: &Self,
        r: bool,
    ) -> bool {
        &&& after.wf()
        &&& !self.has_key(key) ==> !r && after.queries() == self.queries()
        &&& self.has_key(key) ==> exists|i: int|
            self.changed_at(after, i, key) && self.queries()[i].unsubscribed(
                o,
                now,
                &after.queries()[i],
                r,
            )
        &&& after.events() == self.events() + event_if(r, CacheEvent::ObserverRemoved(key))
    }

    /// `after` is this registry once the query for `key` was executed; `r` tells whether a
    /// fetch started.
    pub open spec fn executed_at(&self, key: u64, after: &Self, r: bool) -> bool {
        &&& after.wf()
        &&& !self.has_key(key) ==> !r && after.queries() == self.queries()
        &&& self.has_key(key) ==> exists|i: int|
            self.changed_at(after, i, key) && self.queries()[i].executed_from(
                self.queries()[i].state(),
                &after.queries()[i],
            ) && r == self.queries()[i].can_start_from(self.queries()[i].state())
        &&& after.events() == self.events()
    }

    /// `after` is this registry once the query for `key` was executed if it needed to be
    /// at `now`; `r` tells whether a fetch started.
    pub open spec fn ensured_at(&self, key: u64, now: u64, after: &Self, r: bool) -> bool {
        &&& after.wf()
        &&& !self.has_key(key) ==> !r && after.queries() == self.queries()
        &&& self.has_key(key) ==> exists|i: int|
            self.changed_at(after, i, key) && ({
                let q = self.queries()[i];
                &&& q.needs_execute_at(now) ==> q.executed_from(q.state(), &after.queries()[i])
                &&& !q.needs_execute_at(now) ==> q.unchanged(&after.queries()[i])
                &&& r == (q.needs_execute_at(now) && q.can_start_from(q.state()))
            })
        &&& after.events() == self.events()
    }

    /// `after` is this registry once the query for `key` was looked up, and made and
    /// announced if absent; `r` tells whether it was made. A new query comes last, in state
    /// `Created`, unobserved, with no policy, timer or fetch.
    pub open spec fn created_at(&self, key: u64, after: &Self, r: bool) -> bool {
        &&& after.wf()
        &&& after.has_key(key)
        &&& r == !self.has_key(key)
        &&& !r ==> after.queries() == self.queries() && after.events() == self.events()
        &&& r ==> after.queries().drop_last() == self.queries() && after.events()
            == self.events().push(CacheEvent::Created(key))
        &&& r ==> ({
            let q = after.queries().last();
            &&& q.key() == key
            &&& q.state() == QueryState::<V>::Created
            &&& q.observers().len() == 0
            &&& q.gc().policy() == GcTime::Unset
            &&& q.gc().pending().is_none()
            &&& !q.in_flight()
            &&& q.launched().is_none()
        })
    }

    /// `after` is this registry once the query for `key`, if present, was removed and its
    /// removal announced; `r` tells whether it was present.
    pub open spec fn evicted_at(&self, key: u64, after: &Self, r: bool) -> bool {
        &&& after.wf()
        &&& !after.has_key(key)
        &&& r == self.has_key(key)
        &&& r ==> exists|i: int|
            0 <= i < self.queries().len() && self.queries()[i].key() == key
                && after.queries() == self.queries().remove(i)
        &&& r ==> after.events() == self.events().push(CacheEvent::Removed(key))
        &&& !r ==> after.queries() == self.queries() && after.events() == self.events()
    }

    /// `after` is this registry emptied, with one removal announced per entry, in order.
    pub open spec fn cleared(&self, after: &Self) -> bool {
        &&& after.wf()
        &&& after.queries().len() == 0
        &&& after.events() == self.events() + self.queries().map_values(
            |q: Query<V>| removed_event(q),
        )
    }

    pub open spec fn stale_at_key(&self, key: u64, now: u64) -> bool {
        exists|i: int|
            0 <= i < self.queries().len() && self.queries()[i].key() == key
                && self.queries()[i].stale_at(now)
    }

    pub fn new() -> (r: QueryCache<V>)
        ensures
            r.wf(),
            r.queries().len() == 0,
            r.events().len() == 0,
    {
        QueryCache { queries: Vec::new(), size: 0, events: Vec::new() }
    }

    fn find(&self, key: u64) -> (r: Option<usize>)
        ensures
            match r {
                Some(i) => i < self.queries().len() && self.queries()[i as int].key() == key,
                None => !self.has_key(key),
            },
    {
        let mut i: usize = 0;
        while i < self.queries.len()
            invariant
                i <= self.queries@.len(),
                forall|j: int| 0 <= j < i ==> self.queries@[j].key() != key,
            decreases self.queries@.len() - i,
        {
            if self.queries[i].get_key() == key {
                return Some(i);
            }
            i = i + 1;
        }
        None
    }

    /// Number of entries, read from the maintained counter.
    pub fn size(&self) -> (r: usize)
        requires
            self.wf(),
        ensures
            r == self.queries().len(),
    {
        self.size
    }

    pub fn get_query(&self, key: u64) -> (r: Option<&Query<V>>)
        ensures
            match r {
                Some(q) => exists|i: int|
                    0 <= i < self.queries().len() && self.queries()[i] == *q && q.key() == key,
                None => !self.has_key(key),
            },
    {
        match self.find(key) {
            Some(i) => Some(&self.queries[i]),
            None => None,
        }
    }

    /// Hands out the events collected so far and forgets them.
    pub fn take_events(&mut self) -> (r: Vec<CacheEvent>)
        ensures
            r@ == old(self).events(),
            final(self).events().len() == 0,
            final(self).queries() == old(self).queries(),
            final(self).counter() == old(self).counter(),
    {
        let mut taken: Vec<CacheEvent> = Vec::new();
        std::mem::swap(&mut self.events, &mut taken);
        taken
    }

    /// The query for `key`, made (in state `Created`, unobserved) and announced if absent.
    /// True when it was made.
    pub fn get_or_create_query(&mut self, key: u64) -> (r: bool)
        requires
            old(self).wf(),
            old(self).queries().len() < usize::MAX,
        ensures
            old(self).created_at(key, final(self), r),
    {
        match self.find(key) {
            Some(_) => false,
            None => {
                let query = Query::new(key);
                self.queries.push(query);
                self.events.push(CacheEvent::Created(key));
                self.size = self.size + 1;
                assert(self.queries@.drop_last() =~= old(self).queries@);
                assert(self.queries@[self.queries@.len() - 1].key() == key);
                true
            },
        }
    }

    /// Removes and disposes the query for `key` and announces it. False, and nothing
    /// changes, when `key` is absent.
    pub fn evict_query(&mut self, key: u64) -> (r: bool)
        requires
            old(self).wf(),
        ensures
            old(self).evicted_at(key, final(self), r),
    {
        match self.find(key) {
            Some(i) => {
                let query = self.queries.remove(i);
                let _ = query.dispose();
                self.events.push(CacheEvent::Removed(key));
                if self.size > 0 {
                    self.size = self.size - 1;
                }
                assert forall|a: int, b: int|
                    0 <= a < b < self.queries@.len() implies self.queries@[a].key()
                    != self.queries@[b].key() by {
                    let a0 = if a < i { a } else { a + 1 };
                    let b0 = if b < i { b } else { b + 1 };
                    assert(self.queries@[a] == old(self).queries@[a0]);
                    assert(self.queries@[b] == old(self).queries@[b0]);
                }
                assert forall|j: int| 0 <= j < self.queries@.len() implies self.queries@[j].wf()
                    && self.queries@[j].key() != key by {
                    let j0 = if j < i { j } else { j + 1 };
                    assert(self.queries@[j] == old(self).queries@[j0]);
                }
                true
            },
            None => false,
        }
    }

    /// Disposes every query, announcing each removal, and resets the counter.
    pub fn clear_all_queries(&mut self)
        requires
            old(self).wf(),
        ensures
            old(self).cleared(final(self)),
    {
        let mut i: usize = 0;
        while i < self.queries.len()
            invariant
                i <= self.queries@.len(),
                self.queries@ == old(self).queries@,
                self.events@ == old(self).events@ + old(self).queries@.subrange(
                    0,
                    i as int,
                ).map_values(|q: Query<V>| removed_event(q)),
            decreases self.queries@.len() - i,
        {
            let key = self.queries[i].get_key();
            let _ = self.queries[i].dispose();
            self.events.push(CacheEvent::Removed(key));
            assert(old(self).queries@.subrange(0, i + 1) =~= old(self).queries@.subrange(
                0,
                i as int,
            ).push(old(self).queries@[i as int]));
            i = i + 1;
        }
        assert(old(self).queries@.subrange(0, i as int) =~= old(self).queries@);
        self.queries.clear();
        self.size = 0;
    }

    /// A `Created` event for every entry, for a consumer that registers late.
    pub fn replay_events(&self) -> (r: Vec<CacheEvent>)
        ensures
            r@ == self.queries().map_values(|q: Query<V>| created_event(q)),
    {
        let mut out: Vec<CacheEvent> = Vec::new();
        let mut i: usize = 0;
        while i < self.queries.len()
            invariant
                i <= self.queries@.len(),
                out@ == self.queries@.subrange(0, i as int).map_values(
                    |q: Query<V>| created_event(q),
                ),
            decreases self.queries@.len() - i,
        {
            out.push(CacheEvent::Created(self.queries[i].get_key()));
            assert(self.queries@.subrange(0, i + 1) =~= self.queries@.subrange(0, i as int).push(
                self.queries@[i as int],
            ));
            i = i + 1;
        }
        assert(self.queries@.subrange(0, i as int) =~= self.queries@);
        out
    }
}

/// Changing one entry in place, without touching its key or its well-formedness, keeps the
/// registry well formed.
proof fn lemma_changed_keeps_wf<V>(before: QueryCache<V>, after: QueryCache<V>, i: int, key: u64)
    requires
        before.wf(),
        before.changed_at(&after, i, key),
        after.queries()[i].wf(),
    ensures
        after.wf(),
{
    assert forall|a: int, b: int|
        0 <= a < b < after.queries().len() implies after.queries()[a].key()
        != after.queries()[b].key() by {
        assert(after.queries()[a].key() == before.queries()[a].key());
        assert(after.queries()[b].key() == before.queries()[b].key());
    }
}

pub open spec fn event_if(cond: bool, e: CacheEvent) -> Seq<CacheEvent> {
    if cond {
        seq![e]
    } else {
        seq![]
    }
}

impl<V> QueryCache<V> {
    /// Subscribes `observer` to the query for `key` and announces a new observer. False
    /// when `key` is absent or `observer` was subscribed already.
    pub fn subscribe(&mut self, key: u64, observer: &QueryObserver) -> (r: bool)
        requires
            old(self).wf(),
        ensures
            old(self).subscribed_at(key, *observer, final(self), r),
    {
        match self.find(key) {
            Some(i) => {
                let added = self.queries[i].subscribe(observer);
                if added {
                    self.events.push(CacheEvent::ObserverAdded(key, *observer.get_options()));
                }
                proof {
                    lemma_changed_keeps_wf(*old(self), *self, i as int, key);
                }
                assert(old(self).changed_at(&*self, i as int, key));
                assert(old(self).queries()[i as int].subscribed(
                    *observer,
                    &self.queries()[i as int],
                    added,
                ));
                assert(self.events@ =~= old(self).events@ + event_if(
                    added,
                    CacheEvent::ObserverAdded(key, observer.options()),
                ));
                added
            },
            None => {
                assert(self.events@ =~= old(self).events@ + event_if(
                    false,
                    CacheEvent::ObserverAdded(key, observer.options()),
                ));
                false
            },
        }
    }

    /// Unsubscribes `observer` from the query for `key` and announces it. False when `key`
    /// is absent or `observer` was not subscribed.
    pub fn unsubscribe(&mut self, key: u64, observer: &QueryObserver, now: u64) -> (r: bool)
        requires
            old(self).wf(),
        ensures
            old(self).unsubscribed_at(key, *observer, now, final(self), r),
    {
        match self.find(key) {
            Some(i) => {
                let removed = self.queries[i].unsubscribe(observer, now);
                if removed {
                    self.events.push(CacheEvent::ObserverRemoved(key));
                }
                proof {
                    lemma_changed_keeps_wf(*old(self), *self, i as int, key);
                }
                assert(old(self).changed_at(&*self, i as int, key));
                assert(old(self).queries()[i as int].unsubscribed(
                    *observer,
                    now,
                    &self.queries()[i as int],
                    removed,
                ));
                assert(self.events@ =~= old(self).events@ + event_if(
                    removed,
                    CacheEvent::ObserverRemoved(key),
                ));
                removed
            },
            None => {
                assert(self.events@ =~= old(self).events@ + event_if(
                    false,
                    CacheEvent::ObserverRemoved(key),
                ));
                false
            },
        }
    }

    /// Executes the query for `key`. True when a fetch was launched.
    pub fn execute(&mut self, key: u64) -> (r: bool)
        requires
            old(self).wf(),
        ensures
            old(self).executed_at(key, final(self), r),
    {
        match self.find(key) {
            Some(i) => {
                let was_in_flight = self.queries[i].is_in_flight();
                self.queries[i].execute();
                let started = !was_in_flight && self.queries[i].is_in_flight();
                proof {
                    lemma_changed_keeps_wf(*old(self), *self, i as int, key);
                }
                assert(old(self).changed_at(&*self, i as int, key));
                started
            },
            None => false,
        }
    }

    /// Executes the query for `key` if it has no data, is invalid or is stale at `now`.
    /// True when a fetch was launched.
    pub fn ensure_execute(&mut self, key: u64, now: u64) -> (r: bool)
        requires
            old(self).wf(),
        ensures
            old(self).ensured_at(key, now, final(self), r),
    {
        match self.find(key) {
            Some(i) => {
                let was_in_flight = self.queries[i].is_in_flight();
                self.queries[i].ensure_execute(now);
                let started = !was_in_flight && self.queries[i].is_in_flight();
                proof {
                    lemma_changed_keeps_wf(*old(self), *self, i as int, key);
                }
                assert(old(self).changed_at(&*self, i as int, key));
                started
            },
            None => false,
        }
    }

    /// Marks the query for `key` invalid, which executes it at once. True, and an update
    /// is announced, when it held loaded data.
    pub fn mark_invalid(&mut self, key: u64) -> (r: bool)
        requires
            old(self).wf(),
        ensures
            final(self).wf(),
            !old(self).has_key(key) ==> !r && final(self).queries() == old(self).queries(),
            old(self).has_key(key) ==> exists|i: int|
                old(self).changed_at(final(self), i, key) && old(self).queries()[i].invalidated(
                    &final(self).queries()[i],
                ) && r == old(self).queries()[i].state() is Loaded,
            final(self).events() == old(self).events() + event_if(r, CacheEvent::Updated(key)),
    {
        match self.find(key) {
            Some(i) => {
                let marked = self.queries[i].mark_invalid();
                if marked {
                    self.events.push(CacheEvent::Updated(key));
                }
                proof {
                    lemma_changed_keeps_wf(*old(self), *self, i as int, key);
                }
                assert(old(self).changed_at(&*self, i as int, key));
                assert(self.events@ =~= old(self).events@ + event_if(
                    marked,
                    CacheEvent::Updated(key),
                ));
                marked
            },
            None => {
                assert(self.events@ =~= old(self).events@ + event_if(
                    false,
                    CacheEvent::Updated(key),
                ));
                false
            },
        }
    }

    /// Applies the outcome of the fetch for `key` (see `Query::finish_execution`) and
    /// announces the update. False when `key` is absent.
    pub fn finish_execution(&mut self, key: u64, result: Option<V>, now: u64) -> (r: bool)
        requires
            old(self).wf(),
        ensures
            final(self).wf(),
            r == old(self).has_key(key),
            !r ==> final(self).queries() == old(self).queries(),
            r ==> exists|i: int|
                old(self).changed_at(final(self), i, key) && old(self).queries()[i].finished(
                    result,
                    now,
                    &final(self).queries()[i],
                ),
            final(self).events() == old(self).events() + event_if(r, CacheEvent::Updated(key)),
    {
        match self.find(key) {
            Some(i) => {
                self.queries[i].finish_execution(result, now);
                self.events.push(CacheEvent::Updated(key));
                proof {
                    lemma_changed_keeps_wf(*old(self), *self, i as int, key);
                }
                assert(old(self).changed_at(&*self, i as int, key));
                assert(self.events@ =~= old(self).events@ + event_if(
                    true,
                    CacheEvent::Updated(key),
                ));
                true
            },
            None => {
                assert(self.events@ =~= old(self).events@ + event_if(
                    false,
                    CacheEvent::Updated(key),
                ));
                false
            },
        }
    }

    /// Cancels the fetch in flight for `key`. False when `key` is absent, nothing was in
    /// flight, or the fetch had already gone.
    pub fn cancel(&mut self, key: u64) -> (r: bool)
        requires
            old(self).wf(),
        ensures
            final(self).wf(),
            final(self).events() == old(self).events(),
            !old(self).has_key(key) ==> !r && final(self).queries() == old(self).queries(),
            old(self).has_key(key) ==> exists|i: int|
                old(self).changed_at(final(self), i, key) && old(self).queries()[i].cancelled(
                    &final(self).queries()[i],
                    r,
                ),
    {
        match self.find(key) {
            Some(i) => {
                let sent = self.queries[i].cancel();
                proof {
                    lemma_changed_keeps_wf(*old(self), *self, i as int, key);
                }
                assert(old(self).changed_at(&*self, i as int, key));
                sent
            },
            None => false,
        }
    }

    /// Stores persisted data for `key` (see `Query::hydrate`), announcing the update
    /// unless the query had loaded already. False when `key` is absent.
    pub fn hydrate(&mut self, key: u64, data: QueryData<V>) -> (r: bool)
        requires
            old(self).wf(),
        ensures
            final(self).wf(),
            r == old(self).has_key(key),
            !r ==> final(self).queries() == old(self).queries() && final(self).events() == old(self).events(),
            r ==> exists|i: int|
                old(self).changed_at(final(self), i, key) && old(self).queries()[i].set_state_to(
                    hydrated(old(self).queries()[i].state(), data),
                    &final(self).queries()[i],
                ) && final(self).events() == old(self).events() + event_if(
                    !(old(self).queries()[i].state() is Loaded),
                    CacheEvent::Updated(key),
                ),
    {
        match self.find(key) {
            Some(i) => {
                let loaded = matches!(self.queries[i].get_state(), QueryState::Loaded(_));
                self.queries[i].hydrate(data);
                if !loaded {
                    self.events.push(CacheEvent::Updated(key));
                }
                proof {
                    lemma_changed_keeps_wf(*old(self), *self, i as int, key);
                }
                assert(old(self).changed_at(&*self, i as int, key));
                assert(self.events@ =~= old(self).events@ + event_if(
                    !loaded,
                    CacheEvent::Updated(key),
                ));
                true
            },
            None => false,
        }
    }

    /// Hands the runtime the fetch launched for `key`, if any, which then begins (see
    /// `Query::take_launch`); the state change is announced.
    pub fn take_launch(&mut self, key: u64) -> (r: Option<Launch>)
        requires
            old(self).wf(),
        ensures
            final(self).wf(),
            final(self).events() == old(self).events() + event_if(
                r.is_some(),
                CacheEvent::Updated(key),
            ),
            !old(self).has_key(key) ==> r.is_none() && final(self).queries() == old(self).queries(),
            old(self).has_key(key) ==> exists|i: int|
                old(self).changed_at(final(self), i, key) && old(self).queries()[i].launch_taken(
                    &final(self).queries()[i],
                    match r {
                        Some(l) => Some(l.observer),
                        None => None,
                    },
                ),
    {
        match self.find(key) {
            Some(i) => {
                let launch = self.queries[i].take_launch();
                if launch.is_some() {
                    self.events.push(CacheEvent::Updated(key));
                }
                proof {
                    lemma_changed_keeps_wf(*old(self), *self, i as int, key);
                }
                assert(old(self).changed_at(&*self, i as int, key));
                assert(self.events@ =~= old(self).events@ + event_if(
                    launch.is_some(),
                    CacheEvent::Updated(key),
                ));
                launch
            },
            None => {
                assert(self.events@ =~= old(self).events@ + event_if(
                    false,
                    CacheEvent::Updated(key),
                ));
                None
            },
        }
    }


    /// Marks every query invalid: each one holding loaded data executes at once and is
    /// announced as updated; the others are left as they are.
    pub fn invalidate_all_queries(&mut self)
        requires
            old(self).wf(),
        ensures
            final(self).wf(),
            final(self).queries().len() == old(self).queries().len(),
            forall|i: int|
                0 <= i < old(self).queries().len() ==> old(self).queries()[i].invalidated(
                    &final(self).queries()[i],
                ),
            final(self).events() == old(self).events() + invalidation_events(old(self).queries()),
    {
        let mut i: usize = 0;
        while i < self.queries.len()
            invariant
                self.wf(),
                i <= self.queries@.len(),
                self.queries@.len() == old(self).queries@.len(),
                self.size == old(self).size,
                forall|j: int| 0 <= j < i ==> old(self).queries@[j].invalidated(&self.queries@[j]),
                forall|j: int| i <= j < self.queries@.len() ==> self.queries@[j] == old(self).queries@[j],
                self.events@ == old(self).events@ + invalidation_events(
                    old(self).queries@.subrange(0, i as int),
                ),
            decreases self.queries@.len() - i,
        {
            let ghost before = *self;
            let key = self.queries[i].get_key();
            let marked = self.queries[i].mark_invalid();
            if marked {
                self.events.push(CacheEvent::Updated(key));
            }
            proof {
                lemma_changed_keeps_wf(before, *self, i as int, key);
                let pre = old(self).queries@.subrange(0, i + 1);
                assert(pre.drop_last() =~= old(self).queries@.subrange(0, i as int));
                assert(pre.last() == old(self).queries@[i as int]);
                assert(self.events@ =~= old(self).events@ + invalidation_events(pre));
            }
            i = i + 1;
        }
        assert(old(self).queries@.subrange(0, i as int) =~= old(self).queries@);
    }

    /// Whether the query for `key` is stale at `now`; false when `key` is absent.
    pub fn is_stale(&self, key: u64, now: u64) -> (r: bool)
        requires
            self.wf(),
        ensures
            r == self.stale_at_key(key, now),
    {
        match self.find(key) {
            Some(i) => self.queries[i].is_stale(now),
            None => false,
        }
    }

    /// Lets `func` decide the entry for `key` from the current one, if any: `Some(q)`
    /// stores `q` there (announced when the key was absent), `None` leaves the registry as
    /// it is.
    pub fn use_cache_entry<F: FnOnce(Option<&Query<V>>) -> Option<Query<V>>>(
        &mut self,
        key: u64,
        func: F,
    )
        requires
            old(self).wf(),
            old(self).queries().len() < usize::MAX,
            forall|cur: Option<&Query<V>>| #[trigger] func.requires((cur,)),
            forall|cur: Option<&Query<V>>, res: Option<Query<V>>|
                #[trigger] func.ensures((cur,), res) ==> match res {
                    Some(q) => q.key() == key && q.wf(),
                    None => true,
                },
        ensures
            final(self).wf(),
            !old(self).has_key(key) ==> exists|res: Option<Query<V>>|
                #[trigger] func.ensures((None,), res) && match res {
                    Some(q) => final(self).queries() == old(self).queries().push(q)
                        && final(self).events() == old(self).events().push(
                        CacheEvent::Created(key),
                    ),
                    None => final(self).queries() == old(self).queries() && final(self).events()
                        == old(self).events(),
                },
            old(self).has_key(key) ==> exists|i: int, res: Option<Query<V>>|
                0 <= i < old(self).queries().len() && old(self).queries()[i].key() == key
                    && #[trigger] func.ensures((Some(&old(self).queries()[i]),), res) && match res {
                    Some(q) => final(self).queries() == old(self).queries().update(i, q),
                    None => final(self).queries() == old(self).queries(),
                } && final(self).events() == old(self).events(),
    {
        match self.find(key) {
            None => {
                let made = func(None);
                match made {
                    Some(query) => {
                        self.queries.push(query);
                        self.events.push(CacheEvent::Created(key));
                        self.size = self.size + 1;
                    },
                    None => {},
                }
            },
            Some(i) => {
                let replacement = func(Some(&self.queries[i]));
                match replacement {
                    Some(query) => {
                        self.queries.set(i, query);
                    },
                    None => {},
                }
            },
        }
    }
}

/// The updates that invalidating `qs` announces: one for each query with loaded data.
pub open spec fn invalidation_events<V>(qs: Seq<Query<V>>) -> Seq<CacheEvent>
    decreases qs.len(),
{
    if qs.len() == 0 {
        seq![]
    } else {
        invalidation_events(qs.drop_last()) + event_if(
            qs.last().state() is Loaded,
            CacheEvent::Updated(qs.last().key()),
        )
    }
}

/// Evicting a key and asking for it again gives a fresh query: the lookup after the
/// eviction makes a new entry in state `Created`, unobserved and with no fetch.
pub proof fn lemma_eviction_round_trip<V>(
    c0: QueryCache<V>,
    c1: QueryCache<V>,
    c2: QueryCache<V>,
    c3: QueryCache<V>,
    key: u64,
    made_first: bool,
    evicted: bool,
    made_again: bool,
)
    requires
        c0.wf(),
        c0.created_at(key, &c1, made_first),
        c1.evicted_at(key, &c2, evicted),
        c2.created_at(key, &c3, made_again),
    ensures
        evicted,
        made_again,
        c3.queries().last().key() == key,
        c3.queries().last().state() == QueryState::<V>::Created,
        c3.queries().last().observers().len() == 0,
        !c3.queries().last().in_flight(),
        c3.events() == c2.events().push(CacheEvent::Created(key)),
        c2.events() == c1.events().push(CacheEvent::Removed(key)),
{
}

/// Clearing an empty registry changes nothing observable: it stays empty, with size zero,
/// and announces no removal. So clearing twice announces nothing the second time.
pub proof fn lemma_clear_idempotent<V>(c0: QueryCache<V>, c1: QueryCache<V>)
    requires
        c0.wf(),
        c0.queries().len() == 0,
        c0.cleared(&c1),
    ensures
        c1.queries().len() == 0,
        c1.counter() == 0,
        c1.events() == c0.events(),
{
    assert(c0.queries().map_values(|q: Query<V>| removed_event(q)) =~= Seq::<CacheEvent>::empty());
    assert(c1.events() =~= c0.events());
}

} // verus!
