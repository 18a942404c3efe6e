use vstd::prelude::*;

use crate::gc::{armed_timer, merge_gc_time, GarbageCollector, GcTime};
use crate::observer::{ObserverKey, QueryObserver};
use crate::options::QueryOptions;
use crate::time::time_until_stale;
use crate::state::{
    hydrated, is_idle, settled, started, updated_at_of, QueryData, QueryState,
};

verus! {

/// What a query keeps of one subscribed observer.
#[derive(Clone, Copy, Debug, PartialEq, Eq, Structural)]
pub struct Subscription {
    pub id: ObserverKey,
    pub options: QueryOptions,
    pub fetcher: bool,
}

/// A fetch that the runtime must now run, with the fetch function of `observer`, racing
/// `cancellation`; its outcome goes back through `Query::finish_execution`.
pub struct Launch {
    pub observer: ObserverKey,
    pub cancellation: futures_channel::oneshot::Receiver<()>,
}

/// The first subscription from position `i` on that carries a fetch function.
pub open spec fn first_fetcher(subs: Seq<Subscription>, i: int) -> Option<ObserverKey>
    decreases subs.len() - i,
{
    if i < 0 || i >= subs.len() {
        None
    } else if subs[i].fetcher {
        Some(subs[i].id)
    } else {
        first_fetcher(subs, i + 1)
    }
}

pub open spec fn min_opt(a: Option<u64>, b: Option<u64>) -> Option<u64> {
    match (a, b) {
        (Some(x), Some(y)) => Some(if x <= y { x } else { y }),
        (Some(x), None) => Some(x),
        (None, _) => b,
    }
}

/// The smallest stale time asked for by the subscriptions from position `i` on.
pub open spec fn min_stale_time(subs: Seq<Subscription>, i: int) -> Option<u64>
    decreases subs.len() - i,
{
    if i < 0 || i >= subs.len() {
        None
    } else {
        min_opt(subs[i].options.stale_time, min_stale_time(subs, i + 1))
    }
}

pub open spec fn has_observer(subs: Seq<Subscription>, id: ObserverKey) -> bool {
    exists|i: int| 0 <= i < subs.len() && subs[i].id == id
}

pub open spec fn unique_ids(subs: Seq<Subscription>) -> bool {
    forall|i: int, j: int| 0 <= i < j < subs.len() ==> subs[i].id != subs[j].id
}

pub open spec fn subscription_of(o: QueryObserver) -> Subscription {
    Subscription { id: o.id(), options: o.options(), fetcher: o.fetches() }
}

/// The cached state of one key, with its subscribers, its eviction policy and the
/// cancellation token of the fetch in flight.
pub struct Query<V> {
    key: u64,
    current_request: Option<futures_channel::oneshot::Sender<()>>,
    state: QueryState<V>,
    observers: Vec<Subscription>,
    garbage_collector: GarbageCollector,
    launch: Option<Launch>,
}

/// Two queries are equal when they cache the same key.
impl<V> PartialEq for Query<V> {
    fn eq(&self, other: &Query<V>) -> (r: bool) {
        self.key == other.key
    }
}

impl<V> vstd::std_specs::cmp::PartialEqSpecImpl for Query<V> {
    open spec fn obeys_eq_spec() -> bool {
        true
    }

    open spec fn eq_spec(&self, other: &Query<V>) -> bool {
        self.key() == other.key()
    }
}

impl<V> Query<V> {
    pub closed spec fn key(&self) -> u64 {
        self.key
    }

    pub closed spec fn state(&self) -> QueryState<V> {
        self.state
    }

    /// Subscribers, in subscription order.
    pub closed spec fn observers(&self) -> Seq<Subscription> {
        self.observers@
    }

    pub closed spec fn gc(&self) -> GarbageCollector {
        self.garbage_collector
    }

    /// The cancellation token of the fetch in flight, if any.
    pub closed spec fn token(&self) -> Option<futures_channel::oneshot::Sender<()>> {
        self.current_request
    }

    /// Whether a fetch holds the cancellation token.
    pub open spec fn in_flight(&self) -> bool {
        self.token().is_some()
    }

    /// The observer whose fetch function the runtime has yet to start, if any.
    pub closed spec fn launched(&self) -> Option<ObserverKey> {
        match self.launch {
            Some(l) => Some(l.observer),
            None => None,
        }
    }

    /// Subscriber ids are distinct, and no eviction timer runs while anyone observes.
    pub open spec fn wf(&self) -> bool {
        &&& unique_ids(self.observers())
        &&& self.observers().len() > 0 ==> self.gc().pending().is_none()
    }

    /// Whether, with its state replaced by `s`, a fetch can start now.
    pub open spec fn can_start_from(&self, s: QueryState<V>) -> bool {
        !self.in_flight() && first_fetcher(self.observers(), 0).is_some() && is_idle(s)
    }

    pub open spec fn same_bookkeeping(&self, other: &Self) -> bool {
        &&& other.key() == self.key()
        &&& other.observers() == self.observers()
        &&& other.gc() == self.gc()
    }

    pub open spec fn unchanged(&self, after: &Self) -> bool {
        &&& self.same_bookkeeping(after)
        &&& after.state() == self.state()
        &&& after.token() == self.token()
        &&& after.launched() == self.launched()
    }

    /// `after` is this query with its state replaced by `s` and then executed. The state
    /// stays `s`. A fetch is launched exactly when none is in flight, some subscriber
    /// fetches and `s` is idle: a fresh token is installed and the launch, with the first
    /// fetching subscriber, waits for the runtime in `take_launch`.
    pub open spec fn executed_from(&self, s: QueryState<V>, after: &Self) -> bool {
        &&& self.same_bookkeeping(after)
        &&& after.state() == s
        &&& if self.can_start_from(s) {
            &&& after.in_flight()
            &&& after.launched() == first_fetcher(self.observers(), 0)
        } else {
            &&& after.token() == self.token()
            &&& after.launched() == self.launched()
        }
    }

    /// `after` is this query with its state set to `s`: an `Invalid` state executes at once.
    pub open spec fn set_state_to(&self, s: QueryState<V>, after: &Self) -> bool {
        if s is Invalid {
            self.executed_from(s, after)
        } else {
            &&& self.same_bookkeeping(after)
            &&& after.state() == s
            &&& after.token() == self.token()
            &&& after.launched() == self.launched()
        }
    }

    /// `after` is this query after `mark_invalid`: loaded data turns `Invalid` and executes at
    /// once; any other state is left as it is.
    pub open spec fn invalidated(&self, after: &Self) -> bool {
        &&& self.state() is Loaded ==> self.executed_from(
            QueryState::Invalid(self.state()->Loaded_0),
            after,
        )
        &&& !(self.state() is Loaded) ==> self.unchanged(after)
    }

    /// `after` is this query once the runtime took its pending launch, and `taken` the
    /// observer whose fetch function it runs. The fetch begins from an idle state, which
    /// moves to `Loading` or `Fetching`; a launch found in any other state is dropped and
    /// its token released.
    pub open spec fn launch_taken(&self, after: &Self, taken: Option<ObserverKey>) -> bool {
        &&& after.launched().is_none()
        &&& self.same_bookkeeping(after)
        &&& if self.launched().is_some() && is_idle(self.state()) {
            &&& taken == self.launched()
            &&& after.state() == started(self.state())
            &&& after.token() == self.token()
        } else if self.launched().is_some() {
            &&& taken.is_none()
            &&& after.state() == self.state()
            &&& !after.in_flight()
        } else {
            &&& taken.is_none()
            &&& after.state() == self.state()
            &&& after.token() == self.token()
        }
    }

    /// `after` is this query once its fetch ended with `result` at `now`.
    pub open spec fn finished(&self, result: Option<V>, now: u64, after: &Self) -> bool {
        &&& after.state() == settled(self.state(), result, now)
        &&& !after.in_flight()
        &&& self.same_bookkeeping(after)
        &&& after.launched() == self.launched()
    }

    /// `after` is this query once its token, if any, was taken and signalled; `r` is false
    /// when there was no token, and otherwise what sending the signal returned.
    pub open spec fn cancelled(&self, after: &Self, r: bool) -> bool {
        &&& !after.in_flight()
        &&& r ==> self.in_flight()
        &&& self.same_bookkeeping(after)
        &&& after.state() == self.state()
        &&& after.launched() == self.launched()
    }

    /// `after` is this query once `o` subscribed; `r` tells whether `o` was new. A new
    /// observer is appended and widens the retention policy; the eviction timer is off.
    pub open spec fn subscribed(&self, o: QueryObserver, after: &Self, r: bool) -> bool {
        &&& after.wf()
        &&& r == !has_observer(self.observers(), o.id())
        &&& r ==> after.observers() == self.observers().push(subscription_of(o))
        &&& r ==> after.gc().policy() == merge_gc_time(self.gc().policy(), o.options().gc_time)
        &&& !r ==> after.observers() == self.observers() && after.gc() == self.gc()
        &&& after.gc().pending().is_none()
        &&& after.key() == self.key()
        &&& after.state() == self.state()
        &&& after.in_flight() == self.in_flight()
        &&& after.launched() == self.launched()
    }

    /// `after` is this query once `o` unsubscribed at `now`; `r` tells whether `o` was
    /// subscribed. Once the last observer leaves, the eviction timer is armed.
    pub open spec fn unsubscribed(&self, o: QueryObserver, now: u64, after: &Self, r: bool) -> bool {
        &&& after.wf()
        &&& r == has_observer(self.observers(), o.id())
        &&& r ==> exists|i: int|
            0 <= i < self.observers().len() && self.observers()[i].id == o.id()
                && after.observers() == self.observers().remove(i)
        &&& !r ==> after.observers() == self.observers()
        &&& !has_observer(after.observers(), o.id())
        &&& after.gc().policy() == self.gc().policy()
        &&& after.observers().len() > 0 ==> after.gc() == self.gc()
        &&& after.observers().len() == 0 ==> after.gc().pending() == (if self.gc().pending().is_some() {
            self.gc().pending()
        } else {
            armed_timer(self.gc().policy(), updated_at_of(self.state()), now)
        })
        &&& after.key() == self.key()
        &&& after.state() == self.state()
        &&& after.in_flight() == self.in_flight()
        &&& after.launched() == self.launched()
    }

    /// Stale once the smallest stale time asked for has passed since the last update.
    pub open spec fn stale_at(&self, now: u64) -> bool {
        match (updated_at_of(self.state()), min_stale_time(self.observers(), 0)) {
            (Some(u), Some(s)) => u + s <= now,
            _ => false,
        }
    }

    pub open spec fn needs_execute_at(&self, now: u64) -> bool {
        self.state() is Created || self.state() is Invalid || self.stale_at(now)
    }

    pub fn new(key: u64) -> (r: Query<V>)
        ensures
            r.wf(),
            r.key() == key,
            r.state() == QueryState::<V>::Created,
            r.observers().len() == 0,
            r.gc().policy() == GcTime::Unset,
            r.gc().pending().is_none(),
            !r.in_flight(),
            r.launched().is_none(),
    {
        Query {
            key,
            current_request: None,
            state: QueryState::Created,
            observers: Vec::new(),
            garbage_collector: GarbageCollector::new(),
            launch: None,
        }
    }
}

impl<V> Query<V> {
    pub fn get_key(&self) -> (r: u64)
        ensures
            r == self.key(),
    {
        self.key
    }

    pub fn get_state(&self) -> (r: &QueryState<V>)
        ensures
            *r == self.state(),
    {
        &self.state
    }

    pub fn get_gc(&self) -> (r: GarbageCollector)
        ensures
            r == self.gc(),
    {
        self.garbage_collector
    }

    pub fn get_updated_at(&self) -> (r: Option<u64>)
        ensures
            r == updated_at_of(self.state()),
    {
        self.state.updated_at()
    }

    /// Whether a fetch holds the cancellation token.
    pub fn is_in_flight(&self) -> (r: bool)
        ensures
            r == self.in_flight(),
    {
        self.current_request.is_some()
    }

    pub fn observer_count(&self) -> (r: usize)
        ensures
            r == self.observers().len(),
    {
        self.observers.len()
    }

    /// The first subscriber, in subscription order, that carries a fetch function.
    fn find_fetcher(&self) -> (r: Option<ObserverKey>)
        ensures
            r == first_fetcher(self.observers(), 0),
    {
        let mut i: usize = self.observers.len();
        let mut found: Option<ObserverKey> = None;
        while i > 0
            invariant
                i <= self.observers@.len(),
                found == first_fetcher(self.observers@, i as int),
            decreases i,
        {
            i = i - 1;
            if self.observers[i].fetcher {
                found = Some(self.observers[i].id);
            }
        }
        found
    }

    /// Installs a cancellation token unless one is outstanding; hands out its receiver.
    pub fn new_execution(&mut self) -> (r: Option<futures_channel::oneshot::Receiver<()>>)
        ensures
            r.is_some() == !old(self).in_flight(),
            final(self).in_flight(),
            old(self).in_flight() ==> final(self).token() == old(self).token(),
            old(self).same_bookkeeping(final(self)),
            final(self).state() == old(self).state(),
            final(self).launched() == old(self).launched(),
    {
        if self.current_request.is_none() {
            let (sender, receiver) = futures_channel::oneshot::channel();
            self.current_request = Some(sender);
            Some(receiver)
        } else {
            None
        }
    }

    /// Releases the cancellation token.
    pub fn finalize_execution(&mut self)
        ensures
            !final(self).in_flight(),
            old(self).same_bookkeeping(final(self)),
            final(self).state() == old(self).state(),
            final(self).launched() == old(self).launched(),
    {
        self.current_request = None;
    }

    /// Signals the outstanding fetch to stop. False when none was outstanding, or when its
    /// receiver was already gone.
    pub fn cancel(&mut self) -> (r: bool)
        ensures
            old(self).cancelled(final(self), r),
    {
        let mut current: Option<futures_channel::oneshot::Sender<()>> = None;
        std::mem::swap(&mut self.current_request, &mut current);
        match current {
            Some(sender) => {
                let sent = sender.send(());
                sent.is_ok()
            },
            None => false,
        }
    }

    /// Launches a fetch if none is in flight, some subscriber carries a fetch function and
    /// the state is `Created`, `Loaded` or `Invalid`: installs a cancellation token and
    /// records the launch, which the runtime begins with `take_launch`. The state is left
    /// as it is.
    pub fn execute(&mut self)
        ensures
            old(self).executed_from(old(self).state(), final(self)),
    {
        if self.current_request.is_some() {
            return;
        }
        let fetcher = self.find_fetcher();
        let observer = match fetcher {
            Some(o) => o,
            None => {
                return;
            },
        };
        let idle = match &self.state {
            QueryState::Created => true,
            QueryState::Loaded(_) => true,
            QueryState::Invalid(_) => true,
            _ => false,
        };
        if !idle {
            return;
        }
        let cancellation = self.new_execution();
        match cancellation {
            Some(cancellation) => {
                self.launch = Some(Launch { observer, cancellation });
            },
            None => {},
        }
    }

    /// Hands the pending launch to the runtime, which begins the fetch: `Created` moves to
    /// `Loading`, and `Loaded` or `Invalid` data to `Fetching`. A launch found in any other
    /// state is dropped and its token released.
    pub fn take_launch(&mut self) -> (r: Option<Launch>)
        ensures
            old(self).launch_taken(
                final(self),
                match r {
                    Some(l) => Some(l.observer),
                    None => None,
                },
            ),
    {
        let mut launch: Option<Launch> = None;
        std::mem::swap(&mut self.launch, &mut launch);
        match launch {
            None => None,
            Some(l) => {
                let mut current: QueryState<V> = QueryState::Created;
                std::mem::swap(&mut self.state, &mut current);
                match current {
                    QueryState::Created => {
                        self.state = QueryState::Loading;
                        Some(l)
                    },
                    QueryState::Loaded(d) => {
                        self.state = QueryState::Fetching(d);
                        Some(l)
                    },
                    QueryState::Invalid(d) => {
                        self.state = QueryState::Fetching(d);
                        Some(l)
                    },
                    other => {
                        self.state = other;
                        self.current_request = None;
                        None
                    },
                }
            },
        }
    }

    /// Replaces the state; an `Invalid` state triggers an execution at once.
    pub fn set_state(&mut self, state: QueryState<V>)
        ensures
            old(self).set_state_to(state, final(self)),
    {
        let invalid = matches!(state, QueryState::Invalid(_));
        self.state = state;
        if invalid {
            self.execute();
        }
    }

    /// Applies the outcome of the fetch in flight and releases its token: `Some(v)` when it
    /// produced `v` at `now`, `None` when it failed or was cancelled.
    pub fn finish_execution(&mut self, result: Option<V>, now: u64)
        ensures
            old(self).finished(result, now, final(self)),
    {
        let mut current: QueryState<V> = QueryState::Created;
        std::mem::swap(&mut self.state, &mut current);
        let next = match result {
            Some(v) => QueryState::Loaded(QueryData { data: v, updated_at: now }),
            None => match current {
                QueryState::Loading => QueryState::Created,
                QueryState::Fetching(d) => QueryState::Loaded(d),
                other => other,
            },
        };
        self.state = next;
        self.finalize_execution();
    }

    /// Flags loaded data for a refetch, which starts at once. False, and nothing changes,
    /// in any other state.
    pub fn mark_invalid(&mut self) -> (r: bool)
        ensures
            r == old(self).state() is Loaded,
            old(self).invalidated(final(self)),
    {
        let mut current: QueryState<V> = QueryState::Created;
        std::mem::swap(&mut self.state, &mut current);
        match current {
            QueryState::Loaded(d) => {
                self.set_state(QueryState::Invalid(d));
                true
            },
            other => {
                self.state = other;
                false
            },
        }
    }

    /// Stores data read back from persistence, unless the query has loaded meanwhile.
    pub fn hydrate(&mut self, data: QueryData<V>)
        ensures
            old(self).set_state_to(hydrated(old(self).state(), data), final(self)),
    {
        let mut current: QueryState<V> = QueryState::Created;
        std::mem::swap(&mut self.state, &mut current);
        match current {
            QueryState::Loaded(d) => {
                self.state = QueryState::Loaded(d);
            },
            QueryState::Loading => {
                self.set_state(QueryState::Fetching(data));
            },
            QueryState::Fetching(_) => {
                self.set_state(QueryState::Fetching(data));
            },
            _ => {
                self.set_state(QueryState::Loaded(data));
            },
        }
    }
}

impl<V> Query<V> {
    /// The smallest stale time that any subscriber asks for.
    fn min_stale_time(&self) -> (r: Option<u64>)
        ensures
            r == min_stale_time(self.observers(), 0),
    {
        let mut i: usize = self.observers.len();
        let mut acc: Option<u64> = None;
        while i > 0
            invariant
                i <= self.observers@.len(),
                acc == min_stale_time(self.observers@, i as int),
            decreases i,
        {
            i = i - 1;
            let here = self.observers[i].options.stale_time;
            acc = match (here, acc) {
                (Some(x), Some(y)) => Some(if x <= y { x } else { y }),
                (Some(x), None) => Some(x),
                (None, a) => a,
            };
        }
        acc
    }

    /// Stale once the most demanding subscriber's stale time has passed since the last
    /// update; never stale without data or without a subscriber that sets one.
    pub fn is_stale(&self, now: u64) -> (r: bool)
        ensures
            r == self.stale_at(now),
    {
        let stale_time = self.min_stale_time();
        match (self.state.updated_at(), stale_time) {
            (Some(updated_at), Some(stale_time)) => time_until_stale(updated_at, stale_time, now)
                == 0,
            _ => false,
        }
    }

    pub fn needs_execute(&self, now: u64) -> (r: bool)
        ensures
            r == self.needs_execute_at(now),
    {
        matches!(self.state, QueryState::Created) || matches!(self.state, QueryState::Invalid(_))
            || self.is_stale(now)
    }

    /// Executes when the query has no data, is invalid, or is stale.
    pub fn ensure_execute(&mut self, now: u64)
        ensures
            old(self).needs_execute_at(now) ==> old(self).executed_from(
                old(self).state(),
                final(self),
            ),
            !old(self).needs_execute_at(now) ==> old(self).unchanged(final(self)),
    {
        if self.needs_execute(now) {
            self.execute();
        }
    }

    fn position(&self, id: ObserverKey) -> (r: Option<usize>)
        ensures
            match r {
                Some(i) => i < self.observers().len() && self.observers()[i as int].id == id,
                None => !has_observer(self.observers(), id),
            },
    {
        let mut i: usize = 0;
        while i < self.observers.len()
            invariant
                i <= self.observers@.len(),
                forall|j: int| 0 <= j < i ==> self.observers@[j].id != id,
            decreases self.observers@.len() - i,
        {
            if self.observers[i].id == id {
                return Some(i);
            }
            i = i + 1;
        }
        None
    }

    /// Adds `observer` unless it is subscribed already: cancels the eviction timer and
    /// widens the retention policy by the observer's `gc_time`. True when it was added.
    pub fn subscribe(&mut self, observer: &QueryObserver) -> (r: bool)
        requires
            old(self).wf(),
        ensures
            old(self).subscribed(*observer, final(self), r),
    {
        let id = observer.get_id();
        match self.position(id) {
            Some(_) => false,
            None => {
                let options = *observer.get_options();
                self.observers.push(
                    Subscription { id, options, fetcher: observer.get_fetcher() },
                );
                self.garbage_collector.disable_gc();
                self.garbage_collector.update_gc_time(options.gc_time);
                true
            },
        }
    }

    /// Removes `observer`; once nobody observes, arms the eviction timer. True when it was
    /// subscribed.
    pub fn unsubscribe(&mut self, observer: &QueryObserver, now: u64) -> (r: bool)
        requires
            old(self).wf(),
        ensures
            old(self).unsubscribed(*observer, now, final(self), r),
    {
        let id = observer.get_id();
        let removed = match self.position(id) {
            Some(i) => {
                self.observers.remove(i);
                assert forall|a: int, b: int|
                    0 <= a < b < self.observers@.len() implies self.observers@[a].id
                    != self.observers@[b].id by {
                    let a0 = if a < i { a } else { a + 1 };
                    let b0 = if b < i { b } else { b + 1 };
                    assert(self.observers@[a] == old(self).observers@[a0]);
                    assert(self.observers@[b] == old(self).observers@[b0]);
                }
                assert forall|j: int| 0 <= j < self.observers@.len() implies self.observers@[j].id
                    != id by {
                    let j0 = if j < i { j } else { j + 1 };
                    assert(self.observers@[j] == old(self).observers@[j0]);
                }
                true
            },
            None => false,
        };
        if self.observers.len() == 0 {
            let updated_at = self.state.updated_at();
            self.garbage_collector.enable_gc(updated_at, now);
        }
        removed
    }

    pub fn update_gc_time(&mut self, gc_time: Option<u64>)
        requires
            old(self).wf(),
        ensures
            final(self).wf(),
            final(self).gc().policy() == merge_gc_time(old(self).gc().policy(), gc_time),
            final(self).gc().pending() == old(self).gc().pending(),
            final(self).key() == old(self).key(),
            final(self).observers() == old(self).observers(),
            final(self).state() == old(self).state(),
            final(self).in_flight() == old(self).in_flight(),
            final(self).launched() == old(self).launched(),
    {
        self.garbage_collector.update_gc_time(gc_time);
    }

    /// Arms the eviction timer, but only while nobody observes the query.
    pub fn enable_gc(&mut self, now: u64)
        requires
            old(self).wf(),
        ensures
            final(self).wf(),
            old(self).observers().len() > 0 ==> final(self).gc() == old(self).gc(),
            old(self).observers().len() == 0 ==> final(self).gc().policy() == old(self).gc().policy() && final(self).gc().pending() == (if old(self).gc().pending().is_some() {
                old(self).gc().pending()
            } else {
                armed_timer(old(self).gc().policy(), updated_at_of(old(self).state()), now)
            }),
            final(self).key() == old(self).key(),
            final(self).observers() == old(self).observers(),
            final(self).state() == old(self).state(),
            final(self).in_flight() == old(self).in_flight(),
            final(self).launched() == old(self).launched(),
    {
        if self.observers.len() == 0 {
            let updated_at = self.state.updated_at();
            self.garbage_collector.enable_gc(updated_at, now);
        }
    }

    pub fn disable_gc(&mut self)
        requires
            old(self).wf(),
        ensures
            final(self).wf(),
            final(self).gc().policy() == old(self).gc().policy(),
            final(self).gc().pending().is_none(),
            final(self).key() == old(self).key(),
            final(self).observers() == old(self).observers(),
            final(self).state() == old(self).state(),
            final(self).in_flight() == old(self).in_flight(),
            final(self).launched() == old(self).launched(),
    {
        self.garbage_collector.disable_gc();
    }

    /// Called when the query leaves the cache; true when observers are still attached,
    /// which callers report as a diagnostic.
    pub fn dispose(&self) -> (r: bool)
        ensures
            r == (self.observers().len() > 0),
    {
        self.observers.len() > 0
    }
}

impl<V> Query<V> {
    /// Runs `func` on the current state.
    pub fn with_state<T, F: FnOnce(&QueryState<V>) -> T>(&self, func: F) -> (r: T)
        requires
            func.requires((&self.state(),)),
        ensures
            func.ensures((&self.state(),), r),
    {
        func(&self.state)
    }

    /// Sets the state to what `update_fn` makes of the current one.
    pub fn update_state<F: FnOnce(QueryState<V>) -> QueryState<V>>(&mut self, update_fn: F)
        requires
            update_fn.requires((old(self).state(),)),
        ensures
            exists|s: QueryState<V>|
                update_fn.ensures((old(self).state(),), s) && old(self).set_state_to(
                    s,
                    final(self),
                ),
    {
        let mut current: QueryState<V> = QueryState::Created;
        std::mem::swap(&mut self.state, &mut current);
        let next = update_fn(current);
        self.set_state(next);
        assert(update_fn.ensures((old(self).state(),), next));
        assert(old(self).set_state_to(next, &*self));
    }

    /// Applies `update_fn`: on `Ok(s)` the state is set to `s` and the result is true; on
    /// `Err(s)` the state becomes `s` without a transition (no execution) and the result is
    /// false. `Err` is expected to hand the previous state back.
    pub fn maybe_map_state<F: FnOnce(QueryState<V>) -> Result<QueryState<V>, QueryState<V>>>(
        &mut self,
        update_fn: F,
    ) -> (r: bool)
        requires
            update_fn.requires((old(self).state(),)),
        ensures
            exists|res: Result<QueryState<V>, QueryState<V>>|
                update_fn.ensures((old(self).state(),), res) && match res {
                    Ok(s) => r && old(self).set_state_to(s, final(self)),
                    Err(s) => !r && old(self).same_bookkeeping(final(self))
                        && final(self).state() == s
                        && final(self).in_flight() == old(self).in_flight()
                        && final(self).launched() == old(self).launched(),
                },
    {
        let mut current: QueryState<V> = QueryState::Created;
        std::mem::swap(&mut self.state, &mut current);
        match update_fn(current) {
            Ok(new_state) => {
                self.set_state(new_state);
                true
            },
            Err(old_state) => {
                self.state = old_state;
                false
            },
        }
    }
}

/// Two executions in immediate succession start at most one fetch: once the first has
/// started one, the second finds the token taken and changes nothing.
pub proof fn lemma_single_flight<V>(q: Query<V>, mid: Query<V>, last: Query<V>)
    requires
        q.executed_from(q.state(), &mid),
        mid.executed_from(mid.state(), &last),
    ensures
        !(q.can_start_from(q.state()) && mid.can_start_from(mid.state())),
        q.can_start_from(q.state()) ==> mid.unchanged(&last) && last.launched() == first_fetcher(
            q.observers(),
            0,
        ),
{
}

/// Subscribing always leaves the eviction timer off; the subscription that removes the
/// last observer arms it from the policy and the time of the last update.
pub proof fn lemma_gc_follows_observers<V>(
    q: Query<V>,
    o: QueryObserver,
    now: u64,
    after: Query<V>,
    r: bool,
)
    requires
        q.wf(),
    ensures
        q.subscribed(o, &after, r) ==> after.gc().pending().is_none(),
        q.unsubscribed(o, now, &after, r) && r && q.observers().len() == 1 ==> after.gc().pending()
            == armed_timer(q.gc().policy(), updated_at_of(q.state()), now),
{
    if q.unsubscribed(o, now, &after, r) && r && q.observers().len() == 1 {
        let i = choose|i: int|
            0 <= i < q.observers().len() && q.observers()[i].id == o.id() && after.observers()
                == q.observers().remove(i);
        assert(after.observers().len() == 0);
    }
}

/// Invalidating loaded data shows `Invalid` with the data kept, and launches a refetch at
/// once when a subscriber can fetch and none is in flight; when the runtime begins that
/// fetch the data is kept as `Fetching`. Any other state is left alone.
pub proof fn lemma_invalidation_refetches<V>(
    q: Query<V>,
    mid: Query<V>,
    last: Query<V>,
    taken: Option<ObserverKey>,
)
    requires
        q.invalidated(&mid),
        mid.launch_taken(&last, taken),
    ensures
        q.state() is Loaded ==> mid.state() == QueryState::Invalid(q.state()->Loaded_0),
        q.state() is Loaded && !q.in_flight() && first_fetcher(q.observers(), 0).is_some() ==> {
            &&& mid.in_flight()
            &&& mid.launched() == first_fetcher(q.observers(), 0)
            &&& taken == first_fetcher(q.observers(), 0)
            &&& last.state() == QueryState::Fetching(q.state()->Loaded_0)
        },
        !(q.state() is Loaded) ==> q.unchanged(&mid),
{
}

/// Data written at `u` under a smallest stale time `s` is fresh before `u + s` and stale
/// from then on.
pub proof fn lemma_stale_threshold<V>(q: Query<V>, now: u64, u: u64, s: u64)
    requires
        updated_at_of(q.state()) == Some(u),
        min_stale_time(q.observers(), 0) == Some(s),
    ensures
        q.stale_at(now) <==> u + s <= now,
{
}

} // verus!
