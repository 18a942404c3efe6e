use vstd::prelude::*;

use crate::time::{remaining, time_until_stale};

verus! {

/// Retention policy of an unobserved query. Durations are in milliseconds.
#[derive(Clone, Copy, Debug, PartialEq, Eq, Structural)]
pub enum GcTime {
    /// No observer has asked for a retention time yet.
    Unset,
    /// Evict this long after the last update.
    Bounded(u64),
    /// Never evict.
    Unbounded,
}

/// The policy that results when an observer asks for `request` (`None`: no bound).
/// Durations only ever grow, and `Unbounded` is final.
pub open spec fn merge_gc_time(current: GcTime, request: Option<u64>) -> GcTime {
    match (current, request) {
        (GcTime::Unset, Some(d)) => GcTime::Bounded(d),
        (GcTime::Unset, None) => GcTime::Unset,
        (GcTime::Bounded(c), Some(d)) => if d > c { GcTime::Bounded(d) } else { current },
        (GcTime::Bounded(_), None) => GcTime::Unbounded,
        (GcTime::Unbounded, _) => GcTime::Unbounded,
    }
}

/// How much retention a policy grants: `Unset` least, `Unbounded` most.
pub open spec fn retention_rank(t: GcTime) -> int {
    match t {
        GcTime::Unset => -1,
        GcTime::Bounded(d) => d as int,
        GcTime::Unbounded => u64::MAX as int + 1,
    }
}

/// Every merge keeps or widens the retention: a later, shorter request never shortens it,
/// and once unbounded a policy stays unbounded.
pub proof fn lemma_gc_merge_monotonic(current: GcTime, request: Option<u64>)
    ensures
        retention_rank(merge_gc_time(current, request)) >= retention_rank(current),
        current == GcTime::Unbounded ==> merge_gc_time(current, request) == GcTime::Unbounded,
{
}

impl GcTime {
    pub fn from_option(duration: Option<u64>) -> (r: GcTime)
        ensures
            r == (match duration {
                Some(d) => GcTime::Bounded(d),
                None => GcTime::Unset,
            }),
    {
        match duration {
            Some(d) => GcTime::Bounded(d),
            None => GcTime::Unset,
        }
    }
}

/// Eviction policy of one query and the timer that carries it out.
///
/// `timer` is `Some(delay)` while an eviction timer is armed: the runtime schedules the
/// eviction `delay` milliseconds after arming and cancels it once `timer` is `None` again.
#[derive(Clone, Copy, Debug, PartialEq, Eq, Structural)]
pub struct GarbageCollector {
    gc_time: GcTime,
    timer: Option<u64>,
}

/// The timer that `enable_gc` arms, given the policy, the time of the last update and now.
pub open spec fn armed_timer(gc_time: GcTime, updated_at: Option<u64>, now: u64) -> Option<u64> {
    match (gc_time, updated_at) {
        (GcTime::Bounded(g), Some(u)) => Some(remaining(u, g, now) as u64),
        _ => None,
    }
}

impl GarbageCollector {
    pub closed spec fn policy(&self) -> GcTime {
        self.gc_time
    }

    pub closed spec fn pending(&self) -> Option<u64> {
        self.timer
    }

    pub fn new() -> (r: GarbageCollector)
        ensures
            r.policy() == GcTime::Unset,
            r.pending().is_none(),
    {
        GarbageCollector { gc_time: GcTime::Unset, timer: None }
    }

    pub fn gc_time(&self) -> (r: GcTime)
        ensures
            r == self.policy(),
    {
        self.gc_time
    }

    /// The delay of the armed eviction timer, if one is armed.
    pub fn timer(&self) -> (r: Option<u64>)
        ensures
            r == self.pending(),
    {
        self.timer
    }

    /// Keeps the widest retention asked for so far.
    pub fn update_gc_time(&mut self, gc_time: Option<u64>)
        ensures
            final(self).policy() == merge_gc_time(old(self).policy(), gc_time),
            final(self).pending() == old(self).pending(),
    {
        match (self.gc_time, gc_time) {
            (GcTime::Unset, request) => {
                self.gc_time = GcTime::from_option(request);
            },
            (GcTime::Bounded(current), Some(d)) => {
                if d > current {
                    self.gc_time = GcTime::Bounded(d);
                }
            },
            (GcTime::Bounded(_), None) => {
                self.gc_time = GcTime::Unbounded;
            },
            (GcTime::Unbounded, _) => {},
        }
    }

    /// Arms the eviction timer unless one is armed already, the policy is not bounded,
    /// or there is no data to age.
    pub fn enable_gc(&mut self, updated_at: Option<u64>, now: u64)
        ensures
            final(self).policy() == old(self).policy(),
            final(self).pending() == (if old(self).pending().is_some() {
                old(self).pending()
            } else {
                armed_timer(old(self).policy(), updated_at, now)
            }),
    {
        if self.timer.is_some() {
            return;
        }
        match (self.gc_time, updated_at) {
            (GcTime::Bounded(g), Some(u)) => {
                self.timer = Some(time_until_stale(u, g, now));
            },
            _ => {},
        }
    }

    /// Cancels the eviction timer, if any.
    pub fn disable_gc(&mut self)
        ensures
            final(self).policy() == old(self).policy(),
            final(self).pending().is_none(),
    {
        self.timer = None;
    }
}

} // verus!
