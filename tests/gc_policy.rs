use leptos_query::{time_until_stale, GarbageCollector, GcTime};

#[test]
fn test_gc() {
    let mut gc = GarbageCollector::new();
    assert_eq!(gc.gc_time(), GcTime::Unset);

    gc.update_gc_time(Some(10_000));
    assert_eq!(gc.gc_time(), GcTime::Bounded(10_000));

    gc.update_gc_time(Some(5_000));
    assert_eq!(gc.gc_time(), GcTime::Bounded(10_000));

    gc.update_gc_time(None);
    assert_eq!(gc.gc_time(), GcTime::Unbounded);
}

#[test]
fn unset_policy_stays_unset_without_request() {
    let mut gc = GarbageCollector::new();
    gc.update_gc_time(None);
    assert_eq!(gc.gc_time(), GcTime::Unset);
}

#[test]
fn longer_request_widens_policy() {
    let mut gc = GarbageCollector::new();
    gc.update_gc_time(Some(5_000));
    gc.update_gc_time(Some(20_000));
    assert_eq!(gc.gc_time(), GcTime::Bounded(20_000));
}

#[test]
fn unbounded_policy_is_final() {
    let mut gc = GarbageCollector::new();
    gc.update_gc_time(Some(1_000));
    gc.update_gc_time(None);
    gc.update_gc_time(Some(99_000));
    assert_eq!(gc.gc_time(), GcTime::Unbounded);
}

#[test]
fn enable_gc_arms_remaining_lifetime() {
    let mut gc = GarbageCollector::new();
    gc.update_gc_time(Some(10_000));
    gc.enable_gc(Some(1_000), 4_000);
    assert_eq!(gc.timer(), Some(7_000));
    // Already armed: a second call keeps the first timer.
    gc.enable_gc(Some(1_000), 9_000);
    assert_eq!(gc.timer(), Some(7_000));
    gc.disable_gc();
    assert_eq!(gc.timer(), None);
    gc.disable_gc();
    assert_eq!(gc.timer(), None);
}

#[test]
fn enable_gc_clamps_past_deadline_to_zero() {
    let mut gc = GarbageCollector::new();
    gc.update_gc_time(Some(1_000));
    gc.enable_gc(Some(0), 50_000);
    assert_eq!(gc.timer(), Some(0));
}

#[test]
fn enable_gc_needs_bounded_policy_and_data() {
    let mut gc = GarbageCollector::new();
    gc.enable_gc(Some(0), 10);
    assert_eq!(gc.timer(), None);
    gc.update_gc_time(Some(1_000));
    gc.enable_gc(None, 10);
    assert_eq!(gc.timer(), None);
    gc.update_gc_time(None);
    gc.enable_gc(Some(0), 10);
    assert_eq!(gc.timer(), None);
}

#[test]
fn time_until_stale_values() {
    assert_eq!(time_until_stale(1_000, 5_000, 1_000), 5_000);
    assert_eq!(time_until_stale(1_000, 5_000, 3_500), 2_500);
    assert_eq!(time_until_stale(1_000, 5_000, 6_000), 0);
    assert_eq!(time_until_stale(1_000, 5_000, 90_000), 0);
    assert_eq!(time_until_stale(5_000, 1_000, 2_000), 4_000);
    assert_eq!(time_until_stale(u64::MAX, u64::MAX, 0), u64::MAX);
}

#[test]
fn gc_time_from_option() {
    assert_eq!(GcTime::from_option(Some(3)), GcTime::Bounded(3));
    assert_eq!(GcTime::from_option(None), GcTime::Unset);
}
