use leptos_query::{
    CacheEvent, Query, QueryCache, QueryData, QueryObserver, QueryOptions, QueryState,
};

fn gc_options(gc: Option<u64>) -> QueryOptions {
    let mut options = QueryOptions::new();
    options.gc_time = gc;
    options
}

#[test]
fn get_or_create_announces_once() {
    let mut cache: QueryCache<String> = QueryCache::new();
    assert!(cache.get_or_create_query(1));
    assert!(!cache.get_or_create_query(1));
    assert!(cache.get_or_create_query(2));
    assert_eq!(cache.size(), 2);
    assert_eq!(cache.take_events(), vec![CacheEvent::Created(1), CacheEvent::Created(2)]);
    assert!(cache.take_events().is_empty());
}

#[test]
fn eviction_round_trip_gives_fresh_query() {
    let mut cache: QueryCache<String> = QueryCache::new();
    cache.get_or_create_query(5);
    assert!(cache.hydrate(5, QueryData { data: "v".to_string(), updated_at: 1 }));
    assert!(matches!(cache.get_query(5).map(|q| q.get_state().clone()), Some(QueryState::Loaded(_))));
    assert!(cache.evict_query(5));
    assert!(cache.get_query(5).is_none());
    assert_eq!(cache.size(), 0);
    assert!(cache.get_or_create_query(5));
    assert_eq!(cache.get_query(5).map(|q| q.get_state().clone()), Some(QueryState::Created));
    assert_eq!(
        cache.take_events(),
        vec![CacheEvent::Created(5), CacheEvent::Updated(5), CacheEvent::Removed(5), CacheEvent::Created(5)]
    );
}

#[test]
fn evict_absent_key_is_false() {
    let mut cache: QueryCache<String> = QueryCache::new();
    assert!(!cache.evict_query(3));
    assert_eq!(cache.size(), 0);
    assert!(cache.take_events().is_empty());
}

#[test]
fn clear_on_empty_registry_is_silent() {
    let mut cache: QueryCache<String> = QueryCache::new();
    cache.clear_all_queries();
    assert_eq!(cache.size(), 0);
    assert!(cache.take_events().is_empty());
    cache.clear_all_queries();
    assert_eq!(cache.size(), 0);
    assert!(cache.take_events().is_empty());
}

#[test]
fn clear_announces_each_removal() {
    let mut cache: QueryCache<String> = QueryCache::new();
    cache.get_or_create_query(1);
    cache.get_or_create_query(2);
    cache.take_events();
    cache.clear_all_queries();
    assert_eq!(cache.size(), 0);
    assert_eq!(cache.take_events(), vec![CacheEvent::Removed(1), CacheEvent::Removed(2)]);
    assert!(cache.get_query(1).is_none());
}

#[test]
fn replay_lists_every_entry() {
    let mut cache: QueryCache<String> = QueryCache::new();
    cache.get_or_create_query(8);
    cache.get_or_create_query(3);
    assert_eq!(cache.replay_events(), vec![CacheEvent::Created(8), CacheEvent::Created(3)]);
}

#[test]
fn invalidate_all_marks_loaded_only() {
    let mut cache: QueryCache<String> = QueryCache::new();
    cache.get_or_create_query(1);
    cache.get_or_create_query(2);
    cache.hydrate(1, QueryData { data: "a".to_string(), updated_at: 0 });
    cache.take_events();
    cache.invalidate_all_queries();
    assert_eq!(
        cache.get_query(1).map(|q| q.get_state().clone()),
        Some(QueryState::Invalid(QueryData { data: "a".to_string(), updated_at: 0 }))
    );
    assert_eq!(cache.get_query(2).map(|q| q.get_state().clone()), Some(QueryState::Created));
    assert_eq!(cache.take_events(), vec![CacheEvent::Updated(1)]);
}

#[test]
fn observer_lifecycle_through_registry() {
    let mut cache: QueryCache<String> = QueryCache::new();
    let mut counter: u32 = 1;
    cache.get_or_create_query(10);
    cache.take_events();
    let options = gc_options(Some(30_000));
    let mut observer = QueryObserver::with_fetcher(&mut counter, options, 10, &mut cache, 0);
    assert_eq!(observer.get_query(), Some(10));
    assert!(observer.get_fetcher());
    assert_eq!(observer.get_id().get(), 1);
    assert_eq!(counter, 2);
    // The query has no data, so attaching launched its first load.
    assert_eq!(cache.get_query(10).map(|q| q.get_state().clone()), Some(QueryState::Created));
    assert!(!cache.execute(10));
    let launch = cache.take_launch(10).expect("launch");
    assert_eq!(cache.get_query(10).map(|q| q.get_state().clone()), Some(QueryState::Loading));
    assert_eq!(launch.observer, observer.get_id());
    assert!(cache.finish_execution(10, Some("v".to_string()), 1_000));
    assert_eq!(
        cache.take_events(),
        vec![CacheEvent::ObserverAdded(10, options), CacheEvent::Updated(10), CacheEvent::Updated(10)]
    );

    observer.update_query(&mut cache, Some(10), 2_000);
    assert!(cache.take_events().is_empty());

    observer.cleanup(&mut cache, 5_000);
    assert_eq!(observer.get_query(), None);
    assert_eq!(cache.take_events(), vec![CacheEvent::ObserverRemoved(10)]);
    let timer = cache.get_query(10).and_then(|q| q.get_gc().timer());
    assert_eq!(timer, Some(26_000));
}

#[test]
fn rebinding_moves_subscription_and_executes() {
    let mut cache: QueryCache<String> = QueryCache::new();
    let mut counter: u32 = 1;
    cache.get_or_create_query(1);
    cache.get_or_create_query(2);
    let mut observer = QueryObserver::with_fetcher(&mut counter, QueryOptions::new(), 1, &mut cache, 0);
    cache.take_events();
    observer.update_query(&mut cache, Some(2), 0);
    assert_eq!(observer.get_query(), Some(2));
    assert_eq!(cache.get_query(1).map(|q| q.observer_count()), Some(0));
    assert_eq!(cache.get_query(2).map(|q| q.observer_count()), Some(1));
    assert_eq!(cache.get_query(2).map(|q| q.get_state().clone()), Some(QueryState::Created));
    assert_eq!(cache.get_query(2).map(|q| q.is_in_flight()), Some(true));
    assert_eq!(
        cache.take_events(),
        vec![CacheEvent::ObserverRemoved(1), CacheEvent::ObserverAdded(2, QueryOptions::new())]
    );
    assert_eq!(cache.take_launch(2).map(|l| l.observer), Some(observer.get_id()));
    assert_eq!(cache.get_query(2).map(|q| q.get_state().clone()), Some(QueryState::Loading));
    assert_eq!(cache.take_events(), vec![CacheEvent::Updated(2)]);
}

#[test]
fn stale_query_executes_when_fetcher_attaches() {
    let mut cache: QueryCache<String> = QueryCache::new();
    let mut counter: u32 = 1;
    cache.get_or_create_query(1);
    cache.hydrate(1, QueryData { data: "old".to_string(), updated_at: 0 });
    let mut options = QueryOptions::new();
    options.stale_time = Some(100);
    options.refetch_interval = Some(500);
    let observer = QueryObserver::with_fetcher(&mut counter, options, 1, &mut cache, 1_000);
    assert_eq!(observer.get_refetch(), Some(500));
    assert!(cache.is_stale(1, 1_000));
    assert_eq!(
        cache.get_query(1).map(|q| q.get_state().clone()),
        Some(QueryState::Loaded(QueryData { data: "old".to_string(), updated_at: 0 }))
    );
    let launch = cache.take_launch(1);
    assert!(launch.is_some());
    assert_eq!(
        cache.get_query(1).map(|q| q.get_state().clone()),
        Some(QueryState::Fetching(QueryData { data: "old".to_string(), updated_at: 0 }))
    );
    assert!(cache.cancel(1));
    assert!(!cache.cancel(1));
    assert!(cache.finish_execution(1, None, 1_001));
    assert_eq!(
        cache.get_query(1).map(|q| q.get_state().clone()),
        Some(QueryState::Loaded(QueryData { data: "old".to_string(), updated_at: 0 }))
    );
}

#[test]
fn passive_observer_keeps_query_observed() {
    let mut cache: QueryCache<String> = QueryCache::new();
    let mut counter: u32 = 1;
    cache.get_or_create_query(4);
    let mut observer = QueryObserver::no_fetcher(&mut counter, gc_options(None), Some(4), &mut cache);
    assert!(!observer.get_fetcher());
    assert!(!cache.execute(4));
    assert!(cache.ensure_execute(4, 0) == false);
    assert!(cache.mark_invalid(4) == false);
    observer.cleanup(&mut cache, 0);
    assert_eq!(cache.get_query(4).map(|q| q.observer_count()), Some(0));
}

#[test]
fn operations_on_absent_key() {
    let mut cache: QueryCache<String> = QueryCache::new();
    let mut counter: u32 = 1;
    let observer = QueryObserver::no_fetcher(&mut counter, QueryOptions::new(), None, &mut cache);
    assert!(!cache.subscribe(9, &observer));
    assert!(!cache.unsubscribe(9, &observer, 0));
    assert!(!cache.execute(9));
    assert!(!cache.mark_invalid(9));
    assert!(!cache.finish_execution(9, None, 0));
    assert!(!cache.hydrate(9, QueryData { data: String::new(), updated_at: 0 }));
    assert!(cache.take_launch(9).is_none());
    assert!(!cache.is_stale(9, 0));
    assert!(cache.take_events().is_empty());
}

#[test]
fn use_cache_entry_inserts_and_replaces() {
    let mut cache: QueryCache<String> = QueryCache::new();
    cache.use_cache_entry(6, |current| {
        assert!(current.is_none());
        let mut query = Query::new(6);
        query.set_state(QueryState::Loaded(QueryData { data: "seed".to_string(), updated_at: 2 }));
        Some(query)
    });
    assert_eq!(cache.size(), 1);
    assert_eq!(cache.take_events(), vec![CacheEvent::Created(6)]);
    assert_eq!(
        cache.get_query(6).map(|q| q.get_state().clone()),
        Some(QueryState::Loaded(QueryData { data: "seed".to_string(), updated_at: 2 }))
    );

    cache.use_cache_entry(6, |current| {
        assert_eq!(current.map(|q| q.get_key()), Some(6));
        Some(Query::new(6))
    });
    assert_eq!(cache.size(), 1);
    assert!(cache.take_events().is_empty());
    assert_eq!(cache.get_query(6).map(|q| q.get_state().clone()), Some(QueryState::Created));

    cache.use_cache_entry(7, |_| None);
    assert_eq!(cache.size(), 1);
    assert!(cache.get_query(7).is_none());
}

#[test]
fn default_options_ask_for_nothing() {
    let options = QueryOptions::default();
    assert_eq!(options, QueryOptions::new());
    assert_eq!(options.stale_time, None);
    assert_eq!(options.gc_time, None);
    assert_eq!(options.refetch_interval, None);
    assert_eq!(options.resource_option, None);
}

#[test]
fn invalidation_is_announced_before_the_refetch_begins() {
    let mut cache: QueryCache<String> = QueryCache::new();
    let mut counter: u32 = 1;
    cache.get_or_create_query(3);
    cache.hydrate(3, QueryData { data: "d".to_string(), updated_at: 0 });
    let _observer = QueryObserver::with_fetcher(&mut counter, QueryOptions::new(), 3, &mut cache, 0);
    cache.take_events();
    assert!(cache.mark_invalid(3));
    assert_eq!(
        cache.get_query(3).map(|q| q.get_state().clone()),
        Some(QueryState::Invalid(QueryData { data: "d".to_string(), updated_at: 0 }))
    );
    assert_eq!(cache.take_events(), vec![CacheEvent::Updated(3)]);
    assert!(cache.take_launch(3).is_some());
    assert_eq!(
        cache.get_query(3).map(|q| q.get_state().clone()),
        Some(QueryState::Fetching(QueryData { data: "d".to_string(), updated_at: 0 }))
    );
    assert_eq!(cache.take_events(), vec![CacheEvent::Updated(3)]);
}
