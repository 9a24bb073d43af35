use kide::k8s::shared_cache::{
    apply_cache_event, cache_event_for, initial_listing_namespace, populate_cache, shared_watch_step, should_evict,
    CacheEvent, SharedEmission, SharedNext, SharedWatchCache, SubscribeDecision, WatchScope,
    MAX_SHARED_WATCHES,
};
use kide::k8s::watch::StreamEvent;
use kide::table::KeyedTable;

#[test]
fn test_cross_cluster_watch_isolation() {
    let cluster_a_scope = WatchScope::new("cluster-production".to_string()).with_namespace(Some("default".to_string()));
    let cluster_b_scope = WatchScope::new("cluster-staging".to_string()).with_namespace(Some("default".to_string()));

    let key_a = ("nodes".to_string(), cluster_a_scope.scope_key());
    let key_b = ("nodes".to_string(), cluster_b_scope.scope_key());

    assert_ne!(key_a, key_b, "Different clusters should generate different cache keys");
    assert!(key_a.1.contains("cluster-production"), "Key A should contain cluster-production");
    assert!(key_b.1.contains("cluster-staging"), "Key B should contain cluster-staging");

    assert_eq!(cluster_a_scope.scope_key(), "cluster-production:default::");
    assert_eq!(cluster_b_scope.scope_key(), "cluster-staging:default::");
}

#[test]
fn test_watch_scope_cluster_isolation() {
    let scope_prod = WatchScope::new("production".to_string()).with_namespace(Some("kube-system".to_string()));
    let scope_staging = WatchScope::new("staging".to_string()).with_namespace(Some("kube-system".to_string()));
    let scope_dev = WatchScope::new("development".to_string()).with_namespace(Some("kube-system".to_string()));

    let key_prod = scope_prod.scope_key();
    let key_staging = scope_staging.scope_key();
    let key_dev = scope_dev.scope_key();

    assert_ne!(key_prod, key_staging);
    assert_ne!(key_staging, key_dev);
    assert_ne!(key_prod, key_dev);

    assert!(key_prod.starts_with("production:"));
    assert!(key_staging.starts_with("staging:"));
    assert!(key_dev.starts_with("development:"));

    let key_prod_all = WatchScope::new("production".to_string()).scope_key();
    let key_staging_all = WatchScope::new("staging".to_string()).scope_key();

    assert_ne!(key_prod_all, key_staging_all);
    assert!(key_prod_all.starts_with("production:"));
    assert!(key_staging_all.starts_with("staging:"));
    assert!(key_prod_all.contains(":all:"));
    assert!(key_staging_all.contains(":all:"));
}

#[test]
fn test_cross_cluster_contamination_prevention() {
    let cluster_a_key = ("nodes".to_string(), WatchScope::new("cluster-a".to_string()).scope_key());
    let cluster_b_key = ("nodes".to_string(), WatchScope::new("cluster-b".to_string()).scope_key());

    assert_ne!(cluster_a_key, cluster_b_key, "Cluster A and B should have different cache keys");
    assert!(cluster_a_key.1.contains("cluster-a"));
    assert!(cluster_b_key.1.contains("cluster-b"));
    assert!(!cluster_a_key.1.contains("cluster-b"));
    assert!(!cluster_b_key.1.contains("cluster-a"));
}

#[test]
fn scope_key_with_selectors() {
    let scope = WatchScope::new("c".to_string()).with_label_selector(Some("app=web".to_string()));
    assert_eq!(scope.scope_key(), "c:all:app=web:");
}

#[test]
fn eviction_rule() {
    assert!(should_evict(0, 1_200_000_000_001, 1_200_000_000_000));
    assert!(!should_evict(0, 1_200_000_000_000, 1_200_000_000_000));
    assert!(!should_evict(1, u128::MAX, 1_200_000_000_000));
}

#[test]
fn cache_events() {
    let mut cache: KeyedTable<u32> = KeyedTable::new();
    apply_cache_event(&mut cache, CacheEvent::Apply { uid: Some("a".to_string()), item: 1 });
    apply_cache_event(&mut cache, CacheEvent::Apply { uid: None, item: 2 });
    apply_cache_event(&mut cache, CacheEvent::Apply { uid: Some("b".to_string()), item: 3 });
    assert_eq!(cache.get("a"), Some(&1));
    assert_eq!(cache.len(), 2);
    apply_cache_event(&mut cache, CacheEvent::Apply { uid: Some("a".to_string()), item: 4 });
    assert_eq!(cache.get("a"), Some(&4));
    apply_cache_event(&mut cache, CacheEvent::Delete { uid: Some("b".to_string()) });
    assert!(!cache.contains_key("b"));
    apply_cache_event(&mut cache, CacheEvent::InitDone);
    assert_eq!(cache.len(), 1);
    apply_cache_event(&mut cache, CacheEvent::Init);
    assert_eq!(cache.len(), 0);
}

#[test]
fn initial_listing_fills_cache() {
    let mut cache: KeyedTable<u32> = KeyedTable::new();
    populate_cache(&mut cache, vec![(Some("x".to_string()), 1), (None, 2), (Some("y".to_string()), 3), (Some("x".to_string()), 5)]);
    assert_eq!(cache.len(), 2);
    assert_eq!(cache.get("x"), Some(&5));
    assert_eq!(cache.get("y"), Some(&3));
}

#[test]
fn initial_listing_scopes() {
    let scope = WatchScope::new("c".to_string()).with_namespace(Some("dev".to_string()));
    assert_eq!(initial_listing_namespace("pods", &scope), Some(Some("dev".to_string())));
    assert_eq!(initial_listing_namespace("PODS", &scope), Some(Some("dev".to_string())));
    assert_eq!(initial_listing_namespace("Nodes", &scope), Some(None));
    assert_eq!(initial_listing_namespace("jobs", &scope), None);
    assert_eq!(initial_listing_namespace("ingresses", &WatchScope::new("c".to_string())), Some(None));
}

#[test]
fn shared_steps() {
    let s = shared_watch_step(StreamEvent::Apply { converted: true });
    assert_eq!(s.emission, Some(SharedEmission::Added));
    assert_eq!(s.next, SharedNext::Continue);
    assert_eq!(shared_watch_step(StreamEvent::Delete { converted: false }).emission, None);
    assert_eq!(shared_watch_step(StreamEvent::InitDone).emission, Some(SharedEmission::InitialSyncComplete));
    assert_eq!(shared_watch_step(StreamEvent::Error).next, SharedNext::RetryAfterSecs(5));
    assert_eq!(shared_watch_step(StreamEvent::TimedOut).next, SharedNext::Continue);
    assert_eq!(shared_watch_step(StreamEvent::Ended).next, SharedNext::Stop);
}

#[test]
fn subscribe_join_and_leave() {
    let mut cache: SharedWatchCache<u32> = SharedWatchCache::new();
    let scope = WatchScope::new("prod".to_string());
    assert_eq!(cache.subscribe("pods", &scope, 10), SubscribeDecision::StartNew);
    assert_eq!(cache.active_watch_count(), 0);
    cache.register_watch("pods".to_string(), WatchScope::new("prod".to_string()), 10);
    assert_eq!(cache.subscriber_count("pods", &scope), Some(1));
    assert_eq!(cache.subscribe("pods", &scope, 20), SubscribeDecision::JoinExisting);
    assert_eq!(cache.subscriber_count("pods", &scope), Some(2));
    cache.unsubscribe("pods", &scope);
    assert_eq!(cache.subscriber_count("pods", &scope), Some(1));
    cache.unsubscribe("pods", &scope);
    cache.unsubscribe("pods", &scope);
    assert_eq!(cache.subscriber_count("pods", &scope), Some(0));
    assert_eq!(cache.subscriber_count("nodes", &scope), None);
}

#[test]
fn cached_data_follows_events() {
    let mut cache: SharedWatchCache<u32> = SharedWatchCache::new();
    let scope = WatchScope::new("prod".to_string()).with_namespace(Some("dev".to_string()));
    assert!(cache.get_cached_data("pods", &scope).is_none());
    cache.register_watch("pods".to_string(), WatchScope::new("prod".to_string()).with_namespace(Some("dev".to_string())), 0);
    cache.store_initial_data("pods", &scope, vec![(Some("u1".to_string()), 1), (Some("u2".to_string()), 2)]);
    let key = scope.scope_key();
    cache.apply_event("pods", &key, CacheEvent::Apply { uid: Some("u3".to_string()), item: 3 });
    cache.apply_event("pods", &key, CacheEvent::Delete { uid: Some("u1".to_string()) });
    let data = cache.get_cached_data("pods", &scope).unwrap();
    assert_eq!(data.len(), 2);
    assert_eq!(data.get("u2"), Some(&2));
    assert_eq!(data.get("u3"), Some(&3));
    // a watch of another cluster sees none of it
    let other = WatchScope::new("staging".to_string()).with_namespace(Some("dev".to_string()));
    assert!(cache.get_cached_data("pods", &other).is_none());
}

#[test]
fn watch_limit_is_enforced() {
    let mut cache: SharedWatchCache<u32> = SharedWatchCache::new();
    for i in 0..MAX_SHARED_WATCHES {
        let scope = WatchScope::new(format!("cluster-{}", i));
        assert_eq!(cache.subscribe("pods", &scope, 0), SubscribeDecision::StartNew);
        cache.register_watch("pods".to_string(), scope, 0);
    }
    assert_eq!(cache.active_watch_count(), 50);
    let scope = WatchScope::new("one-more".to_string());
    assert_eq!(cache.subscribe("pods", &scope, 0), SubscribeDecision::LimitReached);
    assert_eq!(cache.subscribe("pods", &WatchScope::new("cluster-3".to_string()), 0), SubscribeDecision::JoinExisting);
}

#[test]
fn idle_watches_without_subscribers_are_dropped() {
    let mut cache: SharedWatchCache<u32> = SharedWatchCache::new();
    let idle = WatchScope::new("idle".to_string());
    let busy = WatchScope::new("busy".to_string());
    let fresh = WatchScope::new("fresh".to_string());
    cache.register_watch("pods".to_string(), WatchScope::new("idle".to_string()), 0);
    cache.register_watch("pods".to_string(), WatchScope::new("busy".to_string()), 0);
    cache.register_watch("pods".to_string(), WatchScope::new("fresh".to_string()), 1_000_000_000_000);
    cache.unsubscribe("pods", &idle);
    cache.unsubscribe("pods", &fresh);
    let now: u128 = 1_200 * 1_000_000_000 + 1;
    let removed = cache.cleanup_idle_watches(now);
    assert_eq!(removed, vec![("pods".to_string(), idle.scope_key())]);
    assert_eq!(cache.active_watch_count(), 2);
    assert!(cache.get_cached_data("pods", &busy).is_some());
    assert!(cache.get_cached_data("pods", &fresh).is_some());
    let mut all = cache.shutdown();
    all.sort();
    assert_eq!(all.len(), 2);
    assert_eq!(cache.active_watch_count(), 0);
}

#[test]
fn watch_events_change_the_cache() {
    let mut cache: KeyedTable<u32> = KeyedTable::new();
    let applied = cache_event_for(StreamEvent::Apply { converted: true }, Some((Some("a".to_string()), 1)));
    assert!(matches!(applied, Some(CacheEvent::Apply { uid: Some(ref u), item: 1 }) if u == "a"));
    apply_cache_event(&mut cache, applied.unwrap());
    let listed = cache_event_for(StreamEvent::InitApply { converted: true }, Some((Some("b".to_string()), 2)));
    apply_cache_event(&mut cache, listed.unwrap());
    assert_eq!(cache.len(), 2);
    let deleted = cache_event_for(StreamEvent::Delete { converted: true }, Some((Some("a".to_string()), 1)));
    assert!(matches!(deleted, Some(CacheEvent::Delete { uid: Some(ref u) }) if u == "a"));
    apply_cache_event(&mut cache, deleted.unwrap());
    assert_eq!(cache.get("a"), None);
    assert_eq!(cache.get("b"), Some(&2));
    assert!(cache_event_for::<u32>(StreamEvent::Apply { converted: false }, None).is_none());
    assert!(cache_event_for::<u32>(StreamEvent::InitDone, None).is_none());
    assert!(cache_event_for::<u32>(StreamEvent::Error, None).is_none());
    let restart = cache_event_for::<u32>(StreamEvent::Init, None);
    assert!(matches!(restart, Some(CacheEvent::Init)));
    apply_cache_event(&mut cache, restart.unwrap());
    assert_eq!(cache.len(), 0);
}

#[test]
fn listed_keys_are_removed_from_a_table() {
    let mut table: KeyedTable<u32> = KeyedTable::new();
    table.insert("a".to_string(), 1);
    table.insert("b".to_string(), 2);
    table.insert("c".to_string(), 3);
    let gone = vec!["c".to_string(), "x".to_string(), "a".to_string(), "c".to_string()];
    assert_eq!(table.remove_keys(&gone), 2);
    assert_eq!(table.keys(), vec!["b".to_string()]);
    assert_eq!(table.remove_keys(&Vec::new()), 0);
}
