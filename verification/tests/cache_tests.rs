//! Cache behavior: storing, expiry, invalidation and clearing, driven
//! by an explicit clock in milliseconds.

use ayiah::cache::{CacheKey, ScraperCache};

fn key(provider: &str, media_type: &str, query: &str) -> CacheKey {
    CacheKey::new(provider.to_string(), media_type.to_string(), query.to_string())
}

#[test]
fn test_cache_set_and_get() {
    let mut cache = ScraperCache::new();
    let k = key("tmdb", "movie", "test");
    let value = serde_json::to_vec(&vec!["movie1".to_string(), "movie2".to_string()]).unwrap();

    cache.set(k.clone(), value.clone(), 0);
    let cached = cache.get(&k, 1);

    assert_eq!(cached, Some(value));
}

#[test]
fn test_cache_expiration() {
    // 1 second TTL
    let mut cache = ScraperCache::with_config(1, 1000);
    let k = key("tmdb", "movie", "test");
    let value = serde_json::to_vec(&vec!["movie1".to_string()]).unwrap();

    cache.set(k.clone(), value, 0);

    // Should succeed immediately
    assert!(cache.get(&k, 0).is_some());

    // Should return None after expiration (2 seconds later)
    assert!(cache.get(&k, 2000).is_none());
}

#[test]
fn test_cache_invalidate() {
    let mut cache = ScraperCache::new();
    let k = key("tmdb", "movie", "test");
    let value = serde_json::to_vec(&vec!["movie1".to_string()]).unwrap();

    cache.set(k.clone(), value, 0);
    assert!(cache.get(&k, 0).is_some());

    cache.invalidate(&k);
    assert!(cache.get(&k, 0).is_none());
}

#[test]
fn test_cache_clear() {
    let mut cache = ScraperCache::new();
    let k1 = key("tmdb", "movie", "test1");
    let k2 = key("tmdb", "movie", "test2");

    cache.set(k1.clone(), serde_json::to_vec(&vec!["movie1".to_string()]).unwrap(), 0);
    cache.set(k2.clone(), serde_json::to_vec(&vec!["movie2".to_string()]).unwrap(), 0);

    // Verify cache contains data
    assert!(cache.get(&k1, 0).is_some());
    assert!(cache.get(&k2, 0).is_some());

    // Clear cache
    cache.clear();

    // Verify cache is empty
    assert!(cache.get(&k1, 0).is_none());
    assert!(cache.get(&k2, 0).is_none());
    assert_eq!(cache.len(), 0);
}

#[test]
fn test_cache_eviction_at_capacity() {
    let mut cache = ScraperCache::with_config(3600, 2);
    cache.set(key("tmdb", "movie", "a"), vec![1], 0);
    cache.set(key("tmdb", "movie", "b"), vec![2], 10);
    // Touch "a" so that "b" is the least recently used entry.
    assert!(cache.get(&key("tmdb", "movie", "a"), 20).is_some());
    cache.set(key("tmdb", "movie", "c"), vec![3], 30);
    assert_eq!(cache.len(), 2);
    assert!(cache.get(&key("tmdb", "movie", "b"), 40).is_none());
    assert!(cache.get(&key("tmdb", "movie", "a"), 40).is_some());
    assert!(cache.get(&key("tmdb", "movie", "c"), 40).is_some());
}

#[test]
fn test_cache_maintenance_drops_expired() {
    let mut cache = ScraperCache::with_config(1, 100);
    cache.set(key("tmdb", "movie", "old"), vec![1], 0);
    cache.set(key("tmdb", "movie", "fresh"), vec![2], 1500);
    assert_eq!(cache.len(), 2);
    cache.run_pending_tasks(2000);
    assert_eq!(cache.len(), 1);
    assert!(cache.get(&key("tmdb", "movie", "fresh"), 2000).is_some());
}
