use sanad_ai::cache::{CacheManager, TtlCache};
use sanad_ai::integration::CacheConfig;

#[test]
fn read_gives_back_write_until_expiry() {
    let mut cache: TtlCache<u32> = TtlCache::new(60, 10);
    cache.insert_at("a", 7, 1_000);
    assert_eq!(cache.get_at("a", 1_000), Some(&7));
    assert_eq!(cache.get_at("a", 60_999), Some(&7));
    assert_eq!(cache.get_at("a", 61_000), None);
    assert_eq!(cache.get_at("b", 1_000), None);
}

#[test]
fn rewrite_replaces_value_and_time() {
    let mut cache: TtlCache<u32> = TtlCache::new(60, 10);
    cache.insert_at("a", 7, 0);
    cache.insert_at("a", 8, 50_000);
    assert_eq!(cache.len(), 1);
    assert_eq!(cache.get_at("a", 100_000), Some(&8));
}

#[test]
fn zero_time_to_live_keeps_nothing_readable() {
    let mut cache: TtlCache<u32> = TtlCache::new(0, 10);
    cache.insert_at("a", 7, 5);
    assert_eq!(cache.get_at("a", 5), None);
}

#[test]
fn full_cache_lets_one_value_go() {
    let mut cache: TtlCache<u32> = TtlCache::new(60, 2);
    cache.insert_at("a", 1, 0);
    cache.insert_at("b", 2, 0);
    cache.insert_at("c", 3, 0);
    assert_eq!(cache.len(), 2);
    assert_eq!(cache.get_at("c", 0), Some(&3));
    let kept = [cache.get_at("a", 0).is_some(), cache.get_at("b", 0).is_some()];
    assert_eq!(kept.iter().filter(|k| **k).count(), 1);
}

#[test]
fn zero_capacity_still_holds_one_value() {
    let mut cache: TtlCache<u32> = TtlCache::new(60, 0);
    cache.insert_at("a", 1, 0);
    cache.insert_at("b", 2, 0);
    assert_eq!(cache.len(), 1);
    assert_eq!(cache.get_at("b", 0), Some(&2));
}

#[test]
fn manager_caches_responses_and_embeddings() {
    let mut manager: CacheManager<String, Vec<u32>> = CacheManager::new(CacheConfig::default());
    manager.cache_response("k", "جواب".to_string());
    assert_eq!(manager.get_cached_response("k"), Some(&"جواب".to_string()));
    assert_eq!(manager.get_cached_response("other"), None);
    manager.cache_embedding_at("نص", vec![1, 2], 0);
    assert_eq!(manager.get_cached_embedding_at("نص", 7_199_999), Some(&vec![1, 2]));
    assert_eq!(manager.get_cached_embedding_at("نص", 7_200_000), None);
    assert!(manager.is_healthy());
}

fn test_cache_config() -> CacheConfig {
    CacheConfig {
        enable_query_cache: true,
        enable_response_cache: true,
        enable_embedding_cache: true,
        query_cache_ttl_seconds: 3600,
        response_cache_ttl_seconds: 1800,
        embedding_cache_ttl_seconds: 7200,
        max_cache_size: 1000,
        redis_url: None,
    }
}

#[test]
fn test_cache_ttl_and_eviction() {
    let mut cache_manager: CacheManager<(String, f32), Vec<f32>> = CacheManager::new(test_cache_config());
    cache_manager.cache_response("test_key", ("test_response".to_string(), 0.8));
    assert!(cache_manager.get_cached_response("test_key").is_some());
}

#[test]
fn test_cache_memory_usage() {
    let mut cache_manager: CacheManager<(String, f32), Vec<f32>> = CacheManager::new(test_cache_config());
    let max_size = 100;
    for i in 0..max_size {
        let key = format!("test_key_{}", i);
        let response = format!("test_response_{}", i);
        cache_manager.cache_response(&key, (response, 0.8));
    }
    assert!(cache_manager.responses.len() <= 1000);
}

#[test]
fn full_cache_lets_the_oldest_value_go() {
    let mut cache: TtlCache<u32> = TtlCache::new(1_000, 2);
    cache.insert_at("a", 1, 0);
    cache.insert_at("b", 2, 10);
    cache.insert_at("a", 3, 20);
    cache.insert_at("c", 4, 30);
    assert_eq!(cache.len(), 2);
    assert_eq!(cache.get_at("a", 40), Some(&3));
    assert_eq!(cache.get_at("b", 40), None);
    assert_eq!(cache.get_at("c", 40), Some(&4));
}

#[test]
fn a_write_keeps_the_other_values() {
    let mut cache: TtlCache<u32> = TtlCache::new(1_000, 10);
    cache.insert_at("a", 1, 0);
    cache.insert_at("b", 2, 10);
    cache.insert("c", 3);
    assert_eq!(cache.get_at("a", 20), Some(&1));
    assert_eq!(cache.get_at("b", 20), Some(&2));
}
