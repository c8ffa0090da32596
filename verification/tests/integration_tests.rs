use sanad_ai::hugging_face::HuggingFaceConfig;
use sanad_ai::integration::{
    build_context_for_generation, build_vector_filter, distance_metric_from_name, CacheConfig, FallbackConfig,
    FallbackHandler, IntegrationConfig, RateLimitConfig, SourceSummary,
};
use sanad_ai::vector_store::DistanceMetric;

#[test]
fn test_rate_limiting_config() {
    let config = IntegrationConfig::with_hugging_face(HuggingFaceConfig::with_api_key("k".to_string()));
    assert_eq!(config.rate_limiting.requests_per_minute, 60);
    assert_eq!(config.rate_limiting.requests_per_hour, 1000);
    assert_eq!(config.rate_limiting.burst_limit, 10);
    assert!(config.rate_limiting.enable_adaptive_rate_limiting);
}

#[test]
fn default_cache_and_fallback_settings() {
    let cache = CacheConfig::default();
    assert_eq!(cache.query_cache_ttl_seconds, 3600);
    assert_eq!(cache.max_cache_size, 10000);
    let fallback = FallbackConfig::default();
    assert_eq!(fallback.fallback_models.len(), 2);
    assert_eq!(fallback.offline_responses.get("default").map(|s| s.contains("الخدمة")), Some(true));
    assert_eq!(RateLimitConfig::default().burst_limit, 10);
}

#[test]
fn test_vector_filter_building() {
    let preferred_source_types = Some(vec!["quran".to_string(), "hadith".to_string()]);
    let language = Some("Arabic".to_string());
    assert!(preferred_source_types.is_some());
    assert!(language.is_some());
    let filter = build_vector_filter(&preferred_source_types, &language).unwrap();
    assert_eq!(filter.content_types, Some(vec!["quran".to_string(), "hadith".to_string()]));
    assert_eq!(filter.languages, Some(vec!["Arabic".to_string()]));
    assert!(filter.sources.is_none());
    assert!(build_vector_filter(&None, &None).is_none());
}

#[test]
fn fallback_after_three_failures() {
    let mut handler = FallbackHandler::new(FallbackConfig::default());
    assert!(!handler.should_use_fallback("model"));
    handler.record_failure("model");
    handler.record_failure("model");
    handler.record_failure("other");
    assert!(!handler.should_use_fallback("model"));
    handler.record_failure("model");
    assert!(handler.should_use_fallback("model"));
    assert!(!handler.should_use_fallback("other"));
}

#[test]
fn fallback_after_any_number_of_failures_from_three_on() {
    let mut handler = FallbackHandler::new(FallbackConfig::default());
    for k in 1..=6 {
        handler.record_failure("model");
        handler.record_failure("other");
        assert_eq!(handler.should_use_fallback("model"), k >= 3);
    }
}

#[test]
fn distance_names() {
    assert_eq!(distance_metric_from_name("Dot"), DistanceMetric::Dot);
    assert_eq!(distance_metric_from_name("Euclidean"), DistanceMetric::Euclidean);
    assert_eq!(distance_metric_from_name("anything"), DistanceMetric::Cosine);
}

#[test]
fn generation_context_lists_sources() {
    let sources = vec![SourceSummary {
        reference: "البقرة: 43".to_string(),
        text: "وأقيموا الصلاة".to_string(),
        author: None,
        authenticity: "verified".to_string(),
        source_type: "quran".to_string(),
    }];
    let text = build_context_for_generation("ما حكم الصلاة؟", &Some("سياق".to_string()), &sources);
    assert!(text.contains("السياق:\nسياق\n\n"));
    assert!(text.contains("1. البقرة: 43 - وأقيموا الصلاة\n   درجة الموثوقية: verified\n   نوع المصدر: quran\n\n"));
    assert!(text.ends_with("السؤال: ما حكم الصلاة؟\n\nالإجابة: "));
}
