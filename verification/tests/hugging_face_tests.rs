use std::collections::HashMap;
use sanad_ai::hugging_face::{
    build_islamic_prompt, check_client_config, embedding_request, model_status, model_url, model_wait_error,
    retry_pause_ms, HuggingFaceConfig, ModelStatus, RateDecision, RateLimiter, RequestOptions,
};
use sanad_ai::types::{AIServiceError, AuthenticityLevel, IslamicSource, Language, SourceType};

#[test]
fn test_islamic_prompt_building() {
    let sources = vec![IslamicSource {
        id: "test1".to_string(),
        content_type: SourceType::Quran,
        text: "بسم الله الرحمن الرحيم".to_string(),
        reference: "الفاتحة: 1".to_string(),
        author: None,
        authenticity: AuthenticityLevel::Verified,
        language: Language::Arabic,
        metadata: HashMap::new(),
        created_at: 0,
    }];
    let prompt = build_islamic_prompt("سياق السؤال", "ما معنى البسملة؟", &sources);
    assert!(prompt.contains("أنت مساعد ذكي متخصص في الشؤون الإسلامية"));
    assert!(prompt.contains("بسم الله الرحمن الرحيم"));
    assert!(prompt.contains("ما معنى البسملة؟"));
}

#[test]
fn prompt_lists_sources_with_their_authenticity() {
    let sources = vec![IslamicSource {
        id: "h".to_string(),
        content_type: SourceType::SahihHadith,
        text: "إنما الأعمال بالنيات".to_string(),
        reference: "البخاري: 1".to_string(),
        author: Some("البخاري".to_string()),
        authenticity: AuthenticityLevel::Reliable,
        language: Language::Arabic,
        metadata: HashMap::new(),
        created_at: 0,
    }];
    let prompt = build_islamic_prompt("", "سؤال", &sources);
    assert!(!prompt.contains("السياق:"));
    assert!(prompt.contains("المصادر الموثوقة:\n1. البخاري: 1 - إنما الأعمال بالنيات\n   المؤلف: البخاري\n   درجة الموثوقية: Reliable\n\n"));
    assert!(prompt.ends_with("السؤال: سؤال\n\nالإجابة: "));
}

#[test]
fn client_needs_a_key() {
    let config = HuggingFaceConfig::with_api_key(String::new());
    assert_eq!(
        check_client_config(&config),
        Err(AIServiceError::ConfigurationError("Hugging Face API key is required".to_string()))
    );
    let config = HuggingFaceConfig::with_api_key("test_key".to_string());
    assert!(check_client_config(&config).is_ok());
    assert_eq!(config.requests_per_minute, 60);
    assert_eq!(model_url(&config.base_url, "m"), "https://api-inference.huggingface.co/models/m");
}

#[test]
fn retry_pauses_grow_by_a_second() {
    assert_eq!(retry_pause_ms(1, 3), Some(1000));
    assert_eq!(retry_pause_ms(2, 3), Some(2000));
    assert_eq!(retry_pause_ms(3, 3), None);
}

#[test]
fn model_status_from_reply() {
    assert_eq!(model_status(true, 200), ModelStatus::Ready);
    assert_eq!(model_status(false, 503), ModelStatus::Loading);
    assert_eq!(model_status(false, 404), ModelStatus::Failed);
    assert_eq!(
        model_wait_error("m", 30),
        AIServiceError::ExternalAPIError("Model m did not become ready within 30 seconds".to_string())
    );
}

#[test]
fn request_options_and_embeddings() {
    let o = RequestOptions::default();
    assert!(o.wait_for_model && o.use_cache);
    let r = embedding_request(vec!["نص".to_string()]);
    assert_eq!(r.inputs, vec!["نص".to_string()]);
    assert!(r.options.use_cache);
}

#[test]
fn limiter_waits_when_the_window_is_full() {
    let mut limiter = RateLimiter::new(2);
    let now = std::time::Instant::now();
    assert_eq!(limiter.check_request_at(now, 1_000), RateDecision::Proceed);
    assert_eq!(limiter.check_request_at(now, 2_000), RateDecision::Proceed);
    assert_eq!(limiter.check_request_at(now, 10_000_000_000), RateDecision::Wait { nanos: 50_000_000_000 });
    assert_eq!(limiter.current_count, 2);
    limiter.finish_wait(now);
    assert_eq!(limiter.current_count, 1);
    assert_eq!(limiter.check_request_at(now, 60_000_000_000), RateDecision::Proceed);
    assert_eq!(limiter.current_count, 1);
}
