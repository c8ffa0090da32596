use sanad_ai::anti_hallucination::ResponseRecommendation;
use sanad_ai::hugging_face::HuggingFaceConfig;
use sanad_ai::integration::{model_order, FallbackConfig};
use sanad_ai::rag::{cited_positions, finalize_review, usage_after_hadith_check, DetailLevel as RagDetailLevel, ReviewOutcome};
use sanad_ai::religious_query::{rag_preferences, DetailLevel, ReligiousQueryRequest};
use sanad_ai::source_scorer::SourceUsageRecommendation;
use sanad_ai::types::{AIServiceError, Language, SourceType};

fn outcome(recommendation: ResponseRecommendation, unsupported: bool, fabricated: bool) -> Option<ReviewOutcome> {
    Some(ReviewOutcome { recommendation, has_unsupported_claims: unsupported, has_fabricated_content: fabricated })
}

#[test]
fn rejected_answer_is_refused() {
    let r = finalize_review(outcome(ResponseRecommendation::Reject, false, false), &vec![SourceType::Quran]);
    assert_eq!(r, Err(AIServiceError::HallucinationDetected("تم اكتشاف محتوى مختلق في الإجابة".to_string())));
}

#[test]
fn human_review_lowers_confidence_and_warns() {
    let (warnings, factor) =
        finalize_review(outcome(ResponseRecommendation::RequestHumanReview, true, true), &vec![SourceType::DaifHadith]).unwrap();
    assert_eq!(factor, 7);
    assert_eq!(
        warnings,
        vec![
            "هذه الإجابة تحتاج مراجعة بشرية".to_string(),
            "بعض المعلومات تحتاج مصادر إضافية".to_string(),
            "تم اكتشاف محتوى قد يكون غير دقيق".to_string(),
            "تحتوي الإجابة على أحاديث ضعيفة - يرجى التحقق".to_string(),
        ]
    );
}

#[test]
fn factors_follow_the_recommendation() {
    let f = |r| finalize_review(outcome(r, false, false), &vec![]).unwrap().1;
    assert_eq!(f(ResponseRecommendation::RequireRevision), 8);
    assert_eq!(f(ResponseRecommendation::ApproveWithWarning), 9);
    assert_eq!(f(ResponseRecommendation::Approve), 10);
    assert_eq!(finalize_review(None, &vec![SourceType::Quran]), Ok((vec![], 10)));
}

#[test]
fn primary_and_supporting_sources_are_cited() {
    let usages = vec![
        SourceUsageRecommendation::Reference,
        SourceUsageRecommendation::Primary,
        SourceUsageRecommendation::Cautionary,
        SourceUsageRecommendation::Supporting,
        SourceUsageRecommendation::Excluded,
    ];
    assert_eq!(cited_positions(&usages), vec![1, 3]);
}

#[test]
fn hidden_hadith_becomes_cautionary() {
    let primary = SourceUsageRecommendation::Primary;
    assert_eq!(usage_after_hadith_check(SourceType::SahihHadith, primary, Some(false)), SourceUsageRecommendation::Cautionary);
    assert_eq!(usage_after_hadith_check(SourceType::SahihHadith, primary, Some(true)), primary);
    assert_eq!(usage_after_hadith_check(SourceType::DaifHadith, primary, None), primary);
    assert_eq!(usage_after_hadith_check(SourceType::Quran, primary, Some(false)), primary);
}

#[test]
fn default_model_comes_before_fallbacks() {
    let hf = HuggingFaceConfig::with_api_key("k".to_string());
    let mut fallback = FallbackConfig::default();
    let order = model_order(&hf.default_model, &fallback);
    assert_eq!(order.len(), 3);
    assert_eq!(order[0], hf.default_model);
    assert_eq!(order[1], "aubmindlab/bert-base-arabertv02");
    fallback.enable_fallback = false;
    assert_eq!(model_order(&"m".to_string(), &fallback), vec!["m".to_string()]);
}

#[test]
fn preferences_of_a_request() {
    let request = ReligiousQueryRequest {
        question: "ما حكم الصلاة؟".to_string(),
        user_id: None,
        context: None,
        preferred_sources: Some(vec![SourceType::Quran, SourceType::Tafsir]),
        language: None,
        detail_level: Some(DetailLevel::Scholarly),
        include_multiple_opinions: None,
        max_response_time_seconds: None,
    };
    let p = rag_preferences(&request, false, true);
    assert_eq!(p.preferred_sources, vec![SourceType::Quran, SourceType::Tafsir]);
    assert_eq!(p.language, Language::Arabic);
    assert_eq!(p.detail_level, RagDetailLevel::Scholarly);
    assert!(p.include_multiple_opinions);
    let p = rag_preferences(&request, false, false);
    assert!(!p.include_multiple_opinions);
    let asked = ReligiousQueryRequest { include_multiple_opinions: Some(false), language: Some(Language::English), ..request };
    let p = rag_preferences(&asked, true, true);
    assert!(!p.include_multiple_opinions);
    assert_eq!(p.language, Language::English);
}
