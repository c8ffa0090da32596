use sanad_ai::question_processor::{OutOfScopeDetector, QuestionProcessor, ScopeStatus};
use sanad_ai::types::{AIServiceError, QuestionType};

#[test]
fn test_out_of_scope_detection() {
    let processor = QuestionProcessor::new();
    let question = "ما هو أفضل برنامج للبرمجة؟";
    let result = processor.process_question(question);
    assert!(result.is_err());
    assert!(matches!(result.unwrap_err(), AIServiceError::OutOfScopeQuestion(_)));
}

#[test]
fn fasting_question_is_fiqh() {
    let processor = QuestionProcessor::new();
    let processed = processor.process_question("ما حكم صوم يوم الجمعة؟").unwrap();
    assert_eq!(processed.question_type, QuestionType::Fiqh);
    assert!(processed.concepts.contains(&"صوم".to_string()));
    assert!(processed.requires_multiple_sources);
    assert_eq!(processed.normalized_text, "ما حكم صوم يوم الجمعة؟");
}

#[test]
fn test_question_processing() {
    let processor = QuestionProcessor::new();
    let question = "ما حكم الصلاة في المسجد؟";
    let result = processor.process_question(question);
    assert!(result.is_ok());
    let processed = result.unwrap();
    assert_eq!(processed.original_text, question);
    assert!(matches!(processed.question_type, QuestionType::Fiqh));
    assert!(processed.keywords.contains(&"صلاة".to_string()));
    assert!(processed.concepts.contains(&"صلاة".to_string()));
}

#[test]
fn test_controversial_question_handling() {
    let processor = QuestionProcessor::new();
    let question = "ما هو الخلاف في مسألة رفع اليدين في الصلاة؟";
    let result = processor.process_question(question);
    assert!(result.is_ok());
    let processed = result.unwrap();
    assert!(processed.is_controversial);
    assert!(processed.requires_multiple_sources);
    assert!(matches!(processed.question_type, QuestionType::Fiqh));
}

#[test]
fn test_out_of_scope_fallback() {
    let out_of_scope_detector = OutOfScopeDetector::new();

    let tech_question = "كيف أبرمج تطبيق للهاتف الذكي؟";
    let analysis = out_of_scope_detector.get_scope_analysis(tech_question);
    assert_eq!(analysis.scope_status, ScopeStatus::OutOfScope);
    assert!(!analysis.out_of_scope_keywords.is_empty());
    let fallback = out_of_scope_detector.generate_fallback_response(&analysis);
    assert!(fallback.contains("تخصصي في الشؤون الإسلامية"));

    let borderline_question = "ما هو حكم الطب في الإسلام؟";
    let borderline_analysis = out_of_scope_detector.get_scope_analysis(borderline_question);
    assert_eq!(borderline_analysis.scope_status, ScopeStatus::Borderline);
    assert!(borderline_analysis.suggested_islamic_angle.is_some());

    let islamic_question = "ما هي أركان الصلاة؟";
    let islamic_analysis = out_of_scope_detector.get_scope_analysis(islamic_question);
    assert_eq!(islamic_analysis.scope_status, ScopeStatus::InScope);
    assert!(!islamic_analysis.islamic_keywords.is_empty());
}

#[test]
fn cooking_question_is_refused() {
    let processor = QuestionProcessor::new();
    let result = processor.process_question("كيف أطبخ الأرز؟");
    assert!(matches!(result, Err(AIServiceError::OutOfScopeQuestion(_))));
}

#[test]
fn keywords_drop_the_article_but_keep_short_words() {
    let processor = QuestionProcessor::new();
    let processed = processor.process_question("ما فضل ذكر الله في المسجد الحرام؟").unwrap();
    assert!(processed.keywords.contains(&"مسجد".to_string()));
    assert!(processed.keywords.contains(&"الله".to_string()));
}
