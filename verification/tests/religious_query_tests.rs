use std::collections::HashMap;
use sanad_ai::religious_query::{
    add_post_process_warnings, build_citations, language_request_name, preferred_type_names, source_from_retrieved,
    DetailLevel, ReligiousQueryProcessor, ReligiousQueryRequest, ReviewFindings,
};
use sanad_ai::types::{
    CitationType, AIServiceError, AuthenticityLevel, ComplexityLevel, IslamicSource, Language, ProcessedQuestion, QuestionType,
    SourceType,
};

fn source(id: &str, content_type: SourceType, text: &str, reference: &str, author: Option<&str>) -> IslamicSource {
    IslamicSource {
        id: id.to_string(),
        content_type,
        text: text.to_string(),
        reference: reference.to_string(),
        author: author.map(|a| a.to_string()),
        authenticity: AuthenticityLevel::Verified,
        language: Language::Arabic,
        metadata: HashMap::new(),
        created_at: 0,
    }
}

fn request(question: &str, max_time: Option<u64>) -> ReligiousQueryRequest {
    ReligiousQueryRequest {
        question: question.to_string(),
        user_id: None,
        context: None,
        preferred_sources: None,
        language: None,
        detail_level: None,
        include_multiple_opinions: None,
        max_response_time_seconds: max_time,
    }
}

#[test]
fn religious_query_processor_tests_test_citation_formatting() {
    let processor = ReligiousQueryProcessor::new();

    let quran_source = source("quran_test", SourceType::Quran, "بسم الله الرحمن الرحيم", "الفاتحة: 1", None);
    let citation = processor.format_citation(&quran_source);
    assert!(citation.contains("القرآن الكريم"));
    assert!(citation.contains("الفاتحة: 1"));

    let hadith_source =
        source("hadith_test", SourceType::SahihHadith, "إنما الأعمال بالنيات", "صحيح البخاري: 1", Some("البخاري"));
    let citation = processor.format_citation(&hadith_source);
    assert!(citation.contains("البخاري"));
    assert!(citation.contains("صحيح البخاري: 1"));
}

#[test]
fn religious_query_processor_tests_test_islamic_courtesy_addition() {
    let processor = ReligiousQueryProcessor::new();

    let answer_without_courtesy = "الصلاة هي الركن الثاني من أركان الإسلام";
    let enhanced_answer = processor.add_islamic_courtesy(answer_without_courtesy);
    assert!(enhanced_answer.contains("والله أعلم"));

    let answer_with_courtesy = "الصلاة هي الركن الثاني من أركان الإسلام والله أعلم";
    let enhanced_answer = processor.add_islamic_courtesy(answer_with_courtesy);
    let courtesy_count = enhanced_answer.matches("والله أعلم").count();
    assert!(courtesy_count <= 2);

    let quran_answer = "قال الله تعالى: وأقيموا الصلاة";
    let enhanced_answer = processor.add_islamic_courtesy(quran_answer);
    assert!(enhanced_answer.contains("بسم الله الرحمن الرحيم"));
}

#[test]
fn religious_query_processor_test_islamic_courtesy_addition() {
    let processor = ReligiousQueryProcessor::new();
    let answer_without_courtesy = "الصلاة هي الركن الثاني من أركان الإسلام";
    let enhanced_answer = processor.add_islamic_courtesy(answer_without_courtesy);
    assert!(enhanced_answer.contains("والله أعلم"));
}

#[test]
fn religious_query_processor_test_citation_formatting() {
    let processor = ReligiousQueryProcessor::new();
    let quran_source = source("test_quran", SourceType::Quran, "بسم الله الرحمن الرحيم", "الفاتحة: 1", None);
    let citation = processor.format_citation(&quran_source);
    assert!(citation.contains("القرآن الكريم"));
    assert!(citation.contains("الفاتحة: 1"));
}

#[test]
fn test_query_validation() {
    let processor = ReligiousQueryProcessor::new();
    let mut valid_request = request("ما هي أركان الإسلام؟", None);
    valid_request.user_id = Some("test_user".to_string());
    valid_request.language = Some(Language::Arabic);
    valid_request.detail_level = Some(DetailLevel::Standard);
    assert!(processor.validate_request(&valid_request).is_ok());

    let invalid_request = request("", None);
    assert!(processor.validate_request(&invalid_request).is_err());
}

#[test]
fn test_request_validation() {
    let processor = ReligiousQueryProcessor::new();
    assert!(processor.validate_request(&request("ما هي أركان الإسلام؟", None)).is_ok());
    assert!(processor.validate_request(&request("", None)).is_err());
    assert!(processor.validate_request(&request(&"ا".repeat(1001), None)).is_err());
}

#[test]
fn validation_errors_name_their_cause() {
    let processor = ReligiousQueryProcessor::new();
    assert_eq!(
        processor.validate_request(&request("   \n ", None)),
        Err(AIServiceError::QuestionProcessingError("السؤال لا يمكن أن يكون فارغاً".to_string()))
    );
    assert_eq!(
        processor.validate_request(&request(&"ا".repeat(501), None)),
        Err(AIServiceError::QuestionProcessingError("السؤال طويل جداً. يرجى تقصيره.".to_string()))
    );
    assert!(processor.validate_request(&request(&"ا".repeat(500), None)).is_ok());
    assert_eq!(
        processor.validate_request(&request("سؤال", Some(301))),
        Err(AIServiceError::QuestionProcessingError("وقت الاستجابة المطلوب طويل جداً".to_string()))
    );
    assert!(processor.validate_request(&request("سؤال", Some(300))).is_ok());
}

#[test]
fn test_related_questions_generation() {
    let processor = ReligiousQueryProcessor::new();
    let processed_question = ProcessedQuestion {
        original_text: "ما هي أركان الإسلام؟".to_string(),
        normalized_text: "ما هي أركان الإسلام".to_string(),
        keywords: vec!["أركان".to_string(), "إسلام".to_string()],
        concepts: vec!["إسلام".to_string(), "صلاة".to_string()],
        question_type: QuestionType::General,
        complexity_level: ComplexityLevel::Simple,
        language: Language::Arabic,
        is_controversial: false,
        requires_multiple_sources: false,
    };
    let sources = vec![source(
        "test_source",
        SourceType::SahihHadith,
        "بني الإسلام على خمس",
        "صحيح البخاري",
        Some("البخاري"),
    )];
    let related_questions = processor.generate_related_questions(&processed_question, &sources);
    assert!(!related_questions.is_empty());
    assert!(related_questions.len() <= 3);
}

#[test]
fn related_questions_are_the_first_sorted() {
    let processor = ReligiousQueryProcessor::new();
    let q = ProcessedQuestion {
        original_text: "س".to_string(),
        normalized_text: "س".to_string(),
        keywords: vec![],
        concepts: vec!["صلاة".to_string(), "صلاة".to_string()],
        question_type: QuestionType::Sirah,
        complexity_level: ComplexityLevel::Simple,
        language: Language::Arabic,
        is_controversial: false,
        requires_multiple_sources: false,
    };
    let mut expected = vec![
        "ما هي الدروس المستفادة من هذا الحدث؟".to_string(),
        "متى وقع هذا الحدث؟".to_string(),
        "ما هي شروط صحة الصلاة؟".to_string(),
        "كيف نصلي الصلاة الصحيحة؟".to_string(),
    ];
    expected.sort();
    expected.dedup();
    expected.truncate(3);
    assert_eq!(processor.generate_related_questions(&q, &vec![]), expected);
}

#[test]
fn citations_by_kind_of_source() {
    let processor = ReligiousQueryProcessor::new();
    assert_eq!(
        processor.format_citation(&source("t", SourceType::Tafsir, "", "الفاتحة", Some("ابن كثير"))),
        "تفسير ابن كثير: الفاتحة"
    );
    assert_eq!(processor.format_citation(&source("t", SourceType::Tafsir, "", "الفاتحة", None)), "تفسير: الفاتحة");
    assert_eq!(
        processor.format_citation(&source("f", SourceType::FiqhRuling, "", "المغني", Some("ابن قدامة"))),
        "فتوى ابن قدامة: المغني"
    );
    assert_eq!(processor.format_citation(&source("h", SourceType::DaifHadith, "", "سنن", None)), "سنن");
}

#[test]
fn courtesy_is_added_once() {
    let processor = ReligiousQueryProcessor::new();
    assert_eq!(processor.add_islamic_courtesy("جواب"), "جواب\n\nوالله أعلم.");
    assert_eq!(processor.add_islamic_courtesy("جواب والله أعلم"), "جواب والله أعلم");
    assert_eq!(
        processor.add_islamic_courtesy("قال الله تعالى: اقرأ"),
        "بسم الله الرحمن الرحيم\n\nقال الله تعالى: اقرأ\n\nوالله أعلم."
    );
}

#[test]
fn question_is_analysed_or_refused() {
    let processor = ReligiousQueryProcessor::new();
    let ok = processor.prepare_query("ما حكم صوم يوم الجمعة؟").unwrap();
    assert_eq!(ok.question_type, QuestionType::Fiqh);
    let refused = processor.prepare_query("ما هو أفضل برنامج للبرمجة؟");
    assert!(matches!(refused, Err(AIServiceError::OutOfScopeQuestion(_))));
}

#[test]
fn citations_are_numbered_from_one() {
    let sources = vec![
        source("q", SourceType::Quran, "نص", "البقرة: 255", None),
        source("t", SourceType::Tafsir, "نص", "سورة البقرة", Some("ابن كثير")),
    ];
    let citations = build_citations(&sources);
    assert_eq!(citations.len(), 2);
    assert_eq!(citations[0].id, "cite_1");
    assert_eq!(citations[1].id, "cite_2");
    assert_eq!(citations[0].citation_text, "القرآن الكريم، البقرة: 255");
    assert_eq!(citations[1].citation_text, "تفسير ابن كثير: سورة البقرة");
    assert_eq!(citations[1].source.id, "t");
    assert_eq!(citations[0].relevance_hundredths, 80);
    assert_eq!(citations[0].usage_type, CitationType::Primary);
    let processor = ReligiousQueryProcessor::new();
    assert_eq!(processor.generate_citations(&sources).len(), 2);
}

#[test]
fn warnings_of_a_reviewed_answer() {
    let weak = vec![source("d", SourceType::DaifHadith, "نص", "مرجع", None)];
    let mut warnings: Vec<String> = Vec::new();
    let findings = ReviewFindings { high_risk: true, has_unsupported_claims: false, has_fabricated_content: true };
    add_post_process_warnings(&mut warnings, true, Some(findings), true, true, true, &weak);
    assert_eq!(
        warnings,
        vec![
            "تم اكتشاف مخاطر محتملة في الإجابة. يرجى التحقق من المصادر.".to_string(),
            "تم اكتشاف محتوى قد يكون غير دقيق.".to_string(),
            "هذا الموضوع خلافي. يُنصح بمراجعة آراء العلماء المختلفة.".to_string(),
            "مستوى الثقة في الإجابة منخفض. يُنصح بمراجعة المصادر الإضافية.".to_string(),
            "تحتوي الإجابة على مصادر ضعيفة. يرجى التحقق من صحتها.".to_string(),
        ]
    );
    let mut warnings: Vec<String> = Vec::new();
    add_post_process_warnings(&mut warnings, true, None, true, false, false, &Vec::new());
    assert_eq!(warnings, vec!["لم يتم التحقق من دقة الإجابة بالكامل.".to_string()]);
    let mut warnings: Vec<String> = Vec::new();
    add_post_process_warnings(&mut warnings, false, None, false, true, false, &Vec::new());
    assert!(warnings.is_empty());
}

#[test]
fn requests_and_answers_of_the_integration_service() {
    assert_eq!(
        preferred_type_names(&Some(vec![SourceType::Quran, SourceType::SahihHadith])),
        Some(vec!["Quran".to_string(), "SahihHadith".to_string()])
    );
    assert_eq!(preferred_type_names(&None), None);
    assert_eq!(language_request_name(&Some(Language::Arabic)), Some("Arabic".to_string()));
    let s = source_from_retrieved(
        "x".to_string(),
        "hadith",
        "نص".to_string(),
        "مرجع".to_string(),
        None,
        "reliable",
        5,
    );
    assert_eq!(s.content_type, SourceType::SahihHadith);
    assert_eq!(s.authenticity, AuthenticityLevel::Reliable);
    assert_eq!(s.created_at, 5);
    let s = source_from_retrieved("y".to_string(), "book", String::new(), String::new(), None, "weak", 0);
    assert_eq!(s.content_type, SourceType::ScholarOpinion);
    assert_eq!(s.authenticity, AuthenticityLevel::Unknown);
}

#[test]
fn courtesy_puts_the_basmala_before_a_quoted_verse_and_closes_once() {
    let processor = ReligiousQueryProcessor::new();
    let answer = "قال الله تعالى: وأقيموا الصلاة";
    let r = processor.add_islamic_courtesy(answer);
    assert_eq!(r, format!("بسم الله الرحمن الرحيم\n\n{}\n\nوالله أعلم.", answer));
    assert_eq!(r.matches("والله أعلم").count(), 1);
    assert_eq!(processor.add_islamic_courtesy(&r), r);
    let opened = "بسم الله، قال الله تعالى: وأقيموا الصلاة والله أعلم";
    assert_eq!(processor.add_islamic_courtesy(opened), opened);
}
