use std::collections::HashMap;
use sanad_ai::multiple_viewpoints::{extract_scholars, generate_reasoning, is_famous_scholar, InternalGuidanceGenerator, IslamicMadhab, SourceReliabilityEvaluator};
use sanad_ai::types::{AuthenticityLevel, IslamicSource, Language, QuestionType, SourceType};

fn source(content_type: SourceType, authenticity: AuthenticityLevel, author: Option<&str>) -> IslamicSource {
    IslamicSource {
        id: "r1".to_string(),
        content_type,
        text: "نص".to_string(),
        reference: "مرجع".to_string(),
        author: author.map(|a| a.to_string()),
        authenticity,
        language: Language::Arabic,
        metadata: HashMap::new(),
        created_at: 0,
    }
}

#[test]
fn reliability_reasons_of_a_sahih_hadith_by_a_famous_scholar() {
    let factors = SourceReliabilityEvaluator::new()
        .reliability_factors(&source(SourceType::SahihHadith, AuthenticityLevel::Verified, Some("البخاري")));
    assert_eq!(factors, vec!["حديث صحيح".to_string(), "مصدر محقق".to_string(), "مؤلف مشهور: البخاري".to_string()]);
}

#[test]
fn unknown_authenticity_and_other_author_give_no_reason() {
    let factors = SourceReliabilityEvaluator::new()
        .reliability_factors(&source(SourceType::ScholarOpinion, AuthenticityLevel::Unknown, Some("عالم")));
    assert!(factors.is_empty());
    let factors = SourceReliabilityEvaluator::new()
        .reliability_factors(&source(SourceType::MawduHadith, AuthenticityLevel::Unreliable, None));
    assert_eq!(factors, vec!["حديث موضوع - غير موثوق".to_string(), "مصدر غير موثوق".to_string()]);
}

#[test]
fn famous_scholars_are_matched_exactly() {
    assert!(is_famous_scholar("ابن القيم"));
    assert!(!is_famous_scholar("ابن القيم الجوزية"));
    assert!(!is_famous_scholar(""));
}

fn viewpoint(madhab: sanad_ai::multiple_viewpoints::IslamicMadhab) -> sanad_ai::multiple_viewpoints::ScholarlyViewpoint {
    sanad_ai::multiple_viewpoints::ScholarlyViewpoint {
        id: "v".to_string(),
        madhab,
        position: "رأي".to_string(),
        evidence: vec![],
        reasoning: "تعليل".to_string(),
        prominent_scholars: vec![],
        strength_level: sanad_ai::multiple_viewpoints::ViewpointStrength::Majority,
        conditions: vec![],
        exceptions: vec![],
        modern_applications: vec![],
    }
}

#[test]
fn test_internal_guidance_generation() {
    let g = InternalGuidanceGenerator::new();
    let viewpoints = vec![viewpoint(IslamicMadhab::Hanafi), viewpoint(IslamicMadhab::Shafii)];
    let guidance = g.generate_guidance(QuestionType::Fiqh, &viewpoints);
    assert_eq!(guidance.len(), 3);
    for w in guidance.windows(2) {
        assert!(w[0].relevance_hundredths >= w[1].relevance_hundredths);
    }
    for item in &guidance {
        assert!(!item.reference_path.is_empty());
        assert!(!item.description.is_empty());
        assert!(!item.recommended_sections.is_empty());
        assert!(item.relevance_hundredths > 0);
    }
    assert_eq!(g.generate_guidance(QuestionType::Tafsir, &viewpoints).len(), 1);
}

#[test]
fn reasoning_names_each_kind_of_evidence_once() {
    let sources = vec![
        source(SourceType::Quran, AuthenticityLevel::Verified, None),
        source(SourceType::SahihHadith, AuthenticityLevel::Verified, None),
        source(SourceType::Quran, AuthenticityLevel::Verified, None),
        source(SourceType::ScholarOpinion, AuthenticityLevel::Reliable, None),
    ];
    assert_eq!(
        generate_reasoning(IslamicMadhab::Hanafi, &sources),
        "يستند المذهب الحنفي في هذه المسألة إلى القرآن الكريم والحديث الصحيح والمصدر الإسلامي. وهذا الرأي مبني على فهم النصوص وتطبيق الأصول الفقهية المعتمدة في هذا المذهب."
    );
    assert_eq!(
        generate_reasoning(IslamicMadhab::General, &Vec::new()),
        "يستند المذهب عام في هذه المسألة إلى . وهذا الرأي مبني على فهم النصوص وتطبيق الأصول الفقهية المعتمدة في هذا المذهب."
    );
}

#[test]
fn scholars_are_the_authors_each_once() {
    let sources = vec![
        source(SourceType::Quran, AuthenticityLevel::Verified, Some("النووي")),
        source(SourceType::Tafsir, AuthenticityLevel::Verified, None),
        source(SourceType::Tafsir, AuthenticityLevel::Verified, Some("ابن كثير")),
        source(SourceType::FiqhRuling, AuthenticityLevel::Verified, Some("النووي")),
    ];
    assert_eq!(extract_scholars(&sources), vec!["النووي".to_string(), "ابن كثير".to_string()]);
    assert!(extract_scholars(&Vec::new()).is_empty());
}
