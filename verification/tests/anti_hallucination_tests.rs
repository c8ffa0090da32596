use std::collections::HashMap;
use sanad_ai::anti_hallucination::{
    detect_fabrication_risk, detect_out_of_scope, determine_claim_severity, ClaimSeverity, ContradictionSeverity,
    FabricatedContent, FabricationType, FactType, ResponseRecommendation, TextPosition, UnsupportedClaim,
};
use sanad_ai::consistency::{
    are_grades_contradictory, check_aqeedah_context, check_fiqh_contradictions, normalize_hadith_text, ConsistencyChecker,
};
use sanad_ai::review::{determine_enhanced_required_actions, determine_required_actions, suggest_sources_for_claim};
use sanad_ai::types::{AuthenticityLevel, IslamicSource, Language, QuestionType, SourceType};

fn quran_source(text: &str) -> IslamicSource {
    IslamicSource {
        id: "quran_source".to_string(),
        content_type: SourceType::Quran,
        text: text.to_string(),
        reference: "البقرة: 43".to_string(),
        author: None,
        authenticity: AuthenticityLevel::Verified,
        language: Language::Arabic,
        metadata: HashMap::new(),
        created_at: 0,
    }
}

#[test]
fn test_out_of_scope_detection_unit() {
    let test_cases = vec![
        ("ما هي أركان الإسلام؟", false),
        ("كيف أبرمج تطبيق؟", true),
        ("ما حكم الطب في الإسلام؟", false),
        ("أفضل مطعم في المدينة؟", true),
    ];
    for (question, expected_out_of_scope) in test_cases {
        let is_out_of_scope = detect_out_of_scope(question);
        assert_eq!(is_out_of_scope, expected_out_of_scope, "Scope detection failed for: {}", question);
    }
}

#[test]
fn test_fabrication_detection_unit() {
    let fabricated_responses = vec![
        r#"قال الله تعالى: "هذه آية مختلقة لا توجد في القرآن""#,
        r#"قال الرسول صلى الله عليه وسلم: "حديث مختلق""#,
    ];
    let sources = vec![quran_source("وَأَقِيمُوا الصَّلَاةَ")];
    for fabricated_response in &fabricated_responses {
        let risk_score = detect_fabrication_risk(fabricated_response, &sources) as f32 / 10.0;
        assert!(risk_score > 0.5, "Should detect high fabrication risk");
    }
}

#[test]
fn property_fabrication_risk_increases_with_unsupported_claims() {
    let sources = vec![quran_source("وَأَقِيمُوا الصَّلَاةَ")];
    let supported_claim = "وَأَقِيمُوا الصَّلَاةَ";
    let unsupported_claim = r#"قال الله تعالى: "آية مختلقة""#;
    let supported_risk = detect_fabrication_risk(supported_claim, &sources);
    let unsupported_risk = detect_fabrication_risk(unsupported_claim, &sources);
    assert!(
        unsupported_risk > supported_risk,
        "Unsupported claims should have higher fabrication risk: {} vs {}",
        unsupported_risk,
        supported_risk
    );
}

#[test]
fn fabrication_risk_exact_values() {
    let sources = vec![quran_source("وَأَقِيمُوا الصَّلَاةَ")];
    assert_eq!(detect_fabrication_risk("وَأَقِيمُوا الصَّلَاةَ", &sources), 0);
    assert_eq!(detect_fabrication_risk(r#"قال الله تعالى: "آية مختلقة""#, &sources), 9);
    assert_eq!(detect_fabrication_risk(r#"قال الله تعالى: "آية مختلقة""#, &Vec::new()), 10);
    assert_eq!(detect_fabrication_risk("إحصائية: 50%", &sources), 4);
    assert_eq!(detect_fabrication_risk("قال الرسول: حديث", &sources), 7);
}

#[test]
fn quoted_scripture_claims_are_critical() {
    assert_eq!(determine_claim_severity("x", FactType::QuranReference), ClaimSeverity::Critical);
    assert_eq!(determine_claim_severity("x", FactType::HadithReference), ClaimSeverity::Critical);
    assert_eq!(determine_claim_severity("هذا حرام", FactType::GeneralClaim), ClaimSeverity::Major);
    assert_eq!(determine_claim_severity("هذا مستحب", FactType::GeneralClaim), ClaimSeverity::Minor);
    assert_eq!(determine_claim_severity("كلام عام", FactType::GeneralClaim), ClaimSeverity::Stylistic);
}

#[test]
fn suggestions_follow_the_claim() {
    assert_eq!(suggest_sources_for_claim("هذه آية"), vec!["المصحف الشريف ".to_string(), "تفسير ابن كثير".to_string()]);
    assert_eq!(
        suggest_sources_for_claim("حكم الحديث"),
        vec![
            "صحيح البخاري".to_string(),
            "صحيح مسلم".to_string(),
            "كتب الفقه المعتمدة".to_string(),
            "فتاوى العلماء المعاصرين".to_string()
        ]
    );
    assert!(suggest_sources_for_claim("نص عادي").is_empty());
}

fn claim(severity: ClaimSeverity) -> UnsupportedClaim {
    UnsupportedClaim {
        claim: "ادعاء".to_string(),
        position: TextPosition { start: 0, end: 1, line: 1 },
        severity,
        suggested_sources: vec![],
    }
}

#[test]
fn required_actions_name_the_problems() {
    let claims = vec![claim(ClaimSeverity::Critical)];
    let fabricated = vec![FabricatedContent {
        content: "نص".to_string(),
        content_type: FabricationType::FakeAyah,
        confidence_hundredths: 90,
        evidence: vec![],
    }];
    let actions = determine_required_actions(ResponseRecommendation::Reject, &claims, &vec![], &fabricated);
    assert_eq!(
        actions,
        vec![
            "رفض الإجابة وإعادة التوليد".to_string(),
            "إزالة المحتوى المختلق".to_string(),
            "إضافة مصادر للادعاءات".to_string()
        ]
    );
    let none = determine_required_actions(ResponseRecommendation::Approve, &vec![], &vec![], &vec![]);
    assert!(none.is_empty());
}

#[test]
fn enhanced_actions_count_critical_claims() {
    let claims = vec![claim(ClaimSeverity::Critical), claim(ClaimSeverity::Minor), claim(ClaimSeverity::Critical)];
    let fabricated = vec![FabricatedContent {
        content: "قول منسوب".to_string(),
        content_type: FabricationType::FakeQuote,
        confidence_hundredths: 80,
        evidence: vec![],
    }];
    let actions = determine_enhanced_required_actions(
        ResponseRecommendation::RequestHumanReview,
        &claims,
        &vec![],
        &fabricated,
        QuestionType::Fiqh,
    );
    assert_eq!(
        actions,
        vec![
            "إرسال للمراجعة البشرية من قبل عالم مختص".to_string(),
            "أولوية عالية: موضوع حساس يتطلب مراجعة عاجلة".to_string(),
            "إزالة أو تصحيح المحتوى المختلق المكتشف".to_string(),
            "تحذير: قول مشكوك فيه - قول منسوب".to_string(),
            "إضافة مصادر موثوقة للادعاءات غير المدعومة".to_string(),
            "تحذير: 2 ادعاءات خطيرة تحتاج مصادر فورية".to_string(),
        ]
    );
}

#[test]
fn opposed_grades_of_one_hadith_contradict() {
    assert!(are_grades_contradictory(&vec!["صحيح".to_string(), "ضعيف".to_string()]));
    assert!(!are_grades_contradictory(&vec!["صحيح".to_string(), "حسن".to_string()]));
    assert_eq!(normalize_hadith_text("  إنما   الأعمال!! بالنيات "), "إنما الأعمال بالنيات");
}

#[test]
fn opposed_rulings_on_one_subject_contradict() {
    let found = check_fiqh_contradictions("الخمر حرام الخمر مباح");
    assert_eq!(found.len(), 1);
    assert_eq!(found[0].severity, ContradictionSeverity::Major);
    assert!(found[0].claim.contains("حرام"));
    assert!(check_fiqh_contradictions("الصلاة واجب").is_empty());
}

#[test]
fn creed_context_flags_unrejected_shirk() {
    let found = check_aqeedah_context("الشرك موضوع مهم");
    assert_eq!(found.len(), 1);
    assert_eq!(found[0].claim, "ذكر شرك بدون إدانة واضحة ");
    assert!(check_aqeedah_context("لا شرك في الإسلام").is_empty());
}

#[test]
fn checker_finds_internal_and_theological_contradictions() {
    let checker = ConsistencyChecker::new();
    let internal = checker.check_internal_contradictions("هذا حلال وهذا حرام");
    assert!(!internal.is_empty());
    assert_eq!(internal[0].severity, ContradictionSeverity::Critical);
    let violations = checker.check_theological_violations("يجوز عبادة غير الله في بعض الحالات");
    assert_eq!(violations.len(), 1);
    assert!(checker.check_consistency("نص", &vec![]).is_empty());
    let all = checker.check_consistency_advanced("هذا حلال وهذا حرام", &vec![quran_source("آية")], QuestionType::General);
    assert_eq!(all.len(), internal.len());
}
