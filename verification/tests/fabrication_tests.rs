use std::collections::HashMap;
use sanad_ai::anti_hallucination::FabricationType;
use sanad_ai::fabrication::{
    inner_window,
    check_semantic_ruling_match, context_around_match, detect_advanced_fabrication, is_ruling_supported_by_sources,
    is_suspicious_number_claim, parse_i32,
};
use sanad_ai::types::{AuthenticityLevel, IslamicSource, Language, SourceType};

fn source(text: &str, author: Option<&str>) -> IslamicSource {
    IslamicSource {
        id: "s1".to_string(),
        content_type: SourceType::SahihHadith,
        text: text.to_string(),
        reference: "مرجع".to_string(),
        author: author.map(|a| a.to_string()),
        authenticity: AuthenticityLevel::Verified,
        language: Language::Arabic,
        metadata: HashMap::new(),
        created_at: 0,
    }
}

fn chars(s: &str) -> Vec<char> {
    s.chars().collect()
}

#[test]
fn parse_i32_agrees_with_std() {
    let samples = [
        "123", "+5", "-17", "0", "007", "-2147483648", "2147483647", "2147483648", "-2147483649", "", "-", "+",
        "12a", "٣", "99999999999999999999", "1 2",
    ];
    for s in samples.iter() {
        assert_eq!(parse_i32(&chars(s)), s.parse::<i32>().ok(), "input {:?}", s);
    }
    assert_eq!(parse_i32(&chars("-2147483648")), Some(i32::MIN));
}

#[test]
fn inner_window_keeps_the_characters_wholly_inside() {
    assert_eq!(inner_window(&chars("abc"), 1, 2), chars("b"));
    assert_eq!(inner_window(&chars("abc"), 0, 3), chars("abc"));
    assert_eq!(inner_window(&chars("abc"), 2, 1), chars(""));
    assert_eq!(inner_window(&chars("abc"), 0, 40), chars("abc"));
    // each of these letters takes two bytes
    assert_eq!(inner_window(&chars("سلام"), 2, 4), chars("ل"));
    assert_eq!(inner_window(&chars("سلام"), 1, 4), chars("ل"));
    assert_eq!(inner_window(&chars("سلام"), 1, 7), chars("لا"));
    assert_eq!(inner_window(&chars("سلام"), 1, 2), chars(""));
}

#[test]
fn context_cut_inside_a_character_moves_inward() {
    let after = format!("2000000 {}", "ب".repeat(30));
    let text = chars(&after);
    let len = after.len();
    assert_eq!(context_around_match(&text, len, 0, 7), chars(&format!("2000000 {}", "ب".repeat(24))));
    let before = format!("{} 2000000", "ب".repeat(30));
    let text = chars(&before);
    let len = before.len();
    assert_eq!(context_around_match(&text, len, 61, 68), chars(&format!("{} 2000000", "ب".repeat(24))));
}

#[test]
fn large_or_implausible_numbers_are_suspicious() {
    let none: Vec<IslamicSource> = Vec::new();
    assert!(is_suspicious_number_claim("عاش 2000000 يوم", &none));
    assert!(is_suspicious_number_claim("عاش 150 سنة", &none));
    assert!(!is_suspicious_number_claim("عاش 150 يوما", &none));
    assert!(!is_suspicious_number_claim("عاش 63 سنة", &none));
    // too large for an i32: not read as a number
    assert!(!is_suspicious_number_claim("العدد 99999999999", &none));
    // a source that quotes the context bears the number out
    let sources = vec![source("قيل إنه عاش 150 سنة في القصة", None)];
    assert!(!is_suspicious_number_claim("عاش 150 سنة", &sources));
}

#[test]
fn semantic_ruling_match_needs_a_ruling_word_and_shared_words() {
    assert!(check_semantic_ruling_match(&chars("الصلاة واجب على المسلم"), &chars("الصلاة واجب")));
    assert!(!check_semantic_ruling_match(&chars("الصلاة واجب على المسلم"), &chars("الصلاة")));
    // exactly two fifths is not enough
    assert!(!check_semantic_ruling_match(&chars("واجب ب ج د هـ"), &chars("واجب ب")));
    assert!(check_semantic_ruling_match(&chars("واجب ب ج د هـ"), &chars("واجب ب ج")));
    // no word of a ruling on either side
    assert!(!check_semantic_ruling_match(&chars("الصلاة على المسلم"), &chars("الصلاة على المسلم")));
    // repeated words count once
    assert!(check_semantic_ruling_match(&chars("فرض فرض فرض صوم"), &chars("فرض")));
}

#[test]
fn rulings_supported_by_quotation_or_meaning() {
    let sources = vec![source("الصوم في رمضان فرض على كل مسلم", None)];
    assert!(is_ruling_supported_by_sources("الصوم في رمضان", &sources));
    assert!(!is_ruling_supported_by_sources("أكل الحلوى", &sources));
    let none: Vec<IslamicSource> = Vec::new();
    assert!(!is_ruling_supported_by_sources("الصوم في رمضان", &none));
}

#[test]
fn unknown_speaker_is_reported() {
    let none: Vec<IslamicSource> = Vec::new();
    let found = detect_advanced_fabrication("قال فلان: الصلاة خير", &none);
    assert_eq!(found.len(), 1);
    assert_eq!(found[0].content, "قول منسوب إلى: فلان");
    assert_eq!(found[0].content_type, FabricationType::FakeQuote);
    assert_eq!(found[0].confidence_hundredths, 80);
    assert_eq!(found[0].evidence, vec!["شخصية غير معروفة أو غير مدعومة بالمصادر".to_string()]);
}

#[test]
fn known_speaker_is_not_reported() {
    let none: Vec<IslamicSource> = Vec::new();
    let found = detect_advanced_fabrication("قال البخاري: الصلاة خير", &none);
    assert!(found.is_empty());
    let sources = vec![source("نص", Some("فلان الفلاني"))];
    let found = detect_advanced_fabrication("قال فلان: الصلاة خير", &sources);
    assert!(found.is_empty());
}

#[test]
fn unsupported_ruling_is_reported() {
    let none: Vec<IslamicSource> = Vec::new();
    let found = detect_advanced_fabrication("يجب الصوم في رمضان.", &none);
    assert_eq!(found.len(), 1);
    assert_eq!(found[0].content, "حكم فقهي: الصوم في رمضان");
    assert_eq!(found[0].content_type, FabricationType::FakeRuling);
    assert_eq!(found[0].confidence_hundredths, 90);
    let sources = vec![source("الصوم في رمضان فرض", None)];
    assert!(detect_advanced_fabrication("يجب الصوم في رمضان.", &sources).is_empty());
}

#[test]
fn implausible_number_is_reported_with_its_context() {
    let none: Vec<IslamicSource> = Vec::new();
    let text = "عاش النبي 2000000 سنة";
    let found = detect_advanced_fabrication(text, &none);
    assert_eq!(found.len(), 1);
    assert_eq!(found[0].content, text);
    assert_eq!(found[0].content_type, FabricationType::FakeRuling);
    assert_eq!(found[0].confidence_hundredths, 70);
    assert_eq!(found[0].evidence, vec!["رقم غير مدعوم بالمصادر".to_string()]);
}

#[test]
fn context_cut_inside_a_character_starts_at_the_next_letter() {
    // the number starts 62 bytes in; fifty bytes before it falls inside a letter
    let text = format!("a{} 5000000", "ب".repeat(30));
    let none: Vec<IslamicSource> = Vec::new();
    let found = detect_advanced_fabrication(&text, &none);
    assert_eq!(found.len(), 1);
    assert_eq!(found[0].content, format!("{} 5000000", "ب".repeat(24)));
}

#[test]
fn plain_answer_has_no_findings() {
    let none: Vec<IslamicSource> = Vec::new();
    assert!(detect_advanced_fabrication("الصلاة عماد الدين", &none).is_empty());
}

#[test]
fn number_whose_context_would_split_a_character_is_still_checked() {
    let none: Vec<IslamicSource> = Vec::new();
    assert!(detect_advanced_fabrication(&format!("1 {}", "ب".repeat(30)), &none).is_empty());
    let text = format!("2000000 {}", "ب".repeat(30));
    let found = detect_advanced_fabrication(&text, &none);
    assert_eq!(found.len(), 1);
    assert_eq!(found[0].content, format!("2000000 {}", "ب".repeat(24)));
    assert_eq!(found[0].confidence_hundredths, 70);
}

#[test]
fn statistic_and_unknown_scholar_answer_is_checked_to_the_end() {
    let sources = vec![source("إن الصلاة كانت على المؤمنين كتابا موقوتا", None)];
    let text = "الصلاة واجبة على كل مسلم. وقد ثبت أن 99% من المسلمين يصلون يومياً. قال العالم الفلاني: الصلاة هي أهم العبادات.";
    let found = detect_advanced_fabrication(text, &sources);
    assert!(found.iter().any(|f| f.content == "قول منسوب إلى: العالم الفلاني" && f.content_type == FabricationType::FakeQuote));
}
