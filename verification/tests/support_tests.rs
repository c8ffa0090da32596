use sanad_ai::anti_hallucination::FactType;
use sanad_ai::support::{check_contradiction, ruling_keyword_counts};

#[test]
fn lawful_claim_contradicts_forbidding_source() {
    assert!(check_contradiction("هذا الأمر حلال", "هذا الأمر حرام", FactType::GeneralClaim));
    assert!(check_contradiction("هذا الأمر حرام", "هذا الأمر حلال", FactType::GeneralClaim));
}

#[test]
fn same_ruling_is_no_contradiction() {
    assert!(!check_contradiction("هذا الأمر حلال", "هذا الأمر حلال أيضا", FactType::GeneralClaim));
}

#[test]
fn permitting_and_forbidding_rulings_contradict_only_for_rulings() {
    assert!(check_contradiction("الفعل جائز", "الفعل ممنوع", FactType::ReligiousRuling));
    assert!(!check_contradiction("الفعل جائز", "الفعل ممنوع", FactType::GeneralClaim));
}

#[test]
fn strong_and_weak_grades_contradict_for_hadith() {
    assert!(check_contradiction("الحديث حسن", "الحديث موضوع", FactType::HadithReference));
    assert!(!check_contradiction("الحديث حسن", "الحديث موضوع", FactType::ScholarQuote));
}

#[test]
fn ruling_keywords_are_counted() {
    assert_eq!(ruling_keyword_counts("الصلاة فرض وواجب", "هي فرض على كل مسلم"), (1, 2));
    assert_eq!(ruling_keyword_counts("لا حكم هنا", "فرض"), (0, 0));
}
