//! What a reviewed answer calls for: the actions required by a recommendation
//! and by the problems found, and the references suggested for an unsupported
//! claim.
use vstd::prelude::*;
use crate::anti_hallucination::{
    ClaimSeverity, Contradiction, ContradictionSeverity, FabricatedContent, FabricationType, ResponseRecommendation,
    UnsupportedClaim,
};
use crate::prompt::char_prefix;
use crate::religious_query::push_text;
use crate::text::{decimal, lowercase_chars, lowercase_of, push_decimal, push_str, seq_contains, string_from_chars, string_views, vec_contains, chars_of};
use crate::types::QuestionType;

verus! {

// ---------------------------------------------------------------------------
// Counting problems
// ---------------------------------------------------------------------------

/// The claims of critical severity.
pub open spec fn critical_claims(cs: Seq<UnsupportedClaim>) -> nat
    decreases cs.len(),
{
    if cs.len() == 0 {
        0
    } else {
        critical_claims(cs.drop_last()) + if cs.last().severity == ClaimSeverity::Critical { 1nat } else { 0nat }
    }
}

/// The contradictions of critical severity.
pub open spec fn critical_contradictions(cs: Seq<Contradiction>) -> nat
    decreases cs.len(),
{
    if cs.len() == 0 {
        0
    } else {
        critical_contradictions(cs.drop_last()) + if cs.last().severity == ContradictionSeverity::Critical {
            1nat
        } else {
            0nat
        }
    }
}

/// The number of critical claims.
fn count_critical_claims(cs: &Vec<UnsupportedClaim>) -> (n: usize)
    ensures
        n == critical_claims(cs@),
{
    let mut n: usize = 0;
    let mut i: usize = 0;
    while i < cs.len()
        invariant
            i <= cs.len(),
            n == critical_claims(cs@.take(i as int)),
            n <= i,
        decreases cs.len() - i,
    {
        assert(cs@.take(i + 1).drop_last() =~= cs@.take(i as int));
        if cs[i].severity == ClaimSeverity::Critical {
            n = n + 1;
        }
        i = i + 1;
    }
    assert(cs@.take(cs.len() as int) =~= cs@);
    n
}

/// The number of critical contradictions.
fn count_critical_contradictions(cs: &Vec<Contradiction>) -> (n: usize)
    ensures
        n == critical_contradictions(cs@),
{
    let mut n: usize = 0;
    let mut i: usize = 0;
    while i < cs.len()
        invariant
            i <= cs.len(),
            n == critical_contradictions(cs@.take(i as int)),
            n <= i,
        decreases cs.len() - i,
    {
        assert(cs@.take(i + 1).drop_last() =~= cs@.take(i as int));
        if cs[i].severity == ContradictionSeverity::Critical {
            n = n + 1;
        }
        i = i + 1;
    }
    assert(cs@.take(cs.len() as int) =~= cs@);
    n
}

// ---------------------------------------------------------------------------
// The actions required of an answer
// ---------------------------------------------------------------------------

/// The actions for a recommendation alone.
pub open spec fn recommendation_actions(r: ResponseRecommendation) -> Seq<Seq<char>> {
    match r {
        ResponseRecommendation::Reject => seq!["رفض الإجابة وإعادة التوليد"@],
        ResponseRecommendation::RequestHumanReview => seq!["إرسال للمراجعة البشرية"@],
        ResponseRecommendation::RequireSourceCheck => seq!["التحقق من المصادر المذكورة"@],
        ResponseRecommendation::RequireRevision => seq!["مراجعة الإجابة وتصحيحها"@],
        ResponseRecommendation::ApproveWithWarning => seq!["إضافة تحذير للمستخدم"@],
        ResponseRecommendation::Approve => Seq::empty(),
    }
}

/// The actions required of an answer: those of its recommendation, then the
/// removal of fabricated content, sources for unsupported claims, and the
/// resolution of contradictions, each where such problems were found.
pub open spec fn required_actions_spec(
    r: ResponseRecommendation,
    claims: nat,
    contradictions: nat,
    fabricated: nat,
) -> Seq<Seq<char>> {
    recommendation_actions(r)
        + (if fabricated > 0 { seq!["إزالة المحتوى المختلق"@] } else { Seq::empty() })
        + (if claims > 0 { seq!["إضافة مصادر للادعاءات"@] } else { Seq::empty() })
        + (if contradictions > 0 { seq!["حل التناقضات مع المصادر"@] } else { Seq::empty() })
}

/// The actions required of an answer (see `required_actions_spec`).
pub fn determine_required_actions(
    recommendation: ResponseRecommendation,
    unsupported_claims: &Vec<UnsupportedClaim>,
    contradictions: &Vec<Contradiction>,
    fabricated_content: &Vec<FabricatedContent>,
) -> (r: Vec<String>)
    ensures
        string_views(r@) == required_actions_spec(
            recommendation,
            unsupported_claims@.len(),
            contradictions@.len(),
            fabricated_content@.len(),
        ),
{
    let mut actions: Vec<String> = Vec::new();
    match recommendation {
        ResponseRecommendation::Reject => push_text(&mut actions, "رفض الإجابة وإعادة التوليد"),
        ResponseRecommendation::RequestHumanReview => push_text(&mut actions, "إرسال للمراجعة البشرية"),
        ResponseRecommendation::RequireSourceCheck => push_text(&mut actions, "التحقق من المصادر المذكورة"),
        ResponseRecommendation::RequireRevision => push_text(&mut actions, "مراجعة الإجابة وتصحيحها"),
        ResponseRecommendation::ApproveWithWarning => push_text(&mut actions, "إضافة تحذير للمستخدم"),
        ResponseRecommendation::Approve => {},
    }
    assert(string_views(actions@) =~= recommendation_actions(recommendation));
    if fabricated_content.len() > 0 {
        push_text(&mut actions, "إزالة المحتوى المختلق");
    }
    if unsupported_claims.len() > 0 {
        push_text(&mut actions, "إضافة مصادر للادعاءات");
    }
    if contradictions.len() > 0 {
        push_text(&mut actions, "حل التناقضات مع المصادر");
    }
    proof {
        assert(string_views(actions@) =~= required_actions_spec(
            recommendation,
            unsupported_claims@.len(),
            contradictions@.len(),
            fabricated_content@.len(),
        ));
    }
    actions
}

/// The label of a kind of fabrication in a warning.
pub open spec fn fabrication_label(t: FabricationType) -> Seq<char> {
    match t {
        FabricationType::FakeAyah => "آية مشكوك فيها"@,
        FabricationType::FakeHadith => "حديث مشكوك فيه"@,
        FabricationType::FakeQuote => "قول مشكوك فيه"@,
        FabricationType::FakeRuling => "حكم مشكوك فيه"@,
        FabricationType::FakeStory => "قصة مشكوك فيها"@,
    }
}

/// The characters of fabricated content quoted in its warning.
pub const WARNING_EXCERPT_CHARS: usize = 50;

/// The warning for each piece of fabricated content: its label and the first
/// fifty characters of the content.
pub open spec fn fabrication_warnings(fs: Seq<FabricatedContent>) -> Seq<Seq<char>>
    decreases fs.len(),
{
    if fs.len() == 0 {
        Seq::empty()
    } else {
        fabrication_warnings(fs.drop_last()).push(
            "تحذير: "@ + fabrication_label(fs.last().content_type) + " - "@ + char_prefix(
                fs.last().content@,
                WARNING_EXCERPT_CHARS as nat,
            ),
        )
    }
}

/// The actions of the detailed review for a recommendation alone.
pub open spec fn enhanced_recommendation_actions(r: ResponseRecommendation, fabricated: nat, t: QuestionType) -> Seq<Seq<char>> {
    match r {
        ResponseRecommendation::Reject => {
            let base = seq!["رفض الإجابة وإعادة التوليد مع مصادر أكثر دقة"@];
            if fabricated > 0 { base.push("تنبيه: تم اكتشاف محتوى مختلق - مراجعة النموذج مطلوبة"@) } else { base }
        },
        ResponseRecommendation::RequestHumanReview => {
            let base = seq!["إرسال للمراجعة البشرية من قبل عالم مختص"@];
            if t == QuestionType::Aqeedah || t == QuestionType::Fiqh {
                base.push("أولوية عالية: موضوع حساس يتطلب مراجعة عاجلة"@)
            } else {
                base
            }
        },
        ResponseRecommendation::RequireSourceCheck => seq![
            "التحقق من جميع المصادر المذكورة وإضافة مراجع إضافية"@,
            "التأكد من صحة الأحاديث المذكورة"@,
        ],
        ResponseRecommendation::RequireRevision => seq![
            "مراجعة الإجابة وتصحيح النقاط المشكوك فيها"@,
            "إضافة تحذيرات مناسبة للمحتوى غير المؤكد"@,
        ],
        ResponseRecommendation::ApproveWithWarning => seq![
            "إضافة تحذير للمستخدم حول ضرورة التحقق من المصادر"@,
            "إضافة عبارة 'والله أعلم' في نهاية الإجابة"@,
        ],
        ResponseRecommendation::Approve => seq!["الموافقة على الإجابة مع إضافة المراجع المناسبة"@],
    }
}

/// The actions of the detailed review: those of the recommendation; for
/// fabricated content its removal and a warning for each piece; for
/// unsupported claims sources, and a warning with the count of critical ones;
/// for contradictions their resolution, and a warning with the count of
/// critical ones.
pub open spec fn enhanced_actions_spec(
    r: ResponseRecommendation,
    claims: Seq<UnsupportedClaim>,
    contradictions: Seq<Contradiction>,
    fabricated: Seq<FabricatedContent>,
    t: QuestionType,
) -> Seq<Seq<char>> {
    enhanced_recommendation_actions(r, fabricated.len(), t) + fabrication_actions(fabricated) + claims_actions(claims)
        + contradictions_actions(contradictions)
}

/// Appends the warning for each piece of fabricated content.
fn push_fabrication_warnings(actions: &mut Vec<String>, fabricated: &Vec<FabricatedContent>)
    ensures
        string_views(final(actions)@) == string_views(old(actions)@) + fabrication_warnings(fabricated@),
{
    let ghost fs = fabricated@;
    let mut i: usize = 0;
    while i < fabricated.len()
        invariant
            i <= fabricated.len(),
            fs == fabricated@,
            string_views(actions@) == string_views(old(actions)@) + fabrication_warnings(fs.take(i as int)),
        decreases fabricated.len() - i,
    {
        proof {
            assert(fs.take(i + 1).drop_last() =~= fs.take(i as int));
            assert(fs.take(i + 1).last() == fs[i as int]);
        }
        let f = &fabricated[i];
        let mut v: Vec<char> = Vec::new();
        push_str(&mut v, "تحذير: ");
        match f.content_type {
            FabricationType::FakeAyah => push_str(&mut v, "آية مشكوك فيها"),
            FabricationType::FakeHadith => push_str(&mut v, "حديث مشكوك فيه"),
            FabricationType::FakeQuote => push_str(&mut v, "قول مشكوك فيه"),
            FabricationType::FakeRuling => push_str(&mut v, "حكم مشكوك فيه"),
            FabricationType::FakeStory => push_str(&mut v, "قصة مشكوك فيها"),
        }
        push_str(&mut v, " - ");
        let cs = chars_of(f.content.as_str());
        let mut j: usize = 0;
        let ghost head = v@;
        while j < cs.len() && j < WARNING_EXCERPT_CHARS
            invariant
                j <= cs.len(),
                j <= WARNING_EXCERPT_CHARS,
                cs@ == f.content@,
                v@ == head + cs@.take(j as int),
            decreases cs.len() - j,
        {
            v.push(cs[j]);
            assert(cs@.take(j + 1) =~= cs@.take(j as int).push(cs@[j as int]));
            j = j + 1;
        }
        assert(cs@.take(cs.len() as int) =~= cs@);
        assert(v@ =~= "تحذير: "@ + fabrication_label(f.content_type) + " - "@ + char_prefix(
            f.content@,
            WARNING_EXCERPT_CHARS as nat,
        ));
        let ghost before = string_views(actions@);
        actions.push(string_from_chars(&v));
        assert(string_views(actions@) =~= before.push(v@));
        assert(string_views(actions@) =~= string_views(old(actions)@) + fabrication_warnings(fs.take(i + 1)));
        i = i + 1;
    }
    assert(fs.take(fabricated.len() as int) =~= fs);
}

/// Appends a warning with a count between two phrases.
fn push_count_warning(actions: &mut Vec<String>, n: usize, tail: &str)
    ensures
        string_views(final(actions)@) == string_views(old(actions)@).push("تحذير: "@ + decimal(n as nat) + tail@),
{
    let mut v: Vec<char> = Vec::new();
    push_str(&mut v, "تحذير: ");
    push_decimal(&mut v, n);
    push_str(&mut v, tail);
    let ghost before = string_views(actions@);
    actions.push(string_from_chars(&v));
    assert(string_views(actions@) =~= before.push(v@));
}

/// Appends the actions of the detailed review for a recommendation alone.
fn push_enhanced_recommendation_actions(
    actions: &mut Vec<String>,
    recommendation: ResponseRecommendation,
    fabricated: usize,
    question_type: QuestionType,
)
    ensures
        string_views(final(actions)@) == string_views(old(actions)@) + enhanced_recommendation_actions(
            recommendation,
            fabricated as nat,
            question_type,
        ),
{
    match recommendation {
        ResponseRecommendation::Reject => {
            push_text(actions, "رفض الإجابة وإعادة التوليد مع مصادر أكثر دقة");
            if fabricated > 0 {
                push_text(actions, "تنبيه: تم اكتشاف محتوى مختلق - مراجعة النموذج مطلوبة");
            }
        },
        ResponseRecommendation::RequestHumanReview => {
            push_text(actions, "إرسال للمراجعة البشرية من قبل عالم مختص");
            if question_type == QuestionType::Aqeedah || question_type == QuestionType::Fiqh {
                push_text(actions, "أولوية عالية: موضوع حساس يتطلب مراجعة عاجلة");
            }
        },
        ResponseRecommendation::RequireSourceCheck => {
            push_text(actions, "التحقق من جميع المصادر المذكورة وإضافة مراجع إضافية");
            push_text(actions, "التأكد من صحة الأحاديث المذكورة");
        },
        ResponseRecommendation::RequireRevision => {
            push_text(actions, "مراجعة الإجابة وتصحيح النقاط المشكوك فيها");
            push_text(actions, "إضافة تحذيرات مناسبة للمحتوى غير المؤكد");
        },
        ResponseRecommendation::ApproveWithWarning => {
            push_text(actions, "إضافة تحذير للمستخدم حول ضرورة التحقق من المصادر");
            push_text(actions, "إضافة عبارة 'والله أعلم' في نهاية الإجابة");
        },
        ResponseRecommendation::Approve => {
            push_text(actions, "الموافقة على الإجابة مع إضافة المراجع المناسبة");
        },
    }
    assert(string_views(actions@) =~= string_views(old(actions)@) + enhanced_recommendation_actions(
        recommendation,
        fabricated as nat,
        question_type,
    ));
}

/// The actions of the detailed review for unsupported claims.
pub open spec fn claims_actions(claims: Seq<UnsupportedClaim>) -> Seq<Seq<char>> {
    if claims.len() > 0 {
        seq!["إضافة مصادر موثوقة للادعاءات غير المدعومة"@] + if critical_claims(claims) > 0 {
            seq!["تحذير: "@ + decimal(critical_claims(claims)) + " ادعاءات خطيرة تحتاج مصادر فورية"@]
        } else {
            Seq::empty()
        }
    } else {
        Seq::empty()
    }
}

/// The actions of the detailed review for contradictions.
pub open spec fn contradictions_actions(cs: Seq<Contradiction>) -> Seq<Seq<char>> {
    if cs.len() > 0 {
        seq!["حل التناقضات مع المصادر الموثوقة"@] + if critical_contradictions(cs) > 0 {
            seq!["تحذير: "@ + decimal(critical_contradictions(cs)) + " تناقضات خطيرة تحتاج حل فوري"@]
        } else {
            Seq::empty()
        }
    } else {
        Seq::empty()
    }
}

/// The actions of the detailed review for fabricated content.
pub open spec fn fabrication_actions(fs: Seq<FabricatedContent>) -> Seq<Seq<char>> {
    if fs.len() > 0 {
        seq!["إزالة أو تصحيح المحتوى المختلق المكتشف"@] + fabrication_warnings(fs)
    } else {
        Seq::empty()
    }
}

fn push_claims_actions(actions: &mut Vec<String>, claims: &Vec<UnsupportedClaim>)
    ensures
        string_views(final(actions)@) == string_views(old(actions)@) + claims_actions(claims@),
{
    if claims.len() > 0 {
        push_text(actions, "إضافة مصادر موثوقة للادعاءات غير المدعومة");
        let critical = count_critical_claims(claims);
        if critical > 0 {
            push_count_warning(actions, critical, " ادعاءات خطيرة تحتاج مصادر فورية");
        }
    }
    assert(string_views(actions@) =~= string_views(old(actions)@) + claims_actions(claims@));
}

fn push_contradictions_actions(actions: &mut Vec<String>, contradictions: &Vec<Contradiction>)
    ensures
        string_views(final(actions)@) == string_views(old(actions)@) + contradictions_actions(contradictions@),
{
    if contradictions.len() > 0 {
        push_text(actions, "حل التناقضات مع المصادر الموثوقة");
        let critical = count_critical_contradictions(contradictions);
        if critical > 0 {
            push_count_warning(actions, critical, " تناقضات خطيرة تحتاج حل فوري");
        }
    }
    assert(string_views(actions@) =~= string_views(old(actions)@) + contradictions_actions(contradictions@));
}

fn push_fabrication_actions(actions: &mut Vec<String>, fabricated: &Vec<FabricatedContent>)
    ensures
        string_views(final(actions)@) == string_views(old(actions)@) + fabrication_actions(fabricated@),
{
    if fabricated.len() > 0 {
        push_text(actions, "إزالة أو تصحيح المحتوى المختلق المكتشف");
        push_fabrication_warnings(actions, fabricated);
    }
    assert(string_views(actions@) =~= string_views(old(actions)@) + fabrication_actions(fabricated@));
}

/// The actions of the detailed review (see `enhanced_actions_spec`).
pub fn determine_enhanced_required_actions(
    recommendation: ResponseRecommendation,
    unsupported_claims: &Vec<UnsupportedClaim>,
    contradictions: &Vec<Contradiction>,
    fabricated_content: &Vec<FabricatedContent>,
    question_type: QuestionType,
) -> (r: Vec<String>)
    ensures
        string_views(r@) == enhanced_actions_spec(
            recommendation,
            unsupported_claims@,
            contradictions@,
            fabricated_content@,
            question_type,
        ),
{
    let mut actions: Vec<String> = Vec::new();
    push_enhanced_recommendation_actions(&mut actions, recommendation, fabricated_content.len(), question_type);
    push_fabrication_actions(&mut actions, fabricated_content);
    push_claims_actions(&mut actions, unsupported_claims);
    push_contradictions_actions(&mut actions, contradictions);
    assert(string_views(actions@) =~= enhanced_actions_spec(
        recommendation,
        unsupported_claims@,
        contradictions@,
        fabricated_content@,
        question_type,
    ));
    actions
}

// ---------------------------------------------------------------------------
// References suggested for a claim
// ---------------------------------------------------------------------------

/// The references suggested for a claim, by the words of its lower-cased
/// text: the mushaf and Ibn Kathir for the Quran or a verse; al-Bukhari and
/// Muslim for a hadith or the Messenger; books of fiqh and fatwas for fiqh or a
/// ruling.
pub open spec fn suggestions_spec(claim: Seq<char>) -> Seq<Seq<char>> {
    let low = lowercase_of(claim);
    (if seq_contains(low, "قرآن"@) || seq_contains(low, "آية"@) {
        seq!["المصحف الشريف "@, "تفسير ابن كثير"@]
    } else {
        Seq::empty()
    }) + (if seq_contains(low, "حديث"@) || seq_contains(low, "رسول"@) {
        seq!["صحيح البخاري"@, "صحيح مسلم"@]
    } else {
        Seq::empty()
    }) + (if seq_contains(low, "فقه"@) || seq_contains(low, "حكم"@) {
        seq!["كتب الفقه المعتمدة"@, "فتاوى العلماء المعاصرين"@]
    } else {
        Seq::empty()
    })
}

/// The references suggested for a claim (see `suggestions_spec`).
pub fn suggest_sources_for_claim(claim: &str) -> (r: Vec<String>)
    ensures
        string_views(r@) == suggestions_spec(claim@),
{
    let low = lowercase_chars(claim);
    let mut r: Vec<String> = Vec::new();
    if vec_contains(&low, &chars_of("قرآن")) || vec_contains(&low, &chars_of("آية")) {
        push_text(&mut r, "المصحف الشريف ");
        push_text(&mut r, "تفسير ابن كثير");
    }
    let ghost a = string_views(r@);
    if vec_contains(&low, &chars_of("حديث")) || vec_contains(&low, &chars_of("رسول")) {
        push_text(&mut r, "صحيح البخاري");
        push_text(&mut r, "صحيح مسلم");
    }
    let ghost b = string_views(r@);
    if vec_contains(&low, &chars_of("فقه")) || vec_contains(&low, &chars_of("حكم")) {
        push_text(&mut r, "كتب الفقه المعتمدة");
        push_text(&mut r, "فتاوى العلماء المعاصرين");
    }
    assert(string_views(r@) =~= suggestions_spec(claim@));
    r
}

} // verus!
