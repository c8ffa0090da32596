//! Whether a claim contradicts a source's text, and which words of a ruling a
//! claim and a source share.
use vstd::prelude::*;
use crate::anti_hallucination::FactType;
use crate::text::{any_occurs, chars_contain_str, chars_of, contains_any, seq_contains, strs_view};

verus! {

/// Pairs of opposed words: lawful and forbidden, obligatory and disliked,
/// recommended and forbidden, authentic and weak, established and fabricated.
pub open spec fn opposed_pairs() -> Seq<(Seq<char>, Seq<char>)> {
    seq![
        ("حلال"@, "حرام"@),
        ("واجب"@, "مكروه"@),
        ("مستحب"@, "حرام"@),
        ("صحيح"@, "ضعيف"@),
        ("ثابت"@, "موضوع"@),
    ]
}

/// One text holds one word of a pair and the other text the other word.
pub open spec fn pair_opposed(claim: Seq<char>, source_text: Seq<char>, p: (Seq<char>, Seq<char>)) -> bool {
    (seq_contains(claim, p.0) && seq_contains(source_text, p.1)) || (seq_contains(claim, p.1) && seq_contains(source_text, p.0))
}

/// Words of rulings that allow or ask for an act.
pub open spec fn permitting_rulings() -> Seq<Seq<char>> {
    seq!["واجب"@, "فرض"@, "مستحب"@, "سنة"@, "مباح"@, "جائز"@]
}

/// Words of rulings that forbid or discourage an act.
pub open spec fn forbidding_rulings() -> Seq<Seq<char>> {
    seq!["حرام"@, "مكروه"@, "ممنوع"@]
}

/// Words of strong grades of hadith.
pub open spec fn strong_grades() -> Seq<Seq<char>> {
    seq!["صحيح"@, "حسن"@]
}

/// Words of weak grades of hadith.
pub open spec fn weak_grades() -> Seq<Seq<char>> {
    seq!["ضعيف"@, "موضوع"@]
}

/// One text names a word of `a` and the other a word of `b`, either way.
pub open spec fn crosswise(claim: Seq<char>, source_text: Seq<char>, a: Seq<Seq<char>>, b: Seq<Seq<char>>) -> bool {
    (any_occurs(claim, a) && any_occurs(source_text, b)) || (any_occurs(claim, b) && any_occurs(source_text, a))
}

/// A claim contradicts a source's text when they hold the two words of an
/// opposed pair; a ruling also when one permits and the other forbids; a
/// hadith also when one grades it strong and the other weak.
pub open spec fn contradiction_spec(claim: Seq<char>, source_text: Seq<char>, fact_type: FactType) -> bool {
    ||| exists|i: int| 0 <= i < opposed_pairs().len() && #[trigger] pair_opposed(claim, source_text, opposed_pairs()[i])
    ||| (fact_type == FactType::ReligiousRuling && crosswise(claim, source_text, permitting_rulings(), forbidding_rulings()))
    ||| (fact_type == FactType::HadithReference && crosswise(claim, source_text, strong_grades(), weak_grades()))
}

/// Whether one text holds `a` and the other `b`, either way.
fn words_opposed(claim: &Vec<char>, source_text: &Vec<char>, a: &str, b: &str) -> (r: bool)
    ensures
        r == pair_opposed(claim@, source_text@, (a@, b@)),
{
    (chars_contain_str(claim, a) && chars_contain_str(source_text, b)) || (chars_contain_str(claim, b)
        && chars_contain_str(source_text, a))
}

/// Whether one text names a word of `a` and the other a word of `b`.
fn lists_crosswise(claim: &Vec<char>, source_text: &Vec<char>, a: &Vec<&str>, b: &Vec<&str>) -> (r: bool)
    ensures
        r == crosswise(claim@, source_text@, strs_view(a@), strs_view(b@)),
{
    (contains_any(claim, a) && contains_any(source_text, b)) || (contains_any(claim, b) && contains_any(source_text, a))
}

/// Whether a claim contradicts a source's text (see `contradiction_spec`);
/// both are taken as given (the caller lower-cases them).
pub fn check_contradiction(claim: &str, source_text: &str, fact_type: FactType) -> (r: bool)
    ensures
        r == contradiction_spec(claim@, source_text@, fact_type),
{
    let c = chars_of(claim);
    let s = chars_of(source_text);
    let pairs = vec![("حلال", "حرام"), ("واجب", "مكروه"), ("مستحب", "حرام"), ("صحيح", "ضعيف"), ("ثابت", "موضوع")];
    let ghost views = pairs@.map_values(|p: (&str, &str)| (p.0@, p.1@));
    assert(views =~= opposed_pairs());
    let mut i: usize = 0;
    while i < pairs.len()
        invariant
            i <= pairs.len(),
            c@ == claim@,
            s@ == source_text@,
            views == pairs@.map_values(|p: (&str, &str)| (p.0@, p.1@)),
            views == opposed_pairs(),
            forall|k: int| 0 <= k < i ==> !#[trigger] pair_opposed(claim@, source_text@, opposed_pairs()[k]),
        decreases pairs.len() - i,
    {
        let (a, b) = pairs[i];
        if words_opposed(&c, &s, a, b) {
            assert(pair_opposed(claim@, source_text@, opposed_pairs()[i as int]));
            return true;
        }
        i = i + 1;
    }
    match fact_type {
        FactType::ReligiousRuling => {
            let positive = vec!["واجب", "فرض", "مستحب", "سنة", "مباح", "جائز"];
            let negative = vec!["حرام", "مكروه", "ممنوع"];
            assert(strs_view(positive@) =~= permitting_rulings());
            assert(strs_view(negative@) =~= forbidding_rulings());
            lists_crosswise(&c, &s, &positive, &negative)
        },
        FactType::HadithReference => {
            let strong = vec!["صحيح", "حسن"];
            let weak = vec!["ضعيف", "موضوع"];
            assert(strs_view(strong@) =~= strong_grades());
            assert(strs_view(weak@) =~= weak_grades());
            lists_crosswise(&c, &s, &strong, &weak)
        },
        _ => false,
    }
}

/// The words of rulings that a ruling support check looks for.
pub open spec fn support_keywords() -> Seq<Seq<char>> {
    seq!["واجب"@, "فرض"@, "مستحب"@, "سنة"@, "مكروه"@, "حرام"@, "مباح"@, "جائز"@]
}

/// Of the words of rulings that the claim names, how many the source's text
/// also names.
pub open spec fn shared_keyword_count(claim: Seq<char>, source_text: Seq<char>, list: Seq<Seq<char>>) -> nat
    decreases list.len(),
{
    if list.len() == 0 {
        0
    } else {
        shared_keyword_count(claim, source_text, list.drop_last()) + if seq_contains(claim, list.last())
            && seq_contains(source_text, list.last()) {
            1nat
        } else {
            0nat
        }
    }
}

/// How many words of rulings the claim names.
pub open spec fn named_keyword_count(claim: Seq<char>, list: Seq<Seq<char>>) -> nat
    decreases list.len(),
{
    if list.len() == 0 {
        0
    } else {
        named_keyword_count(claim, list.drop_last()) + if seq_contains(claim, list.last()) { 1nat } else { 0nat }
    }
}

/// The words of rulings that the claim names, and how many of them the
/// source's text names too.
pub fn ruling_keyword_counts(claim: &str, source_text: &str) -> (r: (usize, usize))
    ensures
        r.0 == shared_keyword_count(claim@, source_text@, support_keywords()),
        r.1 == named_keyword_count(claim@, support_keywords()),
{
    let keywords = vec!["واجب", "فرض", "مستحب", "سنة", "مكروه", "حرام", "مباح", "جائز"];
    let ghost kv = strs_view(keywords@);
    assert(kv =~= support_keywords());
    let c = chars_of(claim);
    let s = chars_of(source_text);
    let mut shared: usize = 0;
    let mut named: usize = 0;
    let mut i: usize = 0;
    while i < keywords.len()
        invariant
            i <= keywords.len(),
            keywords@.len() == 8,
            kv == strs_view(keywords@),
            c@ == claim@,
            s@ == source_text@,
            shared == shared_keyword_count(claim@, source_text@, kv.take(i as int)),
            named == named_keyword_count(claim@, kv.take(i as int)),
            shared <= i,
            named <= i,
        decreases keywords.len() - i,
    {
        proof {
            assert(kv.take(i + 1).drop_last() =~= kv.take(i as int));
            assert(kv.take(i + 1).last() == keywords@[i as int]@);
        }
        if chars_contain_str(&c, keywords[i]) {
            named = named + 1;
            if chars_contain_str(&s, keywords[i]) {
                shared = shared + 1;
            }
        }
        i = i + 1;
    }
    assert(kv.take(8) =~= kv);
    (shared, named)
}

} // verus!
