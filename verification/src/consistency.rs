//! The consistency checker: contradictions inside an answer (opposed rulings,
//! opposed grades of one hadith, patterns of opposition), violations of rules
//! of creed, and the context of a question of creed.
use vstd::prelude::*;
use std::collections::HashMap;
use crate::anti_hallucination::{Contradiction, ContradictionSeverity, ContradictionType, TheologicalRule};
use crate::clock::current_unix_seconds;
use crate::text::{
    captures_view, chars_of, debug_list_text, debug_string_list, is_alphabetic_char, is_white_space, join_spaced,
    join_with_spaces, lowercase_chars, lowercase_of, push_str, regex_captures, regex_group_captures,
    regex_is_match, regex_matches, seq_contains, split_words, str_eq, string_from_chars, string_views, to_string,
    vec_contains, vec_eq, words, char_is_alphabetic, char_is_whitespace,
};
use crate::types::{AuthenticityLevel, IslamicSource, Language, QuestionType, SourceType};

verus! {

// ---------------------------------------------------------------------------
// Contradictions and what they hold
// ---------------------------------------------------------------------------

/// What a contradiction says: its claim, the source it names (id, type, text,
/// reference, authenticity), its severity and its explanation.
pub struct ContradictionModel {
    pub claim: Seq<char>,
    pub source_id: Seq<char>,
    pub source_type: SourceType,
    pub source_text: Seq<char>,
    pub reference: Seq<char>,
    pub authenticity: AuthenticityLevel,
    pub severity: ContradictionSeverity,
    pub explanation: Seq<char>,
}

/// What a contradiction says.
pub open spec fn model_of(c: Contradiction) -> ContradictionModel {
    ContradictionModel {
        claim: c.claim@,
        source_id: c.contradicting_source.id@,
        source_type: c.contradicting_source.content_type,
        source_text: c.contradicting_source.text@,
        reference: c.contradicting_source.reference@,
        authenticity: c.contradicting_source.authenticity,
        severity: c.severity,
        explanation: c.explanation@,
    }
}

/// The source that a checker's contradiction names has no author, is in
/// Arabic and has no metadata.
pub open spec fn plain_source(c: Contradiction) -> bool {
    &&& c.contradicting_source.author is None
    &&& c.contradicting_source.language == Language::Arabic
    &&& c.contradicting_source.metadata@ == Map::<String, String>::empty()
}

/// What a list of contradictions says.
pub open spec fn models_of(cs: Seq<Contradiction>) -> Seq<ContradictionModel> {
    cs.map_values(|c: Contradiction| model_of(c))
}

/// Every contradiction of the list names a plain source.
pub open spec fn all_plain(cs: Seq<Contradiction>) -> bool {
    forall|i: int| 0 <= i < cs.len() ==> plain_source(#[trigger] cs[i])
}

/// A contradiction that names a source made by the checker, created now.
fn make_contradiction(
    claim: String,
    source_id: &str,
    source_type: SourceType,
    source_text: String,
    reference: String,
    authenticity: AuthenticityLevel,
    severity: ContradictionSeverity,
    explanation: String,
) -> (r: Contradiction)
    ensures
        model_of(r) == (ContradictionModel {
            claim: claim@,
            source_id: source_id@,
            source_type,
            source_text: source_text@,
            reference: reference@,
            authenticity,
            severity,
            explanation: explanation@,
        }),
        plain_source(r),
{
    Contradiction {
        claim,
        contradicting_source: IslamicSource {
            id: to_string(source_id),
            content_type: source_type,
            text: source_text,
            reference,
            author: None,
            authenticity,
            language: Language::Arabic,
            metadata: HashMap::new(),
            created_at: current_unix_seconds(),
        },
        severity,
        explanation,
    }
}

/// Appends `extra` to `out`.
fn append_contradictions(out: &mut Vec<Contradiction>, extra: Vec<Contradiction>)
    requires
        all_plain(old(out)@),
        all_plain(extra@),
    ensures
        models_of(final(out)@) == models_of(old(out)@) + models_of(extra@),
        all_plain(final(out)@),
{
    let mut extra = extra;
    let ghost start = out@;
    let ghost ex = extra@;
    out.append(&mut extra);
    assert(out@ =~= start + ex);
    assert(models_of(out@) =~= models_of(start) + models_of(ex));
}

/// The `Debug` name of a kind of contradiction.
pub open spec fn contradiction_type_name(t: ContradictionType) -> Seq<char> {
    match t {
        ContradictionType::DirectOpposition => "DirectOpposition"@,
        ContradictionType::LogicalInconsistency => "LogicalInconsistency"@,
        ContradictionType::SourceConflict => "SourceConflict"@,
        ContradictionType::ContextualError => "ContextualError"@,
    }
}

/// The `Debug` name of a kind of contradiction (see `contradiction_type_name`).
pub fn contradiction_type_debug_name(t: ContradictionType) -> (s: &'static str)
    ensures
        s@ == contradiction_type_name(t),
{
    match t {
        ContradictionType::DirectOpposition => "DirectOpposition",
        ContradictionType::LogicalInconsistency => "LogicalInconsistency",
        ContradictionType::SourceConflict => "SourceConflict",
        ContradictionType::ContextualError => "ContextualError",
    }
}

// ---------------------------------------------------------------------------
// Rulings of fiqh in a text
// ---------------------------------------------------------------------------

/// A ruling stated in a text: the ruling, its subject and where it starts.
#[derive(Debug, Clone)]
pub struct FiqhRuling {
    pub ruling: String,
    pub subject: String,
    pub position: usize,
}

/// A ruling by its view: ruling, subject, position.
pub open spec fn ruling_view(r: FiqhRuling) -> (Seq<char>, Seq<char>, usize) {
    (r.ruling@, r.subject@, r.position)
}

/// The pattern of a subject followed by its ruling.
pub open spec fn subject_then_ruling() -> Seq<char> {
    "(\\w+)\\s+(واجب|فرض|مستحب|سنة|مكروه|حرام|مباح|جائز)"@
}

/// The pattern of a ruling followed by its subject; its groups are taken in
/// the same order, so the ruling stands in the place of the subject.
pub open spec fn ruling_then_subject() -> Seq<char> {
    "(واجب|فرض|مستحب|سنة|مكروه|حرام|مباح|جائز)\\s+(\\w+)"@
}

/// For each match of `pattern` where its first two groups take part, the
/// second group as ruling, the first as subject, and the start of the match.
pub open spec fn rulings_of_matches(
    whole: Seq<Option<(usize, usize, Seq<char>)>>,
    first: Seq<Option<(usize, usize, Seq<char>)>>,
    second: Seq<Option<(usize, usize, Seq<char>)>>,
    n: int,
) -> Seq<(Seq<char>, Seq<char>, usize)>
    decreases n,
{
    if n <= 0 {
        Seq::empty()
    } else {
        let rest = rulings_of_matches(whole, first, second, n - 1);
        match (first[n - 1], second[n - 1], whole[n - 1]) {
            (Some(s), Some(r), Some(w)) => rest.push((r.2, s.2, w.0)),
            _ => rest,
        }
    }
}

/// The rulings that one pattern finds in a text.
pub open spec fn rulings_for(pattern: Seq<char>, text: Seq<char>) -> Seq<(Seq<char>, Seq<char>, usize)> {
    let whole = regex_group_captures(pattern, text, 0);
    rulings_of_matches(whole, regex_group_captures(pattern, text, 1), regex_group_captures(pattern, text, 2), whole.len() as int)
}

/// The rulings stated in a text: those of the first pattern, then those of
/// the second.
pub open spec fn rulings_spec(text: Seq<char>) -> Seq<(Seq<char>, Seq<char>, usize)> {
    rulings_for(subject_then_ruling(), text) + rulings_for(ruling_then_subject(), text)
}

/// Appends the rulings that `pattern` finds in `text`.
fn push_rulings(out: &mut Vec<FiqhRuling>, pattern: &str, text: &str)
    ensures
        final(out)@.map_values(|r: FiqhRuling| ruling_view(r)) == old(out)@.map_values(|r: FiqhRuling| ruling_view(r))
            + rulings_for(pattern@, text@),
{
    let whole = regex_captures(pattern, text, 0);
    let first = regex_captures(pattern, text, 1);
    let second = regex_captures(pattern, text, 2);
    let ghost w = captures_view(whole@);
    let ghost f = captures_view(first@);
    let ghost s = captures_view(second@);
    let ghost start = old(out)@.map_values(|r: FiqhRuling| ruling_view(r));
    let mut k: usize = 0;
    while k < whole.len()
        invariant
            k <= whole.len(),
            whole@.len() == first@.len(),
            whole@.len() == second@.len(),
            w == captures_view(whole@),
            f == captures_view(first@),
            s == captures_view(second@),
            w == regex_group_captures(pattern@, text@, 0),
            f == regex_group_captures(pattern@, text@, 1),
            s == regex_group_captures(pattern@, text@, 2),
            out@.map_values(|r: FiqhRuling| ruling_view(r)) == start + rulings_of_matches(w, f, s, k as int),
        decreases whole.len() - k,
    {
        let ghost before = out@.map_values(|r: FiqhRuling| ruling_view(r));
        match (&first[k], &second[k], &whole[k]) {
            (Some(sub), Some(rul), Some(wh)) => {
                out.push(FiqhRuling { ruling: rul.2.clone(), subject: sub.2.clone(), position: wh.0 });
                assert(out@.map_values(|r: FiqhRuling| ruling_view(r)) =~= before.push((rul.2@, sub.2@, wh.0)));
            },
            _ => {},
        }
        k = k + 1;
    }
}

/// The rulings stated in a text (see `rulings_spec`).
pub fn extract_fiqh_rulings(text: &str) -> (r: Vec<FiqhRuling>)
    ensures
        r@.map_values(|x: FiqhRuling| ruling_view(x)) == rulings_spec(text@),
{
    let mut out: Vec<FiqhRuling> = Vec::new();
    assert(out@.map_values(|x: FiqhRuling| ruling_view(x)) =~= Seq::empty());
    push_rulings(&mut out, "(\\w+)\\s+(واجب|فرض|مستحب|سنة|مكروه|حرام|مباح|جائز)", text);
    push_rulings(&mut out, "(واجب|فرض|مستحب|سنة|مكروه|حرام|مباح|جائز)\\s+(\\w+)", text);
    out
}

/// Two rulings contradict one another: same subject, and one of them
/// obligatory, recommended, lawful or permitted where the other is forbidden,
/// or obligatory where the other is disliked.
pub open spec fn rulings_contradict(a: (Seq<char>, Seq<char>, usize), b: (Seq<char>, Seq<char>, usize)) -> bool {
    let pair = |p: Seq<char>, n: Seq<char>| (a.0 == p && b.0 == n) || (a.0 == n && b.0 == p);
    a.1 == b.1 && (pair("واجب"@, "حرام"@) || pair("فرض"@, "مكروه"@) || pair("مستحب"@, "حرام"@) || pair(
        "حلال"@,
        "حرام"@,
    ) || pair("مباح"@, "حرام"@))
}

/// Whether two rulings contradict one another (see `rulings_contradict`).
pub fn are_rulings_contradictory(a: &FiqhRuling, b: &FiqhRuling) -> (r: bool)
    ensures
        r == rulings_contradict(ruling_view(*a), ruling_view(*b)),
{
    if !str_eq(a.subject.as_str(), b.subject.as_str()) {
        return false;
    }
    let x = a.ruling.as_str();
    let y = b.ruling.as_str();
    (str_eq(x, "واجب") && str_eq(y, "حرام")) || (str_eq(x, "حرام") && str_eq(y, "واجب"))
        || (str_eq(x, "فرض") && str_eq(y, "مكروه")) || (str_eq(x, "مكروه") && str_eq(y, "فرض"))
        || (str_eq(x, "مستحب") && str_eq(y, "حرام")) || (str_eq(x, "حرام") && str_eq(y, "مستحب"))
        || (str_eq(x, "حلال") && str_eq(y, "حرام")) || (str_eq(x, "حرام") && str_eq(y, "حلال"))
        || (str_eq(x, "مباح") && str_eq(y, "حرام")) || (str_eq(x, "حرام") && str_eq(y, "مباح"))
}

/// What the contradiction between two rulings says.
pub open spec fn ruling_contradiction(a: (Seq<char>, Seq<char>, usize), b: (Seq<char>, Seq<char>, usize), text: Seq<char>) -> ContradictionModel {
    ContradictionModel {
        claim: "تناقض في الأحكام: "@ + a.0 + " مقابل "@ + b.0,
        source_id: "fiqh_contradiction"@,
        source_type: SourceType::FiqhRuling,
        source_text: text,
        reference: "تناقض داخلي "@,
        authenticity: AuthenticityLevel::Questionable,
        severity: ContradictionSeverity::Major,
        explanation: "تناقض في الأحكام الفقهية داخل النص "@,
    }
}

/// The contradictions of ruling `i` with the rulings after it, up to `m`.
pub open spec fn ruling_row(rs: Seq<(Seq<char>, Seq<char>, usize)>, i: int, m: int, text: Seq<char>) -> Seq<ContradictionModel>
    decreases m - i,
{
    if m <= i + 1 {
        Seq::empty()
    } else {
        let rest = ruling_row(rs, i, m - 1, text);
        if rulings_contradict(rs[i], rs[m - 1]) { rest.push(ruling_contradiction(rs[i], rs[m - 1], text)) } else { rest }
    }
}

/// The contradictions among the first `n` rulings and all rulings after them,
/// row by row.
pub open spec fn ruling_rows(rs: Seq<(Seq<char>, Seq<char>, usize)>, n: int, text: Seq<char>) -> Seq<ContradictionModel>
    decreases n,
{
    if n <= 0 {
        Seq::empty()
    } else {
        ruling_rows(rs, n - 1, text) + ruling_row(rs, n - 1, rs.len() as int, text)
    }
}

/// The contradictions among the rulings of a text: each pair in order of the
/// first ruling, then of the second.
pub open spec fn fiqh_contradictions_spec(text: Seq<char>) -> Seq<ContradictionModel> {
    let rs = rulings_spec(text);
    ruling_rows(rs, rs.len() as int, text)
}

/// The contradictions among the rulings of a text (see
/// `fiqh_contradictions_spec`).
pub fn check_fiqh_contradictions(text: &str) -> (r: Vec<Contradiction>)
    ensures
        models_of(r@) == fiqh_contradictions_spec(text@),
        all_plain(r@),
{
    let rulings = extract_fiqh_rulings(text);
    let ghost rs = rulings@.map_values(|x: FiqhRuling| ruling_view(x));
    let mut out: Vec<Contradiction> = Vec::new();
    let mut i: usize = 0;
    while i < rulings.len()
        invariant
            i <= rulings.len(),
            rs == rulings@.map_values(|x: FiqhRuling| ruling_view(x)),
            rs == rulings_spec(text@),
            models_of(out@) == ruling_rows(rs, i as int, text@),
            all_plain(out@),
        decreases rulings.len() - i,
    {
        let ghost row_start = models_of(out@);
        let mut j: usize = i + 1;
        while j < rulings.len()
            invariant
                i < rulings.len(),
                i + 1 <= j <= rulings.len(),
                rs == rulings@.map_values(|x: FiqhRuling| ruling_view(x)),
                models_of(out@) == row_start + ruling_row(rs, i as int, j as int, text@),
                all_plain(out@),
            decreases rulings.len() - j,
        {
            if are_rulings_contradictory(&rulings[i], &rulings[j]) {
                let mut claim: Vec<char> = Vec::new();
                push_str(&mut claim, "تناقض في الأحكام: ");
                push_str(&mut claim, rulings[i].ruling.as_str());
                push_str(&mut claim, " مقابل ");
                push_str(&mut claim, rulings[j].ruling.as_str());
                let c = make_contradiction(
                    string_from_chars(&claim),
                    "fiqh_contradiction",
                    SourceType::FiqhRuling,
                    to_string(text),
                    to_string("تناقض داخلي "),
                    AuthenticityLevel::Questionable,
                    ContradictionSeverity::Major,
                    to_string("تناقض في الأحكام الفقهية داخل النص "),
                );
                let ghost before = out@;
                out.push(c);
                proof {
                    assert(model_of(c) == ruling_contradiction(rs[i as int], rs[j as int], text@));
                    assert(models_of(out@) =~= models_of(before).push(model_of(c)));
                    assert forall|k: int| 0 <= k < out@.len() implies plain_source(#[trigger] out@[k]) by {
                        if k < before.len() {
                            assert(out@[k] == before[k]);
                        }
                    }
                }
            }
            j = j + 1;
        }
        i = i + 1;
    }
    out
}

// ---------------------------------------------------------------------------
// Grades of hadith in a text
// ---------------------------------------------------------------------------

/// A grade given to a hadith in a text: the hadith's text, the grade and where
/// it starts.
#[derive(Debug, Clone)]
pub struct HadithGradeMention {
    pub hadith_text: String,
    pub grade: String,
    pub position: usize,
}

/// A grade mention by its view: hadith text, grade, position.
pub open spec fn mention_view(m: HadithGradeMention) -> (Seq<char>, Seq<char>, usize) {
    (m.hadith_text@, m.grade@, m.position)
}

/// The pattern of a hadith followed by its grade.
pub open spec fn grade_pattern() -> Seq<char> {
    "حديث\\s+([^.]+)\\s+(صحيح|حسن|ضعيف|موضوع)"@
}

/// The grades given to hadith in a text: for each match of the pattern, the
/// first group as the hadith, the second as the grade, and the start of the
/// match.
pub open spec fn grades_spec(text: Seq<char>) -> Seq<(Seq<char>, Seq<char>, usize)> {
    let whole = regex_group_captures(grade_pattern(), text, 0);
    rulings_of_matches(
        whole,
        regex_group_captures(grade_pattern(), text, 2),
        regex_group_captures(grade_pattern(), text, 1),
        whole.len() as int,
    )
}

/// The grades given to hadith in a text (see `grades_spec`).
pub fn extract_hadith_grades(text: &str) -> (r: Vec<HadithGradeMention>)
    ensures
        r@.map_values(|x: HadithGradeMention| mention_view(x)) == grades_spec(text@),
{
    let pattern = "حديث\\s+([^.]+)\\s+(صحيح|حسن|ضعيف|موضوع)";
    let whole = regex_captures(pattern, text, 0);
    let hadith = regex_captures(pattern, text, 1);
    let grade = regex_captures(pattern, text, 2);
    let ghost w = captures_view(whole@);
    let ghost h = captures_view(hadith@);
    let ghost g = captures_view(grade@);
    let mut out: Vec<HadithGradeMention> = Vec::new();
    let mut k: usize = 0;
    while k < whole.len()
        invariant
            k <= whole.len(),
            whole@.len() == hadith@.len(),
            whole@.len() == grade@.len(),
            w == captures_view(whole@),
            h == captures_view(hadith@),
            g == captures_view(grade@),
            w == regex_group_captures(pattern@, text@, 0),
            h == regex_group_captures(pattern@, text@, 1),
            g == regex_group_captures(pattern@, text@, 2),
            out@.map_values(|x: HadithGradeMention| mention_view(x)) == rulings_of_matches(w, g, h, k as int),
        decreases whole.len() - k,
    {
        let ghost before = out@.map_values(|x: HadithGradeMention| mention_view(x));
        match (&grade[k], &hadith[k], &whole[k]) {
            (Some(gr), Some(hd), Some(wh)) => {
                out.push(HadithGradeMention { hadith_text: hd.2.clone(), grade: gr.2.clone(), position: wh.0 });
                assert(out@.map_values(|x: HadithGradeMention| mention_view(x)) =~= before.push((hd.2@, gr.2@, wh.0)));
            },
            _ => {},
        }
        k = k + 1;
    }
    out
}

/// The text of a hadith as compared: lower-cased, with only its letters and
/// white space, its words joined by single spaces.
pub open spec fn normalized_hadith(text: Seq<char>) -> Seq<char> {
    join_spaced(words(lowercase_of(text).filter(|c: char| is_alphabetic_char(c) || is_white_space(c))))
}

/// The letters and white space of `s`, in order.
fn keep_letters_and_space(s: &Vec<char>) -> (r: Vec<char>)
    ensures
        r@ == s@.filter(|c: char| is_alphabetic_char(c) || is_white_space(c)),
{
    let ghost p = |c: char| is_alphabetic_char(c) || is_white_space(c);
    let mut r: Vec<char> = Vec::new();
    let mut i: usize = 0;
    while i < s.len()
        invariant
            i <= s.len(),
            p == (|c: char| is_alphabetic_char(c) || is_white_space(c)),
            r@ == s@.take(i as int).filter(p),
        decreases s.len() - i,
    {
        proof {
            assert(s@.take(i + 1).drop_last() =~= s@.take(i as int));
            reveal_with_fuel(Seq::filter, 1);
        }
        let c = s[i];
        if char_is_alphabetic(c) || char_is_whitespace(c) {
            r.push(c);
        }
        i = i + 1;
    }
    assert(s@.take(s.len() as int) =~= s@);
    r
}

/// The text of a hadith as compared (see `normalized_hadith`).
pub fn normalize_hadith_text(text: &str) -> (r: String)
    ensures
        r@ == normalized_hadith(text@),
{
    let low = lowercase_chars(text);
    let kept = keep_letters_and_space(&low);
    let ws = split_words(&kept);
    let joined = join_with_spaces(&ws);
    string_from_chars(&joined)
}

/// The grades of a hadith contradict one another: one is sound or good and one
/// is weak or fabricated.
pub open spec fn grades_contradict(grades: Seq<Seq<char>>) -> bool {
    (exists|i: int| 0 <= i < grades.len() && (grades[i] == "صحيح"@ || grades[i] == "حسن"@))
        && (exists|i: int| 0 <= i < grades.len() && (grades[i] == "ضعيف"@ || grades[i] == "موضوع"@))
}

/// Whether the grades of a hadith contradict one another (see
/// `grades_contradict`).
pub fn are_grades_contradictory(grades: &Vec<String>) -> (r: bool)
    ensures
        r == grades_contradict(string_views(grades@)),
{
    let ghost gs = string_views(grades@);
    let mut has_strong = false;
    let mut has_weak = false;
    let mut i: usize = 0;
    while i < grades.len()
        invariant
            i <= grades.len(),
            gs == string_views(grades@),
            has_strong <==> exists|k: int| 0 <= k < i && (gs[k] == "صحيح"@ || gs[k] == "حسن"@),
            has_weak <==> exists|k: int| 0 <= k < i && (gs[k] == "ضعيف"@ || gs[k] == "موضوع"@),
        decreases grades.len() - i,
    {
        let g = grades[i].as_str();
        assert(gs[i as int] == g@);
        if str_eq(g, "صحيح") || str_eq(g, "حسن") {
            has_strong = true;
        }
        if str_eq(g, "ضعيف") || str_eq(g, "موضوع") {
            has_weak = true;
        }
        i = i + 1;
    }
    has_strong && has_weak
}

/// The hadith texts (as compared) of the mentions.
pub open spec fn mention_keys(ms: Seq<(Seq<char>, Seq<char>, usize)>) -> Seq<Seq<char>> {
    ms.map_values(|m: (Seq<char>, Seq<char>, usize)| normalized_hadith(m.0))
}

/// The grades of the mentions.
pub open spec fn mention_grades(ms: Seq<(Seq<char>, Seq<char>, usize)>) -> Seq<Seq<char>> {
    ms.map_values(|m: (Seq<char>, Seq<char>, usize)| m.1)
}

/// The distinct keys, in order of first appearance.
pub open spec fn group_keys(keys: Seq<Seq<char>>) -> Seq<Seq<char>>
    decreases keys.len(),
{
    if keys.len() == 0 {
        Seq::empty()
    } else {
        let g = group_keys(keys.drop_last());
        if g.contains(keys.last()) { g } else { g.push(keys.last()) }
    }
}

/// The grades given under `key`, in order.
pub open spec fn grades_for(key: Seq<char>, keys: Seq<Seq<char>>, grades: Seq<Seq<char>>) -> Seq<Seq<char>>
    decreases keys.len(),
{
    if keys.len() == 0 || grades.len() == 0 {
        Seq::empty()
    } else {
        let rest = grades_for(key, keys.drop_last(), grades.drop_last());
        if keys.last() == key { rest.push(grades.last()) } else { rest }
    }
}

/// What the contradiction among the grades of one hadith says.
pub open spec fn grade_contradiction(key: Seq<char>, grades: Seq<Seq<char>>) -> ContradictionModel {
    ContradictionModel {
        claim: "تناقض في درجة الحديث: "@ + debug_list_text(grades),
        source_id: "hadith_grade_contradiction"@,
        source_type: SourceType::SahihHadith,
        source_text: key,
        reference: "تناقض في الدرجة "@,
        authenticity: AuthenticityLevel::Questionable,
        severity: ContradictionSeverity::Major,
        explanation: "تناقض في درجة صحة نفس الحديث "@,
    }
}

/// The contradictions among the grades of the first `n` distinct hadith.
pub open spec fn grade_group_contradictions(
    gk: Seq<Seq<char>>,
    keys: Seq<Seq<char>>,
    grades: Seq<Seq<char>>,
    n: int,
) -> Seq<ContradictionModel>
    decreases n,
{
    if n <= 0 {
        Seq::empty()
    } else {
        let rest = grade_group_contradictions(gk, keys, grades, n - 1);
        let gs = grades_for(gk[n - 1], keys, grades);
        if gs.len() > 1 && grades_contradict(gs) { rest.push(grade_contradiction(gk[n - 1], gs)) } else { rest }
    }
}

/// The contradictions among the grades given to one hadith in a text: for each
/// hadith (as compared), in order of first mention, given more than one grade,
/// one sound or good and one weak or fabricated.
pub open spec fn grade_contradictions_spec(text: Seq<char>) -> Seq<ContradictionModel> {
    let ms = grades_spec(text);
    let keys = mention_keys(ms);
    let gk = group_keys(keys);
    grade_group_contradictions(gk, keys, mention_grades(ms), gk.len() as int)
}

/// Whether `key` is one of `list`.
fn string_listed(list: &Vec<String>, key: &String) -> (r: bool)
    ensures
        r == string_views(list@).contains(key@),
{
    let mut i: usize = 0;
    while i < list.len()
        invariant
            i <= list.len(),
            forall|k: int| 0 <= k < i ==> string_views(list@)[k] != key@,
        decreases list.len() - i,
    {
        if str_eq(list[i].as_str(), key.as_str()) {
            assert(string_views(list@)[i as int] == key@);
            return true;
        }
        i = i + 1;
    }
    false
}

/// The contradictions among the grades given to one hadith in a text (see
/// `grade_contradictions_spec`).
pub fn check_hadith_grade_contradictions(text: &str) -> (r: Vec<Contradiction>)
    ensures
        models_of(r@) == grade_contradictions_spec(text@),
        all_plain(r@),
{
    let mentions = extract_hadith_grades(text);
    let ghost ms = mentions@.map_values(|x: HadithGradeMention| mention_view(x));
    let mut keys: Vec<String> = Vec::new();
    let mut grades: Vec<String> = Vec::new();
    let mut i: usize = 0;
    while i < mentions.len()
        invariant
            i <= mentions.len(),
            ms == mentions@.map_values(|x: HadithGradeMention| mention_view(x)),
            string_views(keys@) == mention_keys(ms).take(i as int),
            string_views(grades@) == mention_grades(ms).take(i as int),
        decreases mentions.len() - i,
    {
        let ghost kb = string_views(keys@);
        let ghost gb = string_views(grades@);
        let key = normalize_hadith_text(mentions[i].hadith_text.as_str());
        let grade = mentions[i].grade.clone();
        proof {
            assert(ms[i as int] == mention_view(mentions@[i as int]));
            assert(mention_keys(ms)[i as int] == key@);
            assert(mention_grades(ms)[i as int] == grade@);
            assert(mention_keys(ms).take(i + 1) =~= kb.push(key@));
            assert(mention_grades(ms).take(i + 1) =~= gb.push(grade@));
        }
        keys.push(key);
        grades.push(grade);
        assert(string_views(keys@) =~= kb.push(mention_keys(ms)[i as int]));
        assert(string_views(grades@) =~= gb.push(mention_grades(ms)[i as int]));
        i = i + 1;
    }
    let ghost kv = string_views(keys@);
    let ghost gv = string_views(grades@);
    assert(kv =~= mention_keys(ms));
    assert(gv =~= mention_grades(ms));
    let mut distinct: Vec<String> = Vec::new();
    let mut j: usize = 0;
    while j < keys.len()
        invariant
            j <= keys.len(),
            kv == string_views(keys@),
            string_views(distinct@) == group_keys(kv.take(j as int)),
        decreases keys.len() - j,
    {
        proof {
            assert(kv.take(j + 1).drop_last() =~= kv.take(j as int));
        }
        if !string_listed(&distinct, &keys[j]) {
            let ghost before = string_views(distinct@);
            distinct.push(keys[j].clone());
            assert(string_views(distinct@) =~= before.push(kv[j as int]));
        }
        j = j + 1;
    }
    assert(kv.take(keys.len() as int) =~= kv);
    let ghost gk = string_views(distinct@);
    let mut out: Vec<Contradiction> = Vec::new();
    let mut d: usize = 0;
    while d < distinct.len()
        invariant
            d <= distinct.len(),
            kv == string_views(keys@),
            gv == string_views(grades@),
            keys@.len() == grades@.len(),
            gk == string_views(distinct@),
            models_of(out@) == grade_group_contradictions(gk, kv, gv, d as int),
            all_plain(out@),
        decreases distinct.len() - d,
    {
        let mut gs: Vec<String> = Vec::new();
        let mut m: usize = 0;
        while m < keys.len()
            invariant
                m <= keys.len(),
                d < distinct.len(),
                keys@.len() == grades@.len(),
                kv == string_views(keys@),
                gv == string_views(grades@),
                gk == string_views(distinct@),
                string_views(gs@) == grades_for(gk[d as int], kv.take(m as int), gv.take(m as int)),
            decreases keys.len() - m,
        {
            proof {
                assert(kv.take(m + 1).drop_last() =~= kv.take(m as int));
                assert(gv.take(m + 1).drop_last() =~= gv.take(m as int));
            }
            if str_eq(keys[m].as_str(), distinct[d].as_str()) {
                let ghost before = string_views(gs@);
                gs.push(grades[m].clone());
                assert(string_views(gs@) =~= before.push(gv[m as int]));
            }
            m = m + 1;
        }
        assert(kv.take(keys.len() as int) =~= kv);
        assert(gv.take(keys.len() as int) =~= gv);
        if gs.len() > 1 && are_grades_contradictory(&gs) {
            let mut claim: Vec<char> = Vec::new();
            push_str(&mut claim, "تناقض في درجة الحديث: ");
            let listed = debug_string_list(&gs);
            push_str(&mut claim, listed.as_str());
            let c = make_contradiction(
                string_from_chars(&claim),
                "hadith_grade_contradiction",
                SourceType::SahihHadith,
                distinct[d].clone(),
                to_string("تناقض في الدرجة "),
                AuthenticityLevel::Questionable,
                ContradictionSeverity::Major,
                to_string("تناقض في درجة صحة نفس الحديث "),
            );
            let ghost before = out@;
            out.push(c);
            proof {
                assert(model_of(c) == grade_contradiction(gk[d as int], string_views(gs@)));
                assert(models_of(out@) =~= models_of(before).push(model_of(c)));
                assert forall|k: int| 0 <= k < out@.len() implies plain_source(#[trigger] out@[k]) by {
                    if k < before.len() {
                        assert(out@[k] == before[k]);
                    }
                }
            }
        }
        d = d + 1;
    }
    out
}

// ---------------------------------------------------------------------------
// Rules of creed
// ---------------------------------------------------------------------------

/// A rule by its view: name, condition, expected outcome, severity.
pub open spec fn rule_view(r: TheologicalRule) -> (Seq<char>, Seq<char>, Seq<char>, ContradictionSeverity) {
    (r.rule_name@, r.condition@, r.expected_outcome@, r.violation_severity)
}

/// What the violation of a rule says.
pub open spec fn rule_violation(rule: (Seq<char>, Seq<char>, Seq<char>, ContradictionSeverity)) -> ContradictionModel {
    ContradictionModel {
        claim: "انتهاك القاعدة اللاهوتية: "@ + rule.0,
        source_id: "theological_violation"@,
        source_type: SourceType::ScholarOpinion,
        source_text: rule.1,
        reference: "القاعدة: "@ + rule.0,
        authenticity: AuthenticityLevel::Verified,
        severity: rule.3,
        explanation: "انتهاك للقاعدة اللاهوتية: "@ + rule.0,
    }
}

/// A text violates a rule when, lower-cased, it holds the rule's condition
/// and not its expected outcome (both lower-cased).
pub open spec fn violates(text: Seq<char>, rule: (Seq<char>, Seq<char>, Seq<char>, ContradictionSeverity)) -> bool {
    seq_contains(lowercase_of(text), lowercase_of(rule.1)) && !seq_contains(lowercase_of(text), lowercase_of(rule.2))
}

/// The violations of the first `n` rules, in order.
pub open spec fn violations_spec(
    rules: Seq<(Seq<char>, Seq<char>, Seq<char>, ContradictionSeverity)>,
    text: Seq<char>,
    n: int,
) -> Seq<ContradictionModel>
    decreases n,
{
    if n <= 0 {
        Seq::empty()
    } else {
        let rest = violations_spec(rules, text, n - 1);
        if violates(text, rules[n - 1]) { rest.push(rule_violation(rules[n - 1])) } else { rest }
    }
}

/// The words whose mention, without a clear rejection, leaves the stance of an
/// answer on creed unclear.
pub open spec fn aqeedah_violation_words() -> Seq<Seq<char>> {
    seq!["شرك"@, "كفر"@, "بدعة"@]
}

/// A word of violation is mentioned without rejection: the text holds it, and
/// holds no "not" ("لا" or "ليس"), nor the word after "not", nor the word
/// before "forbidden".
pub open spec fn unrejected(text: Seq<char>, v: Seq<char>) -> bool {
    &&& seq_contains(text, v)
    &&& !seq_contains(text, "لا"@)
    &&& !seq_contains(text, "ليس"@)
    &&& !seq_contains(text, "لا "@ + v)
    &&& !seq_contains(text, v + " محرم "@)
}

/// What an unclear stance on a word of violation says.
pub open spec fn aqeedah_contradiction(v: Seq<char>) -> ContradictionModel {
    ContradictionModel {
        claim: "ذكر "@ + v + " بدون إدانة واضحة "@,
        source_id: "aqeedah_context"@,
        source_type: SourceType::ScholarOpinion,
        source_text: "العقيدة الصحيحة تتطلب رفض "@ + v,
        reference: "أصول العقيدة "@,
        authenticity: AuthenticityLevel::Verified,
        severity: ContradictionSeverity::Major,
        explanation: "عدم وضوح الموقف من "@ + v,
    }
}

/// The unclear stances of an answer on creed, for the first `n` words.
pub open spec fn aqeedah_spec_upto(text: Seq<char>, n: int) -> Seq<ContradictionModel>
    decreases n,
{
    if n <= 0 {
        Seq::empty()
    } else {
        let rest = aqeedah_spec_upto(text, n - 1);
        let v = aqeedah_violation_words()[n - 1];
        if unrejected(text, v) { rest.push(aqeedah_contradiction(v)) } else { rest }
    }
}

/// The unclear stances of an answer on creed.
pub open spec fn aqeedah_spec(text: Seq<char>) -> Seq<ContradictionModel> {
    aqeedah_spec_upto(text, 3)
}

/// The unclear stances of an answer on creed (see `aqeedah_spec`).
pub fn check_aqeedah_context(text: &str) -> (r: Vec<Contradiction>)
    ensures
        models_of(r@) == aqeedah_spec(text@),
        all_plain(r@),
{
    let words = vec!["شرك", "كفر", "بدعة"];
    assert(words@.map_values(|w: &str| w@) =~= aqeedah_violation_words());
    let t = chars_of(text);
    let mut out: Vec<Contradiction> = Vec::new();
    let mut i: usize = 0;
    while i < words.len()
        invariant
            i <= words.len(),
            words@.len() == 3,
            words@.map_values(|w: &str| w@) == aqeedah_violation_words(),
            t@ == text@,
            models_of(out@) == aqeedah_spec_upto(text@, i as int),
            all_plain(out@),
        decreases words.len() - i,
    {
        let v = words[i];
        assert(aqeedah_violation_words()[i as int] == v@);
        let mut not_v: Vec<char> = Vec::new();
        push_str(&mut not_v, "لا ");
        push_str(&mut not_v, v);
        let mut v_forbidden: Vec<char> = Vec::new();
        push_str(&mut v_forbidden, v);
        push_str(&mut v_forbidden, " محرم ");
        if vec_contains(&t, &chars_of(v)) && !vec_contains(&t, &chars_of("لا")) && !vec_contains(&t, &chars_of("ليس"))
            && !vec_contains(&t, &not_v) && !vec_contains(&t, &v_forbidden) {
            let mut claim: Vec<char> = Vec::new();
            push_str(&mut claim, "ذكر ");
            push_str(&mut claim, v);
            push_str(&mut claim, " بدون إدانة واضحة ");
            let mut src: Vec<char> = Vec::new();
            push_str(&mut src, "العقيدة الصحيحة تتطلب رفض ");
            push_str(&mut src, v);
            let mut expl: Vec<char> = Vec::new();
            push_str(&mut expl, "عدم وضوح الموقف من ");
            push_str(&mut expl, v);
            let c = make_contradiction(
                string_from_chars(&claim),
                "aqeedah_context",
                SourceType::ScholarOpinion,
                string_from_chars(&src),
                to_string("أصول العقيدة "),
                AuthenticityLevel::Verified,
                ContradictionSeverity::Major,
                string_from_chars(&expl),
            );
            let ghost before = out@;
            out.push(c);
            proof {
                assert(models_of(out@) =~= models_of(before).push(model_of(c)));
                assert forall|k: int| 0 <= k < out@.len() implies plain_source(#[trigger] out@[k]) by {
                    if k < before.len() {
                        assert(out@[k] == before[k]);
                    }
                }
            }
        }
        i = i + 1;
    }
    out
}

// ---------------------------------------------------------------------------
// The checker
// ---------------------------------------------------------------------------

/// A pattern whose match in an answer is a contradiction of a kind and a
/// severity; the pattern is kept as the text of a regular expression.
#[derive(Debug, Clone)]
pub struct ContradictionPattern {
    pub pattern: String,
    pub contradiction_type: ContradictionType,
    pub severity: ContradictionSeverity,
}

/// A pattern by its view: text, kind, severity.
pub open spec fn pattern_view(p: ContradictionPattern) -> (Seq<char>, ContradictionType, ContradictionSeverity) {
    (p.pattern@, p.contradiction_type, p.severity)
}

/// What a match of a pattern says.
pub open spec fn pattern_contradiction(p: (Seq<char>, ContradictionType, ContradictionSeverity), text: Seq<char>) -> ContradictionModel {
    ContradictionModel {
        claim: "تناقض داخلي في النص "@,
        source_id: "internal_contradiction"@,
        source_type: SourceType::ScholarOpinion,
        source_text: text,
        reference: "النص نفسه "@,
        authenticity: AuthenticityLevel::Questionable,
        severity: p.2,
        explanation: "تم اكتشاف تناقض من نوع: "@ + contradiction_type_name(p.1),
    }
}

/// The matches of the first `n` patterns in a text, in order.
pub open spec fn pattern_hits(ps: Seq<(Seq<char>, ContradictionType, ContradictionSeverity)>, text: Seq<char>, n: int) -> Seq<ContradictionModel>
    decreases n,
{
    if n <= 0 {
        Seq::empty()
    } else {
        let rest = pattern_hits(ps, text, n - 1);
        if regex_is_match(ps[n - 1].0, text) { rest.push(pattern_contradiction(ps[n - 1], text)) } else { rest }
    }
}

/// The standard patterns of opposition: lawful against forbidden, obligatory
/// against disliked, sound against weak.
pub open spec fn standard_patterns() -> Seq<(Seq<char>, ContradictionType, ContradictionSeverity)> {
    seq![
        ("حلال.*حرام|حرام.*حلال"@, ContradictionType::DirectOpposition, ContradictionSeverity::Critical),
        ("واجب.*مكروه|مكروه.*واجب"@, ContradictionType::DirectOpposition, ContradictionSeverity::Major),
        ("صحيح.*ضعيف|ضعيف.*صحيح"@, ContradictionType::SourceConflict, ContradictionSeverity::Major),
    ]
}

/// The standard rules of creed: worship of other than Allah is shirk; the
/// Quran holds no error.
pub open spec fn standard_rules() -> Seq<(Seq<char>, Seq<char>, Seq<char>, ContradictionSeverity)> {
    seq![
        ("توحيد الألوهية "@, "عبادة غير الله "@, "شرك"@, ContradictionSeverity::Critical),
        ("عصمة القرآن "@, "خطأ في القرآن "@, "رفض الادعاء "@, ContradictionSeverity::Critical),
    ]
}

/// Checks an answer for contradictions.
pub struct ConsistencyChecker {
    pub contradiction_patterns: Vec<ContradictionPattern>,
    pub theological_rules: Vec<TheologicalRule>,
}

/// Nothing contradicts between two sources: the comparison of sources is not
/// made.
fn find_source_to_source_contradiction(a: &IslamicSource, b: &IslamicSource) -> (r: Option<Contradiction>)
    ensures
        r is None,
{
    None
}

/// Nothing contradicts between an answer and a source directly: the
/// comparison is not made.
fn find_direct_contradiction(response: &Vec<char>, source: &Vec<char>) -> (r: Option<String>)
    ensures
        r is None,
{
    None
}

/// Nothing contradicts between an answer and a source in context: the
/// comparison is not made.
fn find_contextual_contradiction(response: &Vec<char>, source: &Vec<char>, question_type: QuestionType) -> (r: Option<String>)
    ensures
        r is None,
{
    None
}

impl ConsistencyChecker {
    /// The patterns by their views.
    pub open spec fn patterns(&self) -> Seq<(Seq<char>, ContradictionType, ContradictionSeverity)> {
        self.contradiction_patterns@.map_values(|p: ContradictionPattern| pattern_view(p))
    }

    /// The rules by their views.
    pub open spec fn rules(&self) -> Seq<(Seq<char>, Seq<char>, Seq<char>, ContradictionSeverity)> {
        self.theological_rules@.map_values(|r: TheologicalRule| rule_view(r))
    }

    /// A checker with the standard patterns and rules.
    pub fn new() -> (r: Self)
        ensures
            r.patterns() == standard_patterns(),
            r.rules() == standard_rules(),
    {
        let mut contradiction_patterns: Vec<ContradictionPattern> = Vec::new();
        contradiction_patterns.push(ContradictionPattern {
            pattern: to_string("حلال.*حرام|حرام.*حلال"),
            contradiction_type: ContradictionType::DirectOpposition,
            severity: ContradictionSeverity::Critical,
        });
        contradiction_patterns.push(ContradictionPattern {
            pattern: to_string("واجب.*مكروه|مكروه.*واجب"),
            contradiction_type: ContradictionType::DirectOpposition,
            severity: ContradictionSeverity::Major,
        });
        contradiction_patterns.push(ContradictionPattern {
            pattern: to_string("صحيح.*ضعيف|ضعيف.*صحيح"),
            contradiction_type: ContradictionType::SourceConflict,
            severity: ContradictionSeverity::Major,
        });
        let mut theological_rules: Vec<TheologicalRule> = Vec::new();
        theological_rules.push(TheologicalRule {
            rule_name: to_string("توحيد الألوهية "),
            condition: to_string("عبادة غير الله "),
            expected_outcome: to_string("شرك"),
            violation_severity: ContradictionSeverity::Critical,
        });
        theological_rules.push(TheologicalRule {
            rule_name: to_string("عصمة القرآن "),
            condition: to_string("خطأ في القرآن "),
            expected_outcome: to_string("رفض الادعاء "),
            violation_severity: ContradictionSeverity::Critical,
        });
        let r = ConsistencyChecker { contradiction_patterns, theological_rules };
        assert(r.patterns() =~= standard_patterns());
        assert(r.rules() =~= standard_rules());
        r
    }

    /// The contradictions inside an answer: the matches of the patterns, then
    /// the opposed rulings, then the opposed grades.
    pub fn check_internal_contradictions(&self, text: &str) -> (r: Vec<Contradiction>)
        ensures
            models_of(r@) == pattern_hits(self.patterns(), text@, self.patterns().len() as int)
                + fiqh_contradictions_spec(text@) + grade_contradictions_spec(text@),
            all_plain(r@),
    {
        let ghost ps = self.patterns();
        let mut out: Vec<Contradiction> = Vec::new();
        let mut i: usize = 0;
        while i < self.contradiction_patterns.len()
            invariant
                i <= self.contradiction_patterns.len(),
                ps == self.patterns(),
                models_of(out@) == pattern_hits(ps, text@, i as int),
                all_plain(out@),
            decreases self.contradiction_patterns.len() - i,
        {
            let p = &self.contradiction_patterns[i];
            assert(ps[i as int] == pattern_view(*p));
            if regex_matches(p.pattern.as_str(), text) {
                let mut expl: Vec<char> = Vec::new();
                push_str(&mut expl, "تم اكتشاف تناقض من نوع: ");
                push_str(&mut expl, contradiction_type_debug_name(p.contradiction_type));
                let c = make_contradiction(
                    to_string("تناقض داخلي في النص "),
                    "internal_contradiction",
                    SourceType::ScholarOpinion,
                    to_string(text),
                    to_string("النص نفسه "),
                    AuthenticityLevel::Questionable,
                    p.severity,
                    string_from_chars(&expl),
                );
                let ghost before = out@;
                out.push(c);
                proof {
                    assert(models_of(out@) =~= models_of(before).push(model_of(c)));
                    assert forall|k: int| 0 <= k < out@.len() implies plain_source(#[trigger] out@[k]) by {
                        if k < before.len() {
                            assert(out@[k] == before[k]);
                        }
                    }
                }
            }
            i = i + 1;
        }
        let fiqh = check_fiqh_contradictions(text);
        append_contradictions(&mut out, fiqh);
        let grades = check_hadith_grade_contradictions(text);
        append_contradictions(&mut out, grades);
        out
    }

    /// The violations of the rules of creed, in order of the rules (see
    /// `violates`).
    pub fn check_theological_violations(&self, text: &str) -> (r: Vec<Contradiction>)
        ensures
            models_of(r@) == violations_spec(self.rules(), text@, self.rules().len() as int),
            all_plain(r@),
    {
        let ghost rs = self.rules();
        let low = lowercase_chars(text);
        let mut out: Vec<Contradiction> = Vec::new();
        let mut i: usize = 0;
        while i < self.theological_rules.len()
            invariant
                i <= self.theological_rules.len(),
                rs == self.rules(),
                low@ == lowercase_of(text@),
                models_of(out@) == violations_spec(rs, text@, i as int),
                all_plain(out@),
            decreases self.theological_rules.len() - i,
        {
            let rule = &self.theological_rules[i];
            assert(rs[i as int] == rule_view(*rule));
            let cond = lowercase_chars(rule.condition.as_str());
            let expected = lowercase_chars(rule.expected_outcome.as_str());
            if vec_contains(&low, &cond) && !vec_contains(&low, &expected) {
                let mut claim: Vec<char> = Vec::new();
                push_str(&mut claim, "انتهاك القاعدة اللاهوتية: ");
                push_str(&mut claim, rule.rule_name.as_str());
                let mut reference: Vec<char> = Vec::new();
                push_str(&mut reference, "القاعدة: ");
                push_str(&mut reference, rule.rule_name.as_str());
                let mut expl: Vec<char> = Vec::new();
                push_str(&mut expl, "انتهاك للقاعدة اللاهوتية: ");
                push_str(&mut expl, rule.rule_name.as_str());
                let c = make_contradiction(
                    string_from_chars(&claim),
                    "theological_violation",
                    SourceType::ScholarOpinion,
                    rule.condition.clone(),
                    string_from_chars(&reference),
                    AuthenticityLevel::Verified,
                    rule.violation_severity,
                    string_from_chars(&expl),
                );
                let ghost before = out@;
                out.push(c);
                proof {
                    assert(models_of(out@) =~= models_of(before).push(model_of(c)));
                    assert forall|k: int| 0 <= k < out@.len() implies plain_source(#[trigger] out@[k]) by {
                        if k < before.len() {
                            assert(out@[k] == before[k]);
                        }
                    }
                }
            }
            i = i + 1;
        }
        out
    }

    /// The contradictions with the context of the question: for a question of
    /// creed, the unclear stances (see `aqeedah_spec`); none for any other.
    pub fn check_contextual_contradictions(&self, text: &str, question_type: QuestionType) -> (r: Vec<Contradiction>)
        ensures
            models_of(r@) == if question_type == QuestionType::Aqeedah { aqeedah_spec(text@) } else { Seq::empty() },
            all_plain(r@),
    {
        match question_type {
            QuestionType::Aqeedah => check_aqeedah_context(text),
            _ => {
                let r: Vec<Contradiction> = Vec::new();
                assert(models_of(r@) =~= Seq::empty());
                r
            },
        }
    }

    /// The contradictions among the sources; no pair of sources is found to
    /// contradict.
    pub fn check_source_contradictions(&self, sources: &Vec<IslamicSource>) -> (r: Vec<Contradiction>)
        ensures
            r@.len() == 0,
    {
        let mut out: Vec<Contradiction> = Vec::new();
        let mut i: usize = 0;
        while i < sources.len()
            invariant
                i <= sources.len(),
                out@.len() == 0,
            decreases sources.len() - i,
        {
            let mut j: usize = i + 1;
            while j < sources.len()
                invariant
                    i < sources.len(),
                    j <= sources.len(),
                    out@.len() == 0,
                decreases sources.len() - j,
            {
                match find_source_to_source_contradiction(&sources[i], &sources[j]) {
                    Some(c) => out.push(c),
                    None => {},
                }
                j = j + 1;
            }
            i = i + 1;
        }
        out
    }

    /// The contradiction between an answer and one source; none is found.
    pub fn find_advanced_contradiction(&self, text: &str, source: &IslamicSource, question_type: QuestionType) -> (r: Option<Contradiction>)
        ensures
            r is None,
    {
        let response_lower = lowercase_chars(text);
        let source_lower = lowercase_chars(source.text.as_str());
        match find_direct_contradiction(&response_lower, &source_lower) {
            Some(_) => {},
            None => {},
        }
        match find_contextual_contradiction(&response_lower, &source_lower, question_type) {
            Some(_) => {},
            None => {},
        }
        None
    }

    /// The basic check of an answer against its sources; no contradiction is
    /// found.
    pub fn check_consistency(&self, text: &str, sources: &Vec<IslamicSource>) -> (r: Vec<Contradiction>)
        ensures
            r@.len() == 0,
    {
        Vec::new()
    }

    /// The full check of an answer: its internal contradictions, those with
    /// each source (none are found), the violations of the rules of creed, the
    /// contradictions with the context of the question, and those among the
    /// sources (none are found).
    pub fn check_consistency_advanced(
        &self,
        text: &str,
        sources: &Vec<IslamicSource>,
        question_type: QuestionType,
    ) -> (r: Vec<Contradiction>)
        ensures
            models_of(r@) == pattern_hits(self.patterns(), text@, self.patterns().len() as int)
                + fiqh_contradictions_spec(text@) + grade_contradictions_spec(text@)
                + violations_spec(self.rules(), text@, self.rules().len() as int)
                + (if question_type == QuestionType::Aqeedah { aqeedah_spec(text@) } else { Seq::empty() }),
            all_plain(r@),
    {
        let mut out = self.check_internal_contradictions(text);
        let mut i: usize = 0;
        while i < sources.len()
            invariant
                i <= sources.len(),
                models_of(out@) == pattern_hits(self.patterns(), text@, self.patterns().len() as int)
                    + fiqh_contradictions_spec(text@) + grade_contradictions_spec(text@),
                all_plain(out@),
            decreases sources.len() - i,
        {
            match self.find_advanced_contradiction(text, &sources[i], question_type) {
                Some(c) => out.push(c),
                None => {},
            }
            i = i + 1;
        }
        let theological = self.check_theological_violations(text);
        append_contradictions(&mut out, theological);
        let contextual = self.check_contextual_contradictions(text, question_type);
        append_contradictions(&mut out, contextual);
        let among = self.check_source_contradictions(sources);
        assert(models_of(among@) =~= Seq::empty());
        assert(all_plain(among@));
        append_contradictions(&mut out, among);
        assert(models_of(out@) =~= pattern_hits(self.patterns(), text@, self.patterns().len() as int)
            + fiqh_contradictions_spec(text@) + grade_contradictions_spec(text@)
            + violations_spec(self.rules(), text@, self.rules().len() as int)
            + (if question_type == QuestionType::Aqeedah { aqeedah_spec(text@) } else { Seq::empty() }));
        out
    }
}

} // verus!
