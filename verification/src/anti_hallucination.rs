//! Detection of fabricated or unsupported religious content: claim extraction,
//! Quran and hadith quotations, severity of claims, and quick scope and
//! fabrication checks.
use vstd::prelude::*;
use crate::text::{
    any_occurs, captures_view, char_utf8_width, chars_of, contains_any, lowercase_chars, lowercase_of,
    regex_captures, regex_group_captures, seq_contains, strs_view, to_string, utf8_len, utf8_width, vec_contains,
};
use crate::types::{IslamicSource, SourceType};

verus! {

/// A span of text: byte offsets and the line on which it starts.
#[derive(Debug, Clone, Copy, PartialEq, Eq, Structural)]
pub struct TextPosition {
    pub start: usize,
    pub end: usize,
    pub line: usize,
}

#[derive(Debug, Clone, Copy, PartialEq, Eq, Structural)]
pub enum ClaimSeverity {
    Critical,
    Major,
    Minor,
    Stylistic,
}

#[derive(Debug, Clone, Copy, PartialEq, Eq, Structural)]
pub enum ContradictionSeverity {
    Critical,
    Major,
    Minor,
    Stylistic,
}

#[derive(Debug, Clone, Copy, PartialEq, Eq, Structural)]
pub enum FabricationType {
    FakeAyah,
    FakeHadith,
    FakeQuote,
    FakeRuling,
    FakeStory,
}

#[derive(Debug, Clone, Copy, PartialEq, Eq, Structural)]
pub enum ResponseRecommendation {
    Approve,
    ApproveWithWarning,
    RequireRevision,
    RequireSourceCheck,
    Reject,
    RequestHumanReview,
}

#[derive(Debug, Clone, Copy, PartialEq, Eq, Structural)]
pub enum FactType {
    QuranReference,
    HadithReference,
    ScholarQuote,
    HistoricalFact,
    ReligiousRuling,
    GeneralClaim,
}

#[derive(Debug, Clone, Copy, PartialEq, Eq, Structural)]
pub enum SupportType {
    ExactMatch,
    StrongSupport,
    WeakSupport,
    NoSupport,
    Contradicted,
}

#[derive(Debug, Clone, Copy, PartialEq, Eq, Structural)]
pub enum ContradictionType {
    DirectOpposition,
    LogicalInconsistency,
    SourceConflict,
    ContextualError,
}

/// A claim that no source supports.
#[derive(Debug, Clone)]
pub struct UnsupportedClaim {
    pub claim: String,
    pub position: TextPosition,
    pub severity: ClaimSeverity,
    pub suggested_sources: Vec<String>,
}

/// A claim that contradicts a source or a rule.
#[derive(Debug, Clone)]
pub struct Contradiction {
    pub claim: String,
    pub contradicting_source: IslamicSource,
    pub severity: ContradictionSeverity,
    pub explanation: String,
}

/// Content judged fabricated, with the confidence of that judgement in
/// hundredths.
#[derive(Debug, Clone)]
pub struct FabricatedContent {
    pub content: String,
    pub content_type: FabricationType,
    pub confidence_hundredths: u32,
    pub evidence: Vec<String>,
}

/// A rule of creed whose violation is a contradiction.
#[derive(Debug, Clone)]
pub struct TheologicalRule {
    pub rule_name: String,
    pub condition: String,
    pub expected_outcome: String,
    pub violation_severity: ContradictionSeverity,
}

/// A claim found in a text.
#[derive(Debug, Clone)]
pub struct ExtractedFact {
    pub claim: String,
    pub position: TextPosition,
    pub fact_type: FactType,
    pub confidence_hundredths: u32,
}

// ---------------------------------------------------------------------------
// Quotations of the Quran and of hadith
// ---------------------------------------------------------------------------

/// The pattern of a quoted verse ("Allah the Exalted said: ...").
pub open spec fn quran_quote_pattern() -> Seq<char> {
    "قال الله تعالى:?\\s*[\"\"]([^\"\"]+)[\"\"]"@
}

/// The pattern of a quoted hadith ("the Messenger said: ...").
pub open spec fn hadith_quote_pattern() -> Seq<char> {
    "قال الرسول:?\\s*[\"\"]([^\"\"]+)[\"\"]"@
}

/// The texts of the captures that took part, in order.
pub open spec fn captured_texts(caps: Seq<Option<(usize, usize, Seq<char>)>>) -> Seq<Seq<char>>
    decreases caps.len(),
{
    if caps.len() == 0 {
        Seq::empty()
    } else {
        let rest = captured_texts(caps.drop_last());
        match caps.last() {
            Some(c) => rest.push(c.2),
            None => rest,
        }
    }
}

/// The texts of the captures in `caps` that took part.
fn collect_captured(caps: &Vec<Option<(usize, usize, String)>>) -> (r: Vec<String>)
    ensures
        r@.map_values(|s: String| s@) == captured_texts(captures_view(caps@)),
{
    let ghost cv = captures_view(caps@);
    let mut r: Vec<String> = Vec::new();
    let mut i: usize = 0;
    while i < caps.len()
        invariant
            i <= caps.len(),
            cv == captures_view(caps@),
            r@.map_values(|s: String| s@) == captured_texts(cv.take(i as int)),
        decreases caps.len() - i,
    {
        proof {
            assert(cv.take(i + 1).drop_last() =~= cv.take(i as int));
        }
        match &caps[i] {
            Some(c) => {
                let ghost prev = r@;
                r.push(c.2.clone());
                proof {
                    assert(cv[i as int] == Some((c.0, c.1, c.2@)));
                    assert(r@.map_values(|s: String| s@) =~= prev.map_values(|s: String| s@).push(c.2@));
                }
            },
            None => {
                proof {
                    assert(cv[i as int] is None);
                }
            },
        }
        i = i + 1;
    }
    assert(cv.take(caps.len() as int) =~= cv);
    r
}

/// The outcome of checking quoted verses.
#[derive(Debug, Clone)]
pub struct QuranVerificationResult {
    pub fabricated_ayahs: Vec<FabricatedContent>,
    pub verified_ayahs: Vec<String>,
}

/// Checker of quoted verses.
pub struct QuranVerifier;

impl QuranVerifier {
    pub fn new() -> (r: Self) {
        QuranVerifier
    }

    /// Whether a verse is in the Quran; every verse is accepted, as no copy of
    /// the text is consulted.
    pub fn is_valid_ayah(&self, ayah_text: &str) -> (r: bool)
        ensures
            r,
    {
        true
    }

    /// The verses quoted in `text` (the first group of each match of the verse
    /// pattern), all accepted.
    pub fn verify_quran_content(&self, text: &str) -> (r: QuranVerificationResult)
        ensures
            r.fabricated_ayahs@.len() == 0,
            r.verified_ayahs@.map_values(|s: String| s@) == captured_texts(
                regex_group_captures(quran_quote_pattern(), text@, 1),
            ),
    {
        let caps = regex_captures("قال الله تعالى:?\\s*[\"\"]([^\"\"]+)[\"\"]", text, 1);
        let verified_ayahs = collect_captured(&caps);
        QuranVerificationResult { fabricated_ayahs: Vec::new(), verified_ayahs }
    }
}

/// The outcome of checking quoted hadith.
#[derive(Debug, Clone)]
pub struct HadithContentVerificationResult {
    pub fabricated_hadiths: Vec<FabricatedContent>,
    pub verified_hadiths: Vec<String>,
}

/// Checker of quoted hadith.
pub struct HadithContentVerifier;

impl HadithContentVerifier {
    pub fn new() -> (r: Self) {
        HadithContentVerifier
    }

    /// Whether a hadith is in the collections; every hadith is accepted, as no
    /// collection is consulted.
    pub fn is_valid_hadith(&self, hadith_text: &str) -> (r: bool)
        ensures
            r,
    {
        true
    }

    /// The hadith quoted in `text` (the first group of each match of the hadith
    /// pattern), all accepted.
    pub fn verify_hadith_content(&self, text: &str) -> (r: HadithContentVerificationResult)
        ensures
            r.fabricated_hadiths@.len() == 0,
            r.verified_hadiths@.map_values(|s: String| s@) == captured_texts(
                regex_group_captures(hadith_quote_pattern(), text@, 1),
            ),
    {
        let caps = regex_captures("قال الرسول:?\\s*[\"\"]([^\"\"]+)[\"\"]", text, 1);
        let verified_hadiths = collect_captured(&caps);
        HadithContentVerificationResult { fabricated_hadiths: Vec::new(), verified_hadiths }
    }
}

// ---------------------------------------------------------------------------
// Claim extraction
// ---------------------------------------------------------------------------

/// The claim patterns, in order: two for verses, two for hadith, one for quotes
/// of scholars, one for rulings.
pub open spec fn claim_pattern_list() -> Seq<Seq<char>> {
    seq![
        "قال الله تعالى:?\\s*[\"\"]([^\"\"]+)[\"\"]"@,
        "في القرآن:?\\s*[\"\"]([^\"\"]+)[\"\"]"@,
        "قال الرسول:?\\s*[\"\"]([^\"\"]+)[\"\"]"@,
        "في الحديث:?\\s*[\"\"]([^\"\"]+)[\"\"]"@,
        "قال\\s+([^:]+):\\s*[\"\"]([^\"\"]+)[\"\"]"@,
        "الحكم\\s+في\\s+([^:]+):\\s*([^.]+)"@,
    ]
}

/// The type of claim that the pattern at `idx` finds.
pub open spec fn fact_type_of_pattern(idx: int) -> FactType {
    if idx == 0 || idx == 1 {
        FactType::QuranReference
    } else if idx == 2 || idx == 3 {
        FactType::HadithReference
    } else if idx == 4 {
        FactType::ScholarQuote
    } else if idx == 5 {
        FactType::ReligiousRuling
    } else {
        FactType::GeneralClaim
    }
}

/// The number of line breaks among the characters of `text` that start before
/// byte offset `offset`.
pub open spec fn newlines_before(text: Seq<char>, offset: nat) -> nat
    decreases text.len(),
{
    if text.len() == 0 {
        0
    } else {
        newlines_before(text.drop_last(), offset) + if text.last() == '\n' && utf8_len(text.drop_last()) < offset {
            1nat
        } else {
            0nat
        }
    }
}

/// The facts that one pattern finds: one for each match, with its whole text,
/// byte span and line.
pub open spec fn facts_of_captures(
    text: Seq<char>,
    caps: Seq<Option<(usize, usize, Seq<char>)>>,
    fact_type: FactType,
) -> Seq<(Seq<char>, usize, usize, nat, FactType)>
    decreases caps.len(),
{
    if caps.len() == 0 {
        Seq::empty()
    } else {
        let rest = facts_of_captures(text, caps.drop_last(), fact_type);
        match caps.last() {
            Some(c) => rest.push((c.2, c.0, c.1, newlines_before(text, c.0 as nat) + 1, fact_type)),
            None => rest,
        }
    }
}

/// The facts that the patterns `pats` find, pattern by pattern.
pub open spec fn facts_of_patterns(text: Seq<char>, pats: Seq<Seq<char>>) -> Seq<(Seq<char>, usize, usize, nat, FactType)>
    decreases pats.len(),
{
    if pats.len() == 0 {
        Seq::empty()
    } else {
        facts_of_patterns(text, pats.drop_last()) + facts_of_captures(
            text,
            regex_group_captures(pats.last(), text, 0),
            fact_type_of_pattern(pats.len() - 1),
        )
    }
}

/// The view of extracted facts.
pub open spec fn facts_view(v: Seq<ExtractedFact>) -> Seq<(Seq<char>, usize, usize, nat, FactType)> {
    v.map_values(|f: ExtractedFact| (f.claim@, f.position.start, f.position.end, f.position.line as nat, f.fact_type))
}

/// The line on which byte offset `offset` of `text` lies: one more than the
/// number of line breaks before it.
fn line_of(text: &Vec<char>, offset: usize) -> (r: usize)
    requires
        text@.len() < usize::MAX,
    ensures
        r == newlines_before(text@, offset as nat) + 1,
{
    let mut count: usize = 0;
    let mut bytes: usize = 0;
    let mut saturated = false;
    let mut i: usize = 0;
    while i < text.len()
        invariant
            i <= text.len(),
            text@.len() < usize::MAX,
            count == newlines_before(text@.take(i as int), offset as nat),
            count <= i,
            !saturated ==> bytes == utf8_len(text@.take(i as int)),
            saturated ==> utf8_len(text@.take(i as int)) >= offset,
        decreases text.len() - i,
    {
        proof {
            assert(text@.take(i + 1).drop_last() =~= text@.take(i as int));
            lemma_utf8_len_grows(text@.take(i + 1));
        }
        let c = text[i];
        let before_offset = !saturated && bytes < offset;
        if c == '\n' && before_offset {
            count = count + 1;
        }
        if !saturated {
            let w = utf8_width(c);
            if bytes > usize::MAX - w || bytes + w >= offset {
                saturated = true;
            } else {
                bytes = bytes + w;
            }
        }
        i = i + 1;
    }
    assert(text@.take(text.len() as int) =~= text@);
    count + 1
}

/// Adding a character does not shrink the UTF-8 length.
proof fn lemma_utf8_len_grows(s: Seq<char>)
    requires
        s.len() > 0,
    ensures
        utf8_len(s) >= utf8_len(s.drop_last()),
{
}

/// Extractor of claims.
pub struct FactChecker {
    pub claim_patterns: Vec<&'static str>,
}

impl FactChecker {
    pub fn new() -> (r: Self)
        ensures
            strs_view(r.claim_patterns@) == claim_pattern_list(),
    {
        let claim_patterns = vec![
            "قال الله تعالى:?\\s*[\"\"]([^\"\"]+)[\"\"]",
            "في القرآن:?\\s*[\"\"]([^\"\"]+)[\"\"]",
            "قال الرسول:?\\s*[\"\"]([^\"\"]+)[\"\"]",
            "في الحديث:?\\s*[\"\"]([^\"\"]+)[\"\"]",
            "قال\\s+([^:]+):\\s*[\"\"]([^\"\"]+)[\"\"]",
            "الحكم\\s+في\\s+([^:]+):\\s*([^.]+)",
        ];
        assert(strs_view(claim_patterns@) =~= claim_pattern_list());
        FactChecker { claim_patterns }
    }

    /// The claims in `text`: for each pattern in turn, every match, typed by the
    /// pattern, with its byte span, its line, and confidence 0.8.
    pub fn extract_facts(&self, text: &str) -> (r: Vec<ExtractedFact>)
        requires
            text@.len() < usize::MAX,
        ensures
            facts_view(r@) == facts_of_patterns(text@, strs_view(self.claim_patterns@)),
            forall|i: int| 0 <= i < r@.len() ==> (#[trigger] r@[i]).confidence_hundredths == 80,
    {
        let tc = chars_of(text);
        let ghost pats = strs_view(self.claim_patterns@);
        let mut facts: Vec<ExtractedFact> = Vec::new();
        let mut p: usize = 0;
        while p < self.claim_patterns.len()
            invariant
                p <= self.claim_patterns.len(),
                pats == strs_view(self.claim_patterns@),
                tc@ == text@,
                text@.len() < usize::MAX,
                facts_view(facts@) == facts_of_patterns(text@, pats.take(p as int)),
                forall|i: int| 0 <= i < facts@.len() ==> (#[trigger] facts@[i]).confidence_hundredths == 80,
            decreases self.claim_patterns.len() - p,
        {
            proof {
                assert(pats.take(p + 1).drop_last() =~= pats.take(p as int));
                assert(pats.take(p + 1).last() == pats[p as int]);
            }
            let fact_type = if p == 0 || p == 1 {
                FactType::QuranReference
            } else if p == 2 || p == 3 {
                FactType::HadithReference
            } else if p == 4 {
                FactType::ScholarQuote
            } else if p == 5 {
                FactType::ReligiousRuling
            } else {
                FactType::GeneralClaim
            };
            let caps = regex_captures(self.claim_patterns[p], text, 0);
            let ghost cv = captures_view(caps@);
            let ghost base = facts_view(facts@);
            let mut k: usize = 0;
            while k < caps.len()
                invariant
                    k <= caps.len(),
                    cv == captures_view(caps@),
                    tc@ == text@,
                    text@.len() < usize::MAX,
                    facts_view(facts@) == base + facts_of_captures(text@, cv.take(k as int), fact_type),
                    forall|i: int| 0 <= i < facts@.len() ==> (#[trigger] facts@[i]).confidence_hundredths == 80,
                decreases caps.len() - k,
            {
                proof {
                    assert(cv.take(k + 1).drop_last() =~= cv.take(k as int));
                }
                match &caps[k] {
                    Some(c) => {
                        let line = line_of(&tc, c.0);
                        let ghost prev = facts@;
                        facts.push(ExtractedFact {
                            claim: c.2.clone(),
                            position: TextPosition { start: c.0, end: c.1, line },
                            fact_type,
                            confidence_hundredths: 80,
                        });
                        proof {
                            assert(cv[k as int] == Some((c.0, c.1, c.2@)));
                            assert(facts_view(facts@) =~= facts_view(prev).push((c.2@, c.0, c.1, line as nat, fact_type)));
                        }
                    },
                    None => {
                        proof {
                            assert(cv[k as int] is None);
                        }
                    },
                }
                k = k + 1;
            }
            proof {
                assert(cv.take(caps.len() as int) =~= cv);
                assert(fact_type == fact_type_of_pattern(p as int));
                assert(facts_view(facts@) =~= facts_of_patterns(text@, pats.take(p + 1)));
            }
            p = p + 1;
        }
        assert(pats.take(self.claim_patterns.len() as int) =~= pats);
        facts
    }
}

// ---------------------------------------------------------------------------
// Severity of claims, and known scholars
// ---------------------------------------------------------------------------

/// The severity of an unsupported claim: verses and hadith are critical;
/// rulings and quotes major; historical facts minor; a general claim is major
/// when it declares something forbidden or obligatory, minor when recommended or
/// disliked, stylistic otherwise (searched in the lower-cased claim).
pub open spec fn claim_severity_spec(claim: Seq<char>, fact_type: FactType) -> ClaimSeverity {
    match fact_type {
        FactType::QuranReference | FactType::HadithReference => ClaimSeverity::Critical,
        FactType::ReligiousRuling | FactType::ScholarQuote => ClaimSeverity::Major,
        FactType::HistoricalFact => ClaimSeverity::Minor,
        FactType::GeneralClaim => {
            let low = lowercase_of(claim);
            if seq_contains(low, "حرام"@) || seq_contains(low, "واجب"@) || seq_contains(low, "فرض"@) {
                ClaimSeverity::Major
            } else if seq_contains(low, "مستحب"@) || seq_contains(low, "مكروه"@) {
                ClaimSeverity::Minor
            } else {
                ClaimSeverity::Stylistic
            }
        },
    }
}

/// The severity of an unsupported claim (see `claim_severity_spec`).
pub fn determine_claim_severity(claim: &str, fact_type: FactType) -> (r: ClaimSeverity)
    ensures
        r == claim_severity_spec(claim@, fact_type),
{
    match fact_type {
        FactType::QuranReference | FactType::HadithReference => ClaimSeverity::Critical,
        FactType::ReligiousRuling | FactType::ScholarQuote => ClaimSeverity::Major,
        FactType::HistoricalFact => ClaimSeverity::Minor,
        FactType::GeneralClaim => {
            let low = lowercase_chars(claim);
            if vec_contains(&low, &chars_of("حرام")) || vec_contains(&low, &chars_of("واجب")) || vec_contains(&low, &chars_of("فرض")) {
                ClaimSeverity::Major
            } else if vec_contains(&low, &chars_of("مستحب")) || vec_contains(&low, &chars_of("مكروه")) {
                ClaimSeverity::Minor
            } else {
                ClaimSeverity::Stylistic
            }
        },
    }
}

/// Scholars whose names need no source.
pub open spec fn known_scholar_list() -> Seq<Seq<char>> {
    seq![
        "ابن تيمية"@, "ابن القيم"@, "ابن كثير"@, "الطبري"@, "القرطبي"@,
        "البخاري"@, "مسلم"@, "أبو داود"@, "الترمذي"@, "النسائي"@, "ابن ماجه"@,
        "الشافعي"@, "مالك"@, "أحمد"@, "أبو حنيفة"@, "الألباني"@, "ابن باز"@,
    ]
}

/// A name is known when, lower-cased, it contains a known scholar's name
/// (lower-cased), or when a source's author (lower-cased) contains it or is
/// contained in it.
pub open spec fn known_name_spec(name: Seq<char>, authors: Seq<Option<Seq<char>>>) -> bool {
    let low = lowercase_of(name);
    ||| exists|i: int| 0 <= i < known_scholar_list().len() && seq_contains(low, lowercase_of(known_scholar_list()[i]))
    ||| exists|i: int| 0 <= i < authors.len() && #[trigger] author_matches(authors[i], low)
}

/// An author (lower-cased) and a lower-cased name contain one another.
pub open spec fn author_matches(author: Option<Seq<char>>, low: Seq<char>) -> bool {
    match author {
        Some(a) => seq_contains(lowercase_of(a), low) || seq_contains(low, lowercase_of(a)),
        None => false,
    }
}

/// The authors of a list of sources.
pub open spec fn authors_of(sources: Seq<IslamicSource>) -> Seq<Option<Seq<char>>> {
    sources.map_values(|s: IslamicSource| match s.author {
        Some(a) => Some(a@),
        None => None,
    })
}

/// Whether a quoted name is a known scholar or an author of the sources (see
/// `known_name_spec`).
pub fn is_known_scholar_or_source(name: &str, sources: &Vec<IslamicSource>) -> (r: bool)
    ensures
        r == known_name_spec(name@, authors_of(sources@)),
{
    let scholars = vec![
        "ابن تيمية", "ابن القيم", "ابن كثير", "الطبري", "القرطبي",
        "البخاري", "مسلم", "أبو داود", "الترمذي", "النسائي", "ابن ماجه",
        "الشافعي", "مالك", "أحمد", "أبو حنيفة", "الألباني", "ابن باز",
    ];
    assert(strs_view(scholars@) =~= known_scholar_list());
    let low = lowercase_chars(name);
    let mut i: usize = 0;
    while i < scholars.len()
        invariant
            i <= scholars.len(),
            strs_view(scholars@) == known_scholar_list(),
            low@ == lowercase_of(name@),
            forall|k: int| 0 <= k < i ==> !seq_contains(low@, lowercase_of(#[trigger] known_scholar_list()[k])),
        decreases scholars.len() - i,
    {
        let s = lowercase_chars(scholars[i]);
        assert(known_scholar_list()[i as int] == scholars@[i as int]@);
        if vec_contains(&low, &s) {
            return true;
        }
        i = i + 1;
    }
    let ghost au = authors_of(sources@);
    let mut j: usize = 0;
    while j < sources.len()
        invariant
            j <= sources.len(),
            au == authors_of(sources@),
            low@ == lowercase_of(name@),
            forall|k: int| 0 <= k < known_scholar_list().len() ==> !seq_contains(low@, lowercase_of(#[trigger] known_scholar_list()[k])),
            forall|k: int| 0 <= k < j ==> !#[trigger] author_matches(au[k], low@),
        decreases sources.len() - j,
    {
        match &sources[j].author {
            Some(a) => {
                let al = lowercase_chars(a.as_str());
                if vec_contains(&al, &low) || vec_contains(&low, &al) {
                    assert(au[j as int] == Some(a@));
                    assert(author_matches(au[j as int], low@));
                    return true;
                }
            },
            None => {},
        }
        j = j + 1;
    }
    false
}

// ---------------------------------------------------------------------------
// Quick scope and fabrication checks
// ---------------------------------------------------------------------------

/// Words of topics outside the quick scope check.
pub open spec fn quick_out_of_scope_list() -> Seq<Seq<char>> {
    seq!["برمجة"@, "كمبيوتر"@, "تطبيق"@, "مطعم"@, "طعام"@, "رياضة"@, "سياسة"@, "اقتصاد"@, "فيلم"@, "موسيقى"@]
}

/// Words of Islamic context for the quick scope check.
pub open spec fn quick_islamic_list() -> Seq<Seq<char>> {
    seq!["إسلام"@, "مسلم"@, "قرآن"@, "حديث"@, "صلاة"@, "زكاة"@, "صوم"@, "حج"@, "حلال"@, "حرام"@, "فقه"@, "شريعة"@, "عقيدة"@, "سنة"@]
}

/// A question is out of scope when its lower-cased text has no Islamic word and
/// has a word of another topic.
pub open spec fn quick_out_of_scope_spec(question: Seq<char>) -> bool {
    let low = lowercase_of(question);
    !any_occurs(low, quick_islamic_list()) && any_occurs(low, quick_out_of_scope_list())
}

/// The quick scope check (see `quick_out_of_scope_spec`).
pub fn detect_out_of_scope(question: &str) -> (r: bool)
    ensures
        r == quick_out_of_scope_spec(question@),
{
    let out_words = vec!["برمجة", "كمبيوتر", "تطبيق", "مطعم", "طعام", "رياضة", "سياسة", "اقتصاد", "فيلم", "موسيقى"];
    let islamic = vec!["إسلام", "مسلم", "قرآن", "حديث", "صلاة", "زكاة", "صوم", "حج", "حلال", "حرام", "فقه", "شريعة", "عقيدة", "سنة"];
    assert(strs_view(out_words@) =~= quick_out_of_scope_list());
    assert(strs_view(islamic@) =~= quick_islamic_list());
    let low = lowercase_chars(question);
    if contains_any(&low, &islamic) {
        return false;
    }
    contains_any(&low, &out_words)
}

/// Whether some source of `t`'s type satisfies a test, in specifications.
pub open spec fn has_type(sources: Seq<IslamicSource>, t: SourceType) -> bool {
    exists|i: int| 0 <= i < sources.len() && sources[i].content_type == t
}

/// Some source is a hadith (sahih, hasan or daif).
pub open spec fn has_hadith(sources: Seq<IslamicSource>) -> bool {
    has_type(sources, SourceType::SahihHadith) || has_type(sources, SourceType::HasanHadith) || has_type(sources, SourceType::DaifHadith)
}

/// Some Quran source's lower-cased text and the lower-cased response contain
/// one another.
pub open spec fn verse_supported(response: Seq<char>, sources: Seq<IslamicSource>) -> bool {
    exists|i: int| 0 <= i < sources.len() && sources[i].content_type == SourceType::Quran && (
        seq_contains(lowercase_of(response), lowercase_of(sources[i].text@))
        || seq_contains(lowercase_of(sources[i].text@), lowercase_of(response)))
}

/// The fabrication risk of a response, in tenths, before it is capped at one:
/// a claimed verse adds 0.8 without any Quran source and 0.9 when no Quran
/// source supports it; a claimed hadith adds 0.7 without any hadith source; a
/// statistic adds 0.4.
pub open spec fn fabrication_risk_uncapped(response: Seq<char>, sources: Seq<IslamicSource>) -> nat {
    let quran_claim = seq_contains(response, "قال الله تعالى:"@) || seq_contains(response, "في القرآن:"@);
    let hadith_claim = seq_contains(response, "قال الرسول"@) || seq_contains(response, "في الحديث"@);
    let statistic = seq_contains(response, "%"@) || seq_contains(response, "إحصائية"@);
    (if quran_claim && !has_type(sources, SourceType::Quran) { 8nat } else { 0nat })
        + (if quran_claim && !verse_supported(response, sources) { 9nat } else { 0nat })
        + (if hadith_claim && !has_hadith(sources) { 7nat } else { 0nat })
        + (if statistic { 4nat } else { 0nat })
}

/// The fabrication risk of a response, in tenths, capped at ten.
pub open spec fn fabrication_risk_spec(response: Seq<char>, sources: Seq<IslamicSource>) -> nat {
    let r = fabrication_risk_uncapped(response, sources);
    if r <= 10 { r } else { 10 }
}

/// The fabrication risk of a response, in tenths (see `fabrication_risk_spec`).
/// Each sum of the added weights that stays below one is one of the weights
/// themselves, so the tenths name exactly the value that a sum in floating
/// point of those weights would give.
pub fn detect_fabrication_risk(response_text: &str, sources: &Vec<IslamicSource>) -> (r: u32)
    ensures
        r == fabrication_risk_spec(response_text@, sources@),
        r <= 10,
{
    let resp = chars_of(response_text);
    let mut risk: u32 = 0;
    let quran_claim = vec_contains(&resp, &chars_of("قال الله تعالى:")) || vec_contains(&resp, &chars_of("في القرآن:"));
    if quran_claim {
        let mut has_quran = false;
        let mut supported = false;
        let low_resp = lowercase_chars(response_text);
        let mut i: usize = 0;
        while i < sources.len()
            invariant
                i <= sources.len(),
                low_resp@ == lowercase_of(response_text@),
                has_quran <==> exists|k: int| 0 <= k < i && sources@[k].content_type == SourceType::Quran,
                supported <==> exists|k: int| 0 <= k < i && sources@[k].content_type == SourceType::Quran && (
                    seq_contains(lowercase_of(response_text@), lowercase_of(sources@[k].text@))
                    || seq_contains(lowercase_of(sources@[k].text@), lowercase_of(response_text@))),
            decreases sources.len() - i,
        {
            if sources[i].content_type == SourceType::Quran {
                has_quran = true;
                let low_src = lowercase_chars(sources[i].text.as_str());
                if vec_contains(&low_resp, &low_src) || vec_contains(&low_src, &low_resp) {
                    supported = true;
                }
            }
            i = i + 1;
        }
        if !has_quran {
            risk = risk + 8;
        }
        if !supported {
            risk = risk + 9;
        }
    }
    let hadith_claim = vec_contains(&resp, &chars_of("قال الرسول")) || vec_contains(&resp, &chars_of("في الحديث"));
    if hadith_claim {
        let mut has_hadith_source = false;
        let mut i: usize = 0;
        while i < sources.len()
            invariant
                i <= sources.len(),
                has_hadith_source <==> exists|k: int| 0 <= k < i && (sources@[k].content_type == SourceType::SahihHadith
                    || sources@[k].content_type == SourceType::HasanHadith || sources@[k].content_type == SourceType::DaifHadith),
            decreases sources.len() - i,
        {
            let t = sources[i].content_type;
            if t == SourceType::SahihHadith || t == SourceType::HasanHadith || t == SourceType::DaifHadith {
                has_hadith_source = true;
            }
            i = i + 1;
        }
        proof {
            if has_hadith(sources@) {
                if has_type(sources@, SourceType::SahihHadith) {
                    let k = choose|k: int| 0 <= k < sources@.len() && sources@[k].content_type == SourceType::SahihHadith;
                } else if has_type(sources@, SourceType::HasanHadith) {
                    let k = choose|k: int| 0 <= k < sources@.len() && sources@[k].content_type == SourceType::HasanHadith;
                } else {
                    let k = choose|k: int| 0 <= k < sources@.len() && sources@[k].content_type == SourceType::DaifHadith;
                }
            }
        }
        if !has_hadith_source {
            risk = risk + 7;
        }
    }
    if vec_contains(&resp, &chars_of("%")) || vec_contains(&resp, &chars_of("إحصائية")) {
        risk = risk + 4;
    }
    if risk > 10 {
        risk = 10;
    }
    risk
}

} // verus!
