//! Religious query requests: validation, the courtesy phrases added to an
//! answer, citation text, and the related questions offered after an answer.
use vstd::prelude::*;
use crate::question_processor::QuestionProcessor;
use crate::rag::{DetailLevel as RagDetailLevel, UserPreferences};
use crate::text::{
    chars_of, is_blank, is_white_space, occurs_at, push_str, seq_contains, sort_dedup, str_eq,
    string_from_chars, string_views, strictly_sorted, to_string, utf8_len, utf8_length, vec_contains,
    starts_with_chars, decimal, push_decimal,
};
use crate::types::{
    authenticity_name, language_name, source_type_name, AuthenticityLevel,
    clone_source, same_source, AIServiceError, CitationType, IslamicSource, Language, ProcessedQuestion, QuestionType,
    SourceType,
};

verus! {

/// How detailed an answer should be.
#[derive(Debug, Clone, Copy, PartialEq, Eq, Structural)]
pub enum DetailLevel {
    Brief,
    Standard,
    Detailed,
    Scholarly,
}

/// A question put to the processor, with the asker's preferences.
#[derive(Debug, Clone)]
pub struct ReligiousQueryRequest {
    pub question: String,
    pub user_id: Option<String>,
    pub context: Option<String>,
    pub preferred_sources: Option<Vec<SourceType>>,
    pub language: Option<Language>,
    pub detail_level: Option<DetailLevel>,
    pub include_multiple_opinions: Option<bool>,
    pub max_response_time_seconds: Option<u64>,
}

// ---------------------------------------------------------------------------
// Validation
// ---------------------------------------------------------------------------

/// The longest question accepted, in bytes of UTF-8.
pub const MAX_QUESTION_BYTES: usize = 1000;

/// The longest response time that may be asked for, in seconds.
pub const MAX_RESPONSE_SECONDS: u64 = 300;

/// The question holds nothing but white space.
pub open spec fn blank_spec(s: Seq<char>) -> bool {
    forall|i: int| 0 <= i < s.len() ==> is_white_space(#[trigger] s[i])
}

/// The refusal of an empty question.
pub open spec fn empty_question_message() -> Seq<char> {
    "السؤال لا يمكن أن يكون فارغاً"@
}

/// The refusal of a question that is too long.
pub open spec fn long_question_message() -> Seq<char> {
    "السؤال طويل جداً. يرجى تقصيره."@
}

/// The refusal of a response time that is too long.
pub open spec fn long_wait_message() -> Seq<char> {
    "وقت الاستجابة المطلوب طويل جداً"@
}

/// The outcome of validating a request: the first of these that applies is
/// the refusal, else the request is accepted.
pub open spec fn validation_spec(question: Seq<char>, max_time: Option<u64>) -> Result<(), Seq<char>> {
    if blank_spec(question) {
        Err(empty_question_message())
    } else if utf8_len(question) > MAX_QUESTION_BYTES {
        Err(long_question_message())
    } else if max_time matches Some(t) && t > MAX_RESPONSE_SECONDS {
        Err(long_wait_message())
    } else {
        Ok(())
    }
}

/// Validates a request (see `validation_spec`); each refusal is a
/// question-processing error.
pub fn validate_query_request(request: &ReligiousQueryRequest) -> (r: Result<(), AIServiceError>)
    ensures
        match validation_spec(request.question@, request.max_response_time_seconds) {
            Ok(()) => r is Ok,
            Err(m) => r matches Err(AIServiceError::QuestionProcessingError(msg)) && msg@ == m,
        },
{
    if is_blank(request.question.as_str()) {
        return Err(AIServiceError::QuestionProcessingError(to_string("السؤال لا يمكن أن يكون فارغاً")));
    }
    let cs = chars_of(request.question.as_str());
    if utf8_length(&cs) > MAX_QUESTION_BYTES {
        return Err(AIServiceError::QuestionProcessingError(to_string("السؤال طويل جداً. يرجى تقصيره.")));
    }
    match request.max_response_time_seconds {
        Some(t) => {
            if t > MAX_RESPONSE_SECONDS {
                return Err(AIServiceError::QuestionProcessingError(to_string("وقت الاستجابة المطلوب طويل جداً")));
            }
        },
        None => {},
    }
    Ok(())
}

// ---------------------------------------------------------------------------
// Courtesy phrases
// ---------------------------------------------------------------------------

/// The answer with "and Allah knows best" appended where no form of it is
/// present, then with the basmala put in front where a verse is quoted and the
/// answer does not already open with "in the name of Allah".
pub open spec fn courtesy_spec(answer: Seq<char>) -> Seq<char> {
    let closed = if !seq_contains(answer, "والله أعلم"@) && !seq_contains(answer, "الله أعلم"@) {
        answer + "\n\nوالله أعلم."@
    } else {
        answer
    };
    if seq_contains(closed, "قال الله تعالى"@) && !occurs_at(closed, "بسم الله"@, 0) {
        "بسم الله الرحمن الرحيم\n\n"@ + closed
    } else {
        closed
    }
}

/// Adds the courtesy phrases to an answer (see `courtesy_spec`).
pub fn add_islamic_courtesy(answer: &str) -> (r: String)
    ensures
        r@ == courtesy_spec(answer@),
{
    let mut text = chars_of(answer);
    if !vec_contains(&text, &chars_of("والله أعلم")) && !vec_contains(&text, &chars_of("الله أعلم")) {
        push_str(&mut text, "\n\nوالله أعلم.");
    }
    if vec_contains(&text, &chars_of("قال الله تعالى")) && !starts_with_chars(&text, &chars_of("بسم الله")) {
        let mut framed = chars_of("بسم الله الرحمن الرحيم\n\n");
        let ghost head = framed@;
        let mut j: usize = 0;
        while j < text.len()
            invariant
                j <= text.len(),
                framed@ == head + text@.take(j as int),
            decreases text.len() - j,
        {
            framed.push(text[j]);
            assert(text@.take(j + 1) =~= text@.take(j as int).push(text@[j as int]));
            j = j + 1;
        }
        assert(text@.take(text.len() as int) =~= text@);
        return string_from_chars(&framed);
    }
    string_from_chars(&text)
}

// ---------------------------------------------------------------------------
// Citations
// ---------------------------------------------------------------------------

/// The citation of a source: the Quran by "the Noble Quran, " and the
/// reference; a tafsir or a fatwa by its kind, its author where known, and the
/// reference; any other source by its author where known and the reference.
pub open spec fn citation_spec(t: SourceType, author: Option<Seq<char>>, reference: Seq<char>) -> Seq<char> {
    match t {
        SourceType::Quran => "القرآن الكريم، "@ + reference,
        SourceType::Tafsir => match author {
            Some(a) => "تفسير "@ + a + ": "@ + reference,
            None => "تفسير: "@ + reference,
        },
        SourceType::FiqhRuling => match author {
            Some(a) => "فتوى "@ + a + ": "@ + reference,
            None => "فتوى: "@ + reference,
        },
        _ => match author {
            Some(a) => a + ": "@ + reference,
            None => reference,
        },
    }
}

/// A source cited in an answer, with its citation text; relevance is in
/// hundredths.
#[derive(Debug, Clone)]
pub struct Citation {
    pub id: String,
    pub source: IslamicSource,
    pub citation_text: String,
    pub relevance_hundredths: u32,
    pub usage_type: CitationType,
}

/// The relevance given to every citation: 0.8.
pub const CITATION_RELEVANCE_HUNDREDTHS: u32 = 80;

/// The identifier of the citation at 0-based position `i`: "cite_" and
/// `i + 1`.
pub open spec fn citation_id(i: nat) -> Seq<char> {
    "cite_"@ + decimal(i + 1)
}

/// Whether `c` is the citation of `s` at position `i`.
pub open spec fn cites(c: Citation, s: IslamicSource, i: nat) -> bool {
    &&& c.id@ == citation_id(i)
    &&& same_source(c.source, s)
    &&& c.citation_text@ == citation_spec(s.content_type, author_view(s.author), s.reference@)
    &&& c.relevance_hundredths == CITATION_RELEVANCE_HUNDREDTHS
    &&& c.usage_type == CitationType::Primary
}

/// The citations of the sources, one per source in their order, each a
/// primary citation of relevance 0.8 numbered from 1.
pub fn build_citations(sources: &Vec<IslamicSource>) -> (r: Vec<Citation>)
    ensures
        r@.len() == sources@.len(),
        forall|i: int| 0 <= i < sources@.len() ==> cites(#[trigger] r@[i], sources@[i], i as nat),
{
    let mut r: Vec<Citation> = Vec::new();
    let mut i: usize = 0;
    while i < sources.len()
        invariant
            i <= sources.len(),
            r@.len() == i,
            forall|k: int| 0 <= k < i ==> cites(#[trigger] r@[k], sources@[k], k as nat),
        decreases sources.len() - i,
    {
        let source = &sources[i];
        let mut id: Vec<char> = Vec::new();
        push_str(&mut id, "cite_");
        push_decimal(&mut id, i + 1);
        r.push(Citation {
            id: string_from_chars(&id),
            source: clone_source(source),
            citation_text: format_citation(source),
            relevance_hundredths: CITATION_RELEVANCE_HUNDREDTHS,
            usage_type: CitationType::Primary,
        });
        i = i + 1;
    }
    r
}

/// The author of a source, by its view.
pub open spec fn author_view(author: Option<String>) -> Option<Seq<char>> {
    match author {
        Some(a) => Some(a@),
        None => None,
    }
}

/// The citation text of a source (see `citation_spec`).
pub fn format_citation(source: &IslamicSource) -> (r: String)
    ensures
        r@ == citation_spec(source.content_type, author_view(source.author), source.reference@),
{
    let mut v: Vec<char> = Vec::new();
    match source.content_type {
        SourceType::Quran => {
            push_str(&mut v, "القرآن الكريم، ");
        },
        SourceType::Tafsir => {
            match &source.author {
                Some(a) => {
                    push_str(&mut v, "تفسير ");
                    push_str(&mut v, a.as_str());
                    push_str(&mut v, ": ");
                },
                None => {
                    push_str(&mut v, "تفسير: ");
                },
            }
        },
        SourceType::FiqhRuling => {
            match &source.author {
                Some(a) => {
                    push_str(&mut v, "فتوى ");
                    push_str(&mut v, a.as_str());
                    push_str(&mut v, ": ");
                },
                None => {
                    push_str(&mut v, "فتوى: ");
                },
            }
        },
        _ => {
            match &source.author {
                Some(a) => {
                    push_str(&mut v, a.as_str());
                    push_str(&mut v, ": ");
                },
                None => {},
            }
        },
    }
    push_str(&mut v, source.reference.as_str());
    string_from_chars(&v)
}

// ---------------------------------------------------------------------------
// Related questions
// ---------------------------------------------------------------------------

/// The follow-up questions for a type of question; for a question of fiqh, one
/// more on the verses when a Quran source is at hand.
pub open spec fn type_questions(t: QuestionType, has_quran: bool) -> Seq<Seq<char>> {
    match t {
        QuestionType::Fiqh => {
            let base = seq!["ما هي الأدلة على هذا الحكم؟"@, "هل هناك خلاف في هذه المسألة؟"@];
            if has_quran { base.push("ما هي الآيات القرآنية المتعلقة بهذا الموضوع؟"@) } else { base }
        },
        QuestionType::Tafsir => seq![
            "ما هو سبب نزول هذه الآية؟"@,
            "ما هي الدروس المستفادة من هذه الآية؟"@,
            "كيف فسر العلماء هذه الآية؟"@,
        ],
        QuestionType::Hadith => seq![
            "ما هي درجة صحة هذا الحديث؟"@,
            "هل هناك أحاديث أخرى في نفس الموضوع؟"@,
            "من هم رواة هذا الحديث؟"@,
        ],
        QuestionType::Aqeedah => seq![
            "ما هو موقف أهل السنة والجماعة من هذه المسألة؟"@,
            "ما هي الأدلة من القرآن والسنة؟"@,
        ],
        QuestionType::Sirah => seq!["ما هي الدروس المستفادة من هذا الحدث؟"@, "متى وقع هذا الحدث؟"@],
        _ => seq!["هل يمكن توضيح هذا الموضوع أكثر؟"@, "ما هي المصادر الإضافية لهذا الموضوع؟"@],
    }
}

/// The follow-up questions for one concept: two for prayer, zakat, fasting and
/// pilgrimage, none for any other.
pub open spec fn concept_questions(c: Seq<char>) -> Seq<Seq<char>> {
    if c == "صلاة"@ {
        seq!["ما هي شروط صحة الصلاة؟"@, "كيف نصلي الصلاة الصحيحة؟"@]
    } else if c == "زكاة"@ {
        seq!["متى تجب الزكاة؟"@, "كيف نحسب الزكاة؟"@]
    } else if c == "صوم"@ {
        seq!["ما هي مبطلات الصوم؟"@, "متى يجب الصوم؟"@]
    } else if c == "حج"@ {
        seq!["ما هي أركان الحج؟"@, "متى يجب الحج؟"@]
    } else {
        Seq::empty()
    }
}

/// The follow-up questions for a list of concepts, in order.
pub open spec fn concepts_questions(cs: Seq<Seq<char>>) -> Seq<Seq<char>>
    decreases cs.len(),
{
    if cs.len() == 0 {
        Seq::empty()
    } else {
        concepts_questions(cs.drop_last()) + concept_questions(cs.last())
    }
}

/// Some source is of type `t`.
pub open spec fn has_source_type(sources: Seq<IslamicSource>, t: SourceType) -> bool {
    exists|i: int| 0 <= i < sources.len() && sources[i].content_type == t
}

/// The number of questions offered at most.
pub const MAX_RELATED: usize = 3;

/// `r` is the first few (at most three) of the candidates once sorted with
/// duplicates removed.
pub open spec fn first_sorted_distinct(r: Seq<Seq<char>>, candidates: Seq<Seq<char>>) -> bool {
    exists|full: Seq<Seq<char>>| #![trigger full.to_set()]
        strictly_sorted(full) && full.to_set() == candidates.to_set() && r == full.take(
            if full.len() < MAX_RELATED { full.len() as int } else { MAX_RELATED as int },
        )
}

/// The candidate questions for a processed question and its sources.
pub open spec fn related_candidates(q: ProcessedQuestion, sources: Seq<IslamicSource>) -> Seq<Seq<char>> {
    type_questions(q.question_type, has_source_type(sources, SourceType::Quran))
        + concepts_questions(string_views(q.concepts@))
}

/// Appends `s` to a vector of strings.
pub fn push_text(v: &mut Vec<String>, s: &str)
    ensures
        string_views(final(v)@) == string_views(old(v)@).push(s@),
{
    let t = to_string(s);
    v.push(t);
    assert(string_views(v@) =~= string_views(old(v)@).push(s@));
}

/// The follow-up questions for a type of question (see `type_questions`).
pub fn type_questions_vec(t: QuestionType, has_quran: bool) -> (r: Vec<String>)
    ensures
        string_views(r@) == type_questions(t, has_quran),
{
    let mut r: Vec<String> = Vec::new();
    match t {
        QuestionType::Fiqh => {
            push_text(&mut r, "ما هي الأدلة على هذا الحكم؟");
            push_text(&mut r, "هل هناك خلاف في هذه المسألة؟");
            if has_quran {
                push_text(&mut r, "ما هي الآيات القرآنية المتعلقة بهذا الموضوع؟");
            }
        },
        QuestionType::Tafsir => {
            push_text(&mut r, "ما هو سبب نزول هذه الآية؟");
            push_text(&mut r, "ما هي الدروس المستفادة من هذه الآية؟");
            push_text(&mut r, "كيف فسر العلماء هذه الآية؟");
        },
        QuestionType::Hadith => {
            push_text(&mut r, "ما هي درجة صحة هذا الحديث؟");
            push_text(&mut r, "هل هناك أحاديث أخرى في نفس الموضوع؟");
            push_text(&mut r, "من هم رواة هذا الحديث؟");
        },
        QuestionType::Aqeedah => {
            push_text(&mut r, "ما هو موقف أهل السنة والجماعة من هذه المسألة؟");
            push_text(&mut r, "ما هي الأدلة من القرآن والسنة؟");
        },
        QuestionType::Sirah => {
            push_text(&mut r, "ما هي الدروس المستفادة من هذا الحدث؟");
            push_text(&mut r, "متى وقع هذا الحدث؟");
        },
        _ => {
            push_text(&mut r, "هل يمكن توضيح هذا الموضوع أكثر؟");
            push_text(&mut r, "ما هي المصادر الإضافية لهذا الموضوع؟");
        },
    }
    r
}

/// Appends the follow-up questions for each concept (see `concepts_questions`).
pub fn push_concept_questions(v: &mut Vec<String>, concepts: &Vec<String>)
    ensures
        string_views(final(v)@) == string_views(old(v)@) + concepts_questions(string_views(concepts@)),
{
    let ghost cs = string_views(concepts@);
    let mut i: usize = 0;
    while i < concepts.len()
        invariant
            i <= concepts.len(),
            cs == string_views(concepts@),
            string_views(v@) == string_views(old(v)@) + concepts_questions(cs.take(i as int)),
        decreases concepts.len() - i,
    {
        proof {
            assert(cs.take(i + 1).drop_last() =~= cs.take(i as int));
        }
        let ghost before = string_views(v@);
        let c = concepts[i].as_str();
        if str_eq(c, "صلاة") {
            push_text(v, "ما هي شروط صحة الصلاة؟");
            push_text(v, "كيف نصلي الصلاة الصحيحة؟");
        } else if str_eq(c, "زكاة") {
            push_text(v, "متى تجب الزكاة؟");
            push_text(v, "كيف نحسب الزكاة؟");
        } else if str_eq(c, "صوم") {
            push_text(v, "ما هي مبطلات الصوم؟");
            push_text(v, "متى يجب الصوم؟");
        } else if str_eq(c, "حج") {
            push_text(v, "ما هي أركان الحج؟");
            push_text(v, "متى يجب الحج؟");
        }
        proof {
            assert(cs[i as int] == c@);
            assert(string_views(v@) =~= before + concept_questions(c@));
        }
        i = i + 1;
    }
    assert(cs.take(concepts.len() as int) =~= cs);
}

/// Whether some source is of type `t`.
pub fn any_source_of_type(sources: &Vec<IslamicSource>, t: SourceType) -> (r: bool)
    ensures
        r == has_source_type(sources@, t),
{
    let mut i: usize = 0;
    while i < sources.len()
        invariant
            i <= sources.len(),
            forall|k: int| 0 <= k < i ==> sources@[k].content_type != t,
        decreases sources.len() - i,
    {
        if sources[i].content_type == t {
            return true;
        }
        i = i + 1;
    }
    false
}

/// The first (at most three) of the candidates, sorted and without duplicates.
pub fn first_distinct(candidates: Vec<String>) -> (r: Vec<String>)
    ensures
        first_sorted_distinct(string_views(r@), string_views(candidates@)),
        r@.len() <= MAX_RELATED,
        strictly_sorted(string_views(r@)),
{
    let sorted = sort_dedup(candidates);
    let mut r: Vec<String> = Vec::new();
    let mut i: usize = 0;
    while i < sorted.len() && i < MAX_RELATED
        invariant
            i <= sorted.len(),
            i <= MAX_RELATED,
            string_views(r@) == string_views(sorted@).take(i as int),
        decreases sorted.len() - i,
    {
        let ghost before = string_views(r@);
        let x = sorted[i].clone();
        assert(x@ == sorted@[i as int]@);
        r.push(x);
        proof {
            assert(string_views(r@) =~= before.push(x@));
            assert(string_views(sorted@).take(i + 1) =~= string_views(sorted@).take(i as int).push(x@));
        }
        i = i + 1;
    }
    let ghost full = string_views(sorted@);
    assert(string_views(r@) == full.take(
        if full.len() < MAX_RELATED { full.len() as int } else { MAX_RELATED as int },
    ));
    r
}

/// The questions offered after an answer: those for its type and its concepts,
/// sorted, without duplicates, and at most three.
pub fn related_questions(question: &ProcessedQuestion, sources: &Vec<IslamicSource>) -> (r: Vec<String>)
    ensures
        first_sorted_distinct(string_views(r@), related_candidates(*question, sources@)),
        r@.len() <= MAX_RELATED,
{
    let has_quran = any_source_of_type(sources, SourceType::Quran);
    let mut candidates = type_questions_vec(question.question_type, has_quran);
    push_concept_questions(&mut candidates, &question.concepts);
    first_distinct(candidates)
}

// ---------------------------------------------------------------------------
// Warnings on a reviewed answer
// ---------------------------------------------------------------------------

/// What the review of an answer for fabrication found, as far as the
/// warnings go: whether its risk is above three tenths, and whether it found
/// unsupported claims or fabricated content.
#[derive(Debug, Clone, Copy)]
pub struct ReviewFindings {
    pub high_risk: bool,
    pub has_unsupported_claims: bool,
    pub has_fabricated_content: bool,
}

/// Whether some source is a weak or a fabricated hadith.
pub open spec fn has_weak_source(sources: Seq<IslamicSource>) -> bool {
    has_source_type(sources, SourceType::DaifHadith) || has_source_type(sources, SourceType::MawduHadith)
}

/// The warnings of the review: one for a risk above three tenths, one for
/// unsupported claims, one for fabricated content; or one saying that the
/// review could not be completed; none when reviews are off.
pub open spec fn review_warnings_spec(review_enabled: bool, review: Option<ReviewFindings>) -> Seq<Seq<char>> {
    if !review_enabled {
        Seq::empty()
    } else {
        match review {
            Some(f) => (if f.high_risk { seq!["تم اكتشاف مخاطر محتملة في الإجابة. يرجى التحقق من المصادر."@] } else { Seq::empty() })
                + (if f.has_unsupported_claims { seq!["بعض الادعاءات تحتاج مصادر إضافية."@] } else { Seq::empty() })
                + (if f.has_fabricated_content { seq!["تم اكتشاف محتوى قد يكون غير دقيق."@] } else { Seq::empty() }),
            None => seq!["لم يتم التحقق من دقة الإجابة بالكامل."@],
        }
    }
}

/// The other warnings: one for a disputed question when several viewpoints
/// are on, one for low confidence, one for weak sources.
pub open spec fn answer_warnings_spec(
    is_controversial: bool,
    viewpoints_enabled: bool,
    low_confidence: bool,
    sources: Seq<IslamicSource>,
) -> Seq<Seq<char>> {
    (if is_controversial && viewpoints_enabled { seq!["هذا الموضوع خلافي. يُنصح بمراجعة آراء العلماء المختلفة."@] } else { Seq::empty() })
        + (if low_confidence { seq!["مستوى الثقة في الإجابة منخفض. يُنصح بمراجعة المصادر الإضافية."@] } else { Seq::empty() })
        + (if has_weak_source(sources) { seq!["تحتوي الإجابة على مصادر ضعيفة. يرجى التحقق من صحتها."@] } else { Seq::empty() })
}

/// The warnings for a reviewed answer: those of the review, then the others.
pub open spec fn post_process_warnings_spec(
    review_enabled: bool,
    review: Option<ReviewFindings>,
    is_controversial: bool,
    viewpoints_enabled: bool,
    low_confidence: bool,
    sources: Seq<IslamicSource>,
) -> Seq<Seq<char>> {
    review_warnings_spec(review_enabled, review) + answer_warnings_spec(is_controversial, viewpoints_enabled, low_confidence, sources)
}

/// Appends `text` when `cond` holds.
fn push_if(warnings: &mut Vec<String>, cond: bool, text: &str)
    ensures
        string_views(final(warnings)@) == string_views(old(warnings)@) + (if cond { seq![text@] } else { Seq::empty() }),
{
    if cond {
        push_text(warnings, text);
    } else {
        assert(string_views(warnings@) =~= string_views(old(warnings)@) + Seq::<Seq<char>>::empty());
    }
}

/// Appends the warnings of the review (see `review_warnings_spec`).
fn add_review_warnings(warnings: &mut Vec<String>, review_enabled: bool, review: Option<ReviewFindings>)
    ensures
        string_views(final(warnings)@) == string_views(old(warnings)@) + review_warnings_spec(review_enabled, review),
{
    if review_enabled {
        match review {
            Some(f) => {
                let ghost s0 = string_views(warnings@);
                push_if(warnings, f.high_risk, "تم اكتشاف مخاطر محتملة في الإجابة. يرجى التحقق من المصادر.");
                let ghost s1 = string_views(warnings@);
                push_if(warnings, f.has_unsupported_claims, "بعض الادعاءات تحتاج مصادر إضافية.");
                let ghost s2 = string_views(warnings@);
                push_if(warnings, f.has_fabricated_content, "تم اكتشاف محتوى قد يكون غير دقيق.");
                assert(string_views(warnings@) =~= s0 + review_warnings_spec(review_enabled, review));
            },
            None => {
                push_text(warnings, "لم يتم التحقق من دقة الإجابة بالكامل.");
                assert(string_views(warnings@) =~= string_views(old(warnings)@) + review_warnings_spec(review_enabled, review));
            },
        }
    } else {
        assert(string_views(warnings@) =~= string_views(old(warnings)@) + review_warnings_spec(review_enabled, review));
    }
}

/// Appends the warnings for a reviewed answer to `warnings` (see
/// `post_process_warnings_spec`); `review` is `None` where the review failed.
pub fn add_post_process_warnings(
    warnings: &mut Vec<String>,
    review_enabled: bool,
    review: Option<ReviewFindings>,
    is_controversial: bool,
    viewpoints_enabled: bool,
    low_confidence: bool,
    sources: &Vec<IslamicSource>,
)
    ensures
        string_views(final(warnings)@) == string_views(old(warnings)@) + post_process_warnings_spec(
            review_enabled,
            review,
            is_controversial,
            viewpoints_enabled,
            low_confidence,
            sources@,
        ),
{
    let ghost s0 = string_views(warnings@);
    add_review_warnings(warnings, review_enabled, review);
    let ghost s1 = string_views(warnings@);
    push_if(warnings, is_controversial && viewpoints_enabled, "هذا الموضوع خلافي. يُنصح بمراجعة آراء العلماء المختلفة.");
    push_if(warnings, low_confidence, "مستوى الثقة في الإجابة منخفض. يُنصح بمراجعة المصادر الإضافية.");
    let weak = any_source_of_type(sources, SourceType::DaifHadith) || any_source_of_type(sources, SourceType::MawduHadith);
    push_if(warnings, weak, "تحتوي الإجابة على مصادر ضعيفة. يرجى التحقق من صحتها.");
    assert(string_views(warnings@) =~= s1 + answer_warnings_spec(is_controversial, viewpoints_enabled, low_confidence, sources@));
    assert(string_views(warnings@) =~= s0 + post_process_warnings_spec(
        review_enabled,
        review,
        is_controversial,
        viewpoints_enabled,
        low_confidence,
        sources@,
    ));
}


/// The part of the religious query processor that decides: it analyses the
/// question, and shapes the answer that comes back.
pub struct ReligiousQueryProcessor {
    pub question_processor: QuestionProcessor,
}

impl ReligiousQueryProcessor {
    /// The processor is set up with the standard tables.
    pub open spec fn wf(&self) -> bool {
        self.question_processor.standard()
    }

    pub fn new() -> (r: Self)
        ensures
            r.wf(),
    {
        ReligiousQueryProcessor { question_processor: QuestionProcessor::new() }
    }

    /// Analyses the question of a query: what `process_question` gives back,
    /// where a question that is classified out of scope is refused too.
    pub fn prepare_query(&self, question: &str) -> (r: Result<ProcessedQuestion, AIServiceError>)
        requires
            self.wf(),
        ensures
            self.question_processor.analysis_matches(question@, r),
            r matches Ok(q) ==> q.question_type != QuestionType::OutOfScope,
    {
        let q = self.question_processor.process_question(question);
        match q {
            Ok(p) => {
                if p.question_type == QuestionType::OutOfScope {
                    return Err(AIServiceError::OutOfScopeQuestion(to_string(
                        "هذا السؤال خارج نطاق الشؤون الإسلامية. أنا متخصص في الإجابة على الأسئلة الدينية فقط.",
                    )));
                }
                Ok(p)
            },
            Err(e) => Err(e),
        }
    }

    /// Validates a request (see `validate_query_request`).
    pub fn validate_request(&self, request: &ReligiousQueryRequest) -> (r: Result<(), AIServiceError>)
        ensures
            match validation_spec(request.question@, request.max_response_time_seconds) {
                Ok(()) => r is Ok,
                Err(m) => r matches Err(AIServiceError::QuestionProcessingError(msg)) && msg@ == m,
            },
    {
        validate_query_request(request)
    }

    /// Adds the courtesy phrases to an answer (see `courtesy_spec`).
    pub fn add_islamic_courtesy(&self, answer: &str) -> (r: String)
        ensures
            r@ == courtesy_spec(answer@),
    {
        add_islamic_courtesy(answer)
    }

    /// The citation text of a source (see `citation_spec`).
    pub fn format_citation(&self, source: &IslamicSource) -> (r: String)
        ensures
            r@ == citation_spec(source.content_type, author_view(source.author), source.reference@),
    {
        format_citation(source)
    }

    /// The citations of the sources (see `build_citations`).
    pub fn generate_citations(&self, sources: &Vec<IslamicSource>) -> (r: Vec<Citation>)
        ensures
            r@.len() == sources@.len(),
            forall|i: int| 0 <= i < sources@.len() ==> cites(#[trigger] r@[i], sources@[i], i as nat),
    {
        build_citations(sources)
    }

    /// The questions offered after an answer (see `related_questions`).
    pub fn generate_related_questions(&self, question: &ProcessedQuestion, sources: &Vec<IslamicSource>) -> (r: Vec<String>)
        ensures
            first_sorted_distinct(string_views(r@), related_candidates(*question, sources@)),
            r@.len() <= MAX_RELATED,
    {
        related_questions(question, sources)
    }
}

// ---------------------------------------------------------------------------
// Requests to and answers from the integration service
// ---------------------------------------------------------------------------

/// The names of the preferred kinds of source, as `{:?}` prints them.
pub open spec fn preferred_type_names_spec(preferred: Option<Vec<SourceType>>) -> Option<Seq<Seq<char>>> {
    match preferred {
        Some(v) => Some(v@.map_values(|t: SourceType| source_type_name(t))),
        None => None,
    }
}

/// The names of the preferred kinds of source, for a request to the
/// integration service.
pub fn preferred_type_names(preferred: &Option<Vec<SourceType>>) -> (r: Option<Vec<String>>)
    ensures
        match r {
            Some(v) => preferred_type_names_spec(*preferred) == Some(string_views(v@)),
            None => preferred is None,
        },
{
    match preferred {
        Some(types) => {
            let mut names: Vec<String> = Vec::new();
            let mut i: usize = 0;
            while i < types.len()
                invariant
                    i <= types.len(),
                    string_views(names@) == types@.take(i as int).map_values(|t: SourceType| source_type_name(t)),
                decreases types.len() - i,
            {
                push_text(&mut names, types[i].debug_name());
                proof {
                    assert(types@.take(i + 1).map_values(|t: SourceType| source_type_name(t))
                        =~= types@.take(i as int).map_values(|t: SourceType| source_type_name(t)).push(source_type_name(types@[i as int])));
                }
                i = i + 1;
            }
            proof {
                assert(types@.take(types.len() as int) =~= types@);
            }
            Some(names)
        },
        None => None,
    }
}

/// The name of the language, for a request to the integration service.
pub fn language_request_name(language: &Option<Language>) -> (r: Option<String>)
    ensures
        match r {
            Some(s) => *language matches Some(l) && s@ == language_name(l),
            None => language is None,
        },
{
    match language {
        Some(l) => Some(to_string(l.debug_name())),
        None => None,
    }
}

/// The detail of an answer in the pipeline's terms; standard where none is
/// asked for.
pub open spec fn rag_detail_spec(level: Option<DetailLevel>) -> RagDetailLevel {
    match level {
        Some(DetailLevel::Brief) => RagDetailLevel::Brief,
        Some(DetailLevel::Detailed) => RagDetailLevel::Detailed,
        Some(DetailLevel::Scholarly) => RagDetailLevel::Scholarly,
        _ => RagDetailLevel::Standard,
    }
}

/// The preferences handed to the retrieval pipeline for a request: its
/// preferred kinds of source (none where it names none), its language (Arabic
/// where it names none), its detail (see `rag_detail_spec`), and several
/// opinions where it asks for them, else where the question is disputed or
/// several viewpoints are on.
pub fn rag_preferences(request: &ReligiousQueryRequest, is_controversial: bool, viewpoints_enabled: bool) -> (r: UserPreferences)
    ensures
        r.preferred_sources@ == match request.preferred_sources {
            Some(v) => v@,
            None => Seq::<SourceType>::empty(),
        },
        r.language == match request.language {
            Some(l) => l,
            None => Language::Arabic,
        },
        r.detail_level == rag_detail_spec(request.detail_level),
        r.include_multiple_opinions == match request.include_multiple_opinions {
            Some(b) => b,
            None => is_controversial || viewpoints_enabled,
        },
{
    let mut preferred_sources: Vec<SourceType> = Vec::new();
    match &request.preferred_sources {
        Some(v) => {
            let mut i: usize = 0;
            while i < v.len()
                invariant
                    i <= v.len(),
                    preferred_sources@ == v@.take(i as int),
                decreases v.len() - i,
            {
                preferred_sources.push(v[i]);
                assert(v@.take(i + 1) =~= v@.take(i as int).push(v@[i as int]));
                i = i + 1;
            }
            assert(v@.take(v.len() as int) =~= v@);
        },
        None => {},
    }
    let language = match request.language {
        Some(l) => l,
        None => Language::Arabic,
    };
    let detail_level = match request.detail_level {
        Some(DetailLevel::Brief) => RagDetailLevel::Brief,
        Some(DetailLevel::Detailed) => RagDetailLevel::Detailed,
        Some(DetailLevel::Scholarly) => RagDetailLevel::Scholarly,
        _ => RagDetailLevel::Standard,
    };
    let include_multiple_opinions = match request.include_multiple_opinions {
        Some(b) => b,
        None => is_controversial || viewpoints_enabled,
    };
    UserPreferences { preferred_sources, language, detail_level, include_multiple_opinions }
}

/// The kind of source that the integration service names: "quran", "hadith"
/// (an authentic hadith), "tafsir", and a scholar's opinion for any other name.
pub open spec fn retrieved_type_spec(name: Seq<char>) -> SourceType {
    if name == "quran"@ {
        SourceType::Quran
    } else if name == "hadith"@ {
        SourceType::SahihHadith
    } else if name == "tafsir"@ {
        SourceType::Tafsir
    } else {
        SourceType::ScholarOpinion
    }
}

/// The authenticity that the integration service names: "verified",
/// "reliable", and unknown for any other name.
pub open spec fn retrieved_authenticity_spec(name: Seq<char>) -> AuthenticityLevel {
    if name == "verified"@ {
        AuthenticityLevel::Verified
    } else if name == "reliable"@ {
        AuthenticityLevel::Reliable
    } else {
        AuthenticityLevel::Unknown
    }
}

/// A source that the integration service retrieved, as a source in Arabic
/// created at `now` (Unix seconds) with no metadata.
pub fn source_from_retrieved(
    id: String,
    source_type: &str,
    text: String,
    reference: String,
    author: Option<String>,
    authenticity: &str,
    now: i64,
) -> (r: IslamicSource)
    ensures
        r.id == id,
        r.content_type == retrieved_type_spec(source_type@),
        r.text == text,
        r.reference == reference,
        r.author == author,
        r.authenticity == retrieved_authenticity_spec(authenticity@),
        r.language == Language::Arabic,
        r.metadata@ == Map::<String, String>::empty(),
        r.created_at == now,
{
    let content_type = if str_eq(source_type, "quran") {
        SourceType::Quran
    } else if str_eq(source_type, "hadith") {
        SourceType::SahihHadith
    } else if str_eq(source_type, "tafsir") {
        SourceType::Tafsir
    } else {
        SourceType::ScholarOpinion
    };
    let level = if str_eq(authenticity, "verified") {
        AuthenticityLevel::Verified
    } else if str_eq(authenticity, "reliable") {
        AuthenticityLevel::Reliable
    } else {
        AuthenticityLevel::Unknown
    };
    IslamicSource {
        id,
        content_type,
        text,
        reference,
        author,
        authenticity: level,
        language: Language::Arabic,
        metadata: std::collections::HashMap::new(),
        created_at: now,
    }
}

} // verus!
