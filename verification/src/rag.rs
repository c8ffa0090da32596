//! Retrieval-augmented answering: requests and preferences, the choice of the
//! sources that fit the model's context, the instructions and constraints given
//! to the model, the filters on retrieved sources, and the follow-up questions.
use vstd::prelude::*;
use std::collections::HashMap;
use crate::anti_hallucination::ResponseRecommendation;
use crate::source_scorer::SourceUsageRecommendation;
use crate::multiple_viewpoints::{controversy_arabic, madhab_arabic, ControlversyLevel, IslamicMadhab};
use crate::religious_query::{
    any_source_of_type, concepts_questions, first_distinct, first_sorted_distinct, has_source_type,
    push_concept_questions, push_text, type_questions, type_questions_vec, MAX_RELATED,
};
use crate::text::{chars_of, decimal, push_decimal, push_str, string_from_chars, string_views, utf8_len, utf8_length};
use crate::types::{
    clone_source, same_source, AIServiceError, AuthenticityLevel, ComplexityLevel, IslamicSource, Language,
    ProcessedQuestion, QuestionType, SourceType,
};

verus! {

/// How detailed an answer should be.
#[derive(Debug, Clone, Copy, PartialEq, Eq, Structural)]
pub enum DetailLevel {
    Brief,
    Standard,
    Detailed,
    Scholarly,
}

/// What the asker prefers of an answer.
#[derive(Debug, Clone)]
pub struct UserPreferences {
    pub preferred_sources: Vec<SourceType>,
    pub language: Language,
    pub detail_level: DetailLevel,
    pub include_multiple_opinions: bool,
}

/// A question put to the retrieval pipeline.
#[derive(Debug, Clone)]
pub struct RAGRequest {
    pub question: String,
    pub user_id: Option<String>,
    pub context: Option<HashMap<String, String>>,
    pub preferences: Option<UserPreferences>,
}

/// The name of the model that embeds questions.
pub open spec fn embedding_model_name() -> Seq<char> {
    "sentence-transformers/paraphrase-multilingual-MiniLM-L12-v2"@
}

/// The service that embeds text, by the name of its model.
pub struct EmbeddingService {
    pub model_name: String,
}

impl EmbeddingService {
    pub fn new() -> (r: Self)
        ensures
            r.model_name@ == embedding_model_name(),
    {
        EmbeddingService {
            model_name: crate::text::to_string("sentence-transformers/paraphrase-multilingual-MiniLM-L12-v2"),
        }
    }
}

// ---------------------------------------------------------------------------
// The context given to the model
// ---------------------------------------------------------------------------

/// The room for source texts in the context, in bytes of UTF-8.
pub const MAX_CONTEXT_BYTES: usize = 4000;

/// The bytes of the texts of the first `k` sources.
pub open spec fn text_bytes_before(sources: Seq<IslamicSource>, k: int) -> nat
    decreases k,
{
    if k <= 0 || k > sources.len() {
        0
    } else {
        text_bytes_before(sources, k - 1) + utf8_len(sources[k - 1].text@)
    }
}

/// The first `k` sources fit within `max` bytes and the next one would not:
/// sources are taken in order until one does not fit.
pub open spec fn fitting_count(sources: Seq<IslamicSource>, max: nat, k: int) -> bool {
    &&& 0 <= k <= sources.len()
    &&& text_bytes_before(sources, k) <= max
    &&& (k == sources.len() || text_bytes_before(sources, k + 1) > max)
}

/// Every source text is no longer than a `String` can be.
pub open spec fn texts_fit_in_memory(sources: Seq<IslamicSource>) -> bool {
    forall|i: int| 0 <= i < sources.len() ==> utf8_len(#[trigger] sources[i].text@) <= isize::MAX
}

/// What the instructions say of the viewpoints on a question.
#[derive(Debug, Clone)]
pub struct ViewpointsOutline {
    pub is_controversial: bool,
    pub controversy_level: ControlversyLevel,
    pub viewpoint_count: usize,
    pub madhabs_represented: Vec<IslamicMadhab>,
    pub has_consensus_areas: bool,
}

/// The words joined with `sep` between them.
pub open spec fn joined(ws: Seq<Seq<char>>, sep: Seq<char>) -> Seq<char>
    decreases ws.len(),
{
    if ws.len() == 0 {
        Seq::empty()
    } else if ws.len() == 1 {
        ws[0]
    } else {
        joined(ws.drop_last(), sep) + sep + ws.last()
    }
}

/// The Arabic names of the schools.
pub open spec fn madhab_names(ms: Seq<IslamicMadhab>) -> Seq<Seq<char>> {
    ms.map_values(|m: IslamicMadhab| madhab_arabic(m))
}

/// The part of the instructions on a disputed question with its viewpoints.
pub open spec fn viewpoints_instructions(v: ViewpointsOutline) -> Seq<char> {
    let names = madhab_names(v.madhabs_represented@);
    "هذا موضوع خلافي (مستوى الخلاف: "@ + controversy_arabic(v.controversy_level) + "). "@
        + (if v.viewpoint_count > 1 {
            "يوجد "@ + decimal(v.viewpoint_count as nat) + " وجهات نظر مختلفة في هذه المسألة. "@
                + (if names.len() > 0 { "المذاهب الممثلة: "@ + joined(names, "، "@) + ". "@ } else { Seq::empty() })
        } else {
            Seq::empty()
        })
        + "اعرض كل وجهة نظر مع أدلتها بشكل منصف ومتوازن. "@
        + "اذكر نقاط الاتفاق والاختلاف بوضوح. "@
        + (if v.has_consensus_areas { "ابدأ بنقاط الإجماع إن وجدت. "@ } else { Seq::empty() })
        + "وضح التطبيق العملي لكل رأي. "@
        + "اختتم بالتوصية العملية المناسبة. "@
}

/// The instructions for a type of question.
pub open spec fn type_instructions(t: QuestionType) -> Seq<char> {
    match t {
        QuestionType::Fiqh => "اذكر الأدلة الشرعية والآراء الفقهية المختلفة إن وجدت. "@,
        QuestionType::Tafsir => "اعتمد على كتب التفسير المعتمدة واذكر أقوال المفسرين. "@,
        QuestionType::Hadith => "تأكد من ذكر درجة صحة الأحاديث المذكورة. "@,
        _ => Seq::empty(),
    }
}

/// The instructions given to the model: its role, the part for the type of
/// question, the part on viewpoints (where the viewpoints are known and
/// disputed, or, where they are not known, a short note for a disputed
/// question), and the request to cite sources.
pub open spec fn instructions_spec(q: ProcessedQuestion, viewpoints: Option<ViewpointsOutline>) -> Seq<char> {
    "أنت مساعد ذكي متخصص في الشؤون الإسلامية. "@ + "أجب على السؤال التالي بناءً على المصادر المرفقة فقط. "@
        + type_instructions(q.question_type)
        + match viewpoints {
            Some(v) => if v.is_controversial { viewpoints_instructions(v) } else { Seq::empty() },
            None => if q.is_controversial {
                "هذا موضوع خلافي، اذكر وجهات النظر المختلفة مع مصادرها. "@
            } else {
                Seq::empty()
            },
        }
        + "اذكر المصادر في نهاية الإجابة."@
}

/// The constraints given to the model: never invent verses or hadith, keep to
/// the sources, say so when they hold no answer; plain language for a simple
/// question; the asker's language, keeping Arabic texts, for a question not in
/// Arabic.
pub open spec fn constraints_spec(q: ProcessedQuestion) -> Seq<Seq<char>> {
    let base = seq![
        "لا تختلق آيات أو أحاديث"@,
        "اعتمد فقط على المصادر المرفقة"@,
        "إذا لم تجد إجابة في المصادر، قل ذلك صراحة"@,
    ];
    let simple = if q.complexity_level == ComplexityLevel::Simple { base.push("استخدم لغة بسيطة ومفهومة"@) } else { base };
    if q.language != Language::Arabic {
        simple.push("أجب باللغة المطلوبة مع الحفاظ على النصوص العربية الأصلية"@)
    } else {
        simple
    }
}

/// What the model is given: the question, the sources that fit, the
/// instructions and the constraints.
#[derive(Debug, Clone)]
pub struct GenerationContext {
    pub question: String,
    pub sources: Vec<IslamicSource>,
    pub instructions: String,
    pub constraints: Vec<String>,
}

/// Appends the Arabic names of the schools, joined with an Arabic comma.
fn push_madhab_names(v: &mut Vec<char>, ms: &Vec<IslamicMadhab>)
    ensures
        final(v)@ == old(v)@ + joined(madhab_names(ms@), "، "@),
{
    let ghost names = madhab_names(ms@);
    let mut i: usize = 0;
    while i < ms.len()
        invariant
            i <= ms.len(),
            names == madhab_names(ms@),
            v@ == old(v)@ + joined(names.take(i as int), "، "@),
        decreases ms.len() - i,
    {
        proof {
            assert(names.take(i + 1).drop_last() =~= names.take(i as int));
        }
        if i > 0 {
            push_str(v, "، ");
        }
        let name = ms[i].to_arabic();
        push_str(v, name);
        proof {
            assert(names.take(i + 1).last() == name@);
            if i == 0 {
                assert(joined(names.take(1), "، "@) == names.take(1)[0]);
            }
            assert(v@ =~= old(v)@ + joined(names.take(i + 1), "، "@));
        }
        i = i + 1;
    }
    assert(names.take(ms.len() as int) =~= names);
}

/// Appends the part of the instructions on the viewpoints of a disputed
/// question (see `viewpoints_instructions`).
fn push_viewpoints_instructions(v: &mut Vec<char>, vp: &ViewpointsOutline)
    ensures
        final(v)@ == old(v)@ + viewpoints_instructions(*vp),
{
    push_str(v, "هذا موضوع خلافي (مستوى الخلاف: ");
    push_str(v, vp.controversy_level.to_arabic());
    push_str(v, "). ");
    let ghost a = v@;
    if vp.viewpoint_count > 1 {
        push_str(v, "يوجد ");
        push_decimal(v, vp.viewpoint_count);
        push_str(v, " وجهات نظر مختلفة في هذه المسألة. ");
        if vp.madhabs_represented.len() > 0 {
            push_str(v, "المذاهب الممثلة: ");
            push_madhab_names(v, &vp.madhabs_represented);
            push_str(v, ". ");
        }
    }
    let ghost b = v@;
    push_str(v, "اعرض كل وجهة نظر مع أدلتها بشكل منصف ومتوازن. ");
    push_str(v, "اذكر نقاط الاتفاق والاختلاف بوضوح. ");
    if vp.has_consensus_areas {
        push_str(v, "ابدأ بنقاط الإجماع إن وجدت. ");
    }
    push_str(v, "وضح التطبيق العملي لكل رأي. ");
    push_str(v, "اختتم بالتوصية العملية المناسبة. ");
    proof {
        let names = madhab_names(vp.madhabs_represented@);
        let counted = if vp.viewpoint_count > 1 {
            "يوجد "@ + decimal(vp.viewpoint_count as nat) + " وجهات نظر مختلفة في هذه المسألة. "@
                + (if names.len() > 0 { "المذاهب الممثلة: "@ + joined(names, "، "@) + ". "@ } else { Seq::empty() })
        } else {
            Seq::empty()
        };
        assert(b =~= a + counted);
        assert(v@ =~= old(v)@ + viewpoints_instructions(*vp));
    }
}

/// Builds the context of the model.
pub struct ContextBuilder {
    pub max_context_length: usize,
}

impl ContextBuilder {
    pub fn new() -> (r: Self)
        ensures
            r.max_context_length == MAX_CONTEXT_BYTES,
    {
        ContextBuilder { max_context_length: MAX_CONTEXT_BYTES }
    }

    /// The sources taken into the context: in order of priority, as long as
    /// the bytes of their texts stay within the limit (see `fitting_count`).
    pub fn select_context_sources(&self, sources: &Vec<IslamicSource>) -> (r: Vec<IslamicSource>)
        requires
            texts_fit_in_memory(sources@),
        ensures
            fitting_count(sources@, self.max_context_length as nat, r@.len() as int),
            forall|i: int| 0 <= i < r@.len() ==> same_source(#[trigger] r@[i], sources@[i]),
    {
        let mut r: Vec<IslamicSource> = Vec::new();
        let mut current: usize = 0;
        let mut full = false;
        let mut i: usize = 0;
        while i < sources.len() && !full
            invariant
                i <= sources.len(),
                r@.len() == i,
                current == text_bytes_before(sources@, i as int),
                current <= self.max_context_length,
                texts_fit_in_memory(sources@),
                full ==> i < sources.len() && text_bytes_before(sources@, i + 1) > self.max_context_length,
                forall|k: int| 0 <= k < i ==> same_source(#[trigger] r@[k], sources@[k]),
            decreases sources.len() - i + (if full { 0int } else { 1int }),
        {
            let cs = chars_of(sources[i].text.as_str());
            let len = utf8_length(&cs);
            assert(utf8_len(sources@[i as int].text@) <= isize::MAX);
            if len <= self.max_context_length - current {
                r.push(clone_source(&sources[i]));
                current = current + len;
                i = i + 1;
            } else {
                full = true;
            }
        }
        r
    }

    /// The instructions given to the model (see `instructions_spec`).
    pub fn build_instructions_with_viewpoints(
        &self,
        question: &ProcessedQuestion,
        viewpoints: &Option<ViewpointsOutline>,
    ) -> (r: String)
        ensures
            r@ == instructions_spec(*question, *viewpoints),
    {
        let mut v: Vec<char> = Vec::new();
        push_str(&mut v, "أنت مساعد ذكي متخصص في الشؤون الإسلامية. ");
        push_str(&mut v, "أجب على السؤال التالي بناءً على المصادر المرفقة فقط. ");
        match question.question_type {
            QuestionType::Fiqh => push_str(&mut v, "اذكر الأدلة الشرعية والآراء الفقهية المختلفة إن وجدت. "),
            QuestionType::Tafsir => push_str(&mut v, "اعتمد على كتب التفسير المعتمدة واذكر أقوال المفسرين. "),
            QuestionType::Hadith => push_str(&mut v, "تأكد من ذكر درجة صحة الأحاديث المذكورة. "),
            _ => {},
        }
        let ghost head = v@;
        assert(head == "أنت مساعد ذكي متخصص في الشؤون الإسلامية. "@ + "أجب على السؤال التالي بناءً على المصادر المرفقة فقط. "@
            + type_instructions(question.question_type));
        match viewpoints {
            Some(vp) => {
                if vp.is_controversial {
                    push_viewpoints_instructions(&mut v, vp);
                }
            },
            None => {
                if question.is_controversial {
                    push_str(&mut v, "هذا موضوع خلافي، اذكر وجهات النظر المختلفة مع مصادرها. ");
                }
            },
        }
        let ghost middle = v@;
        assert(middle == head + match *viewpoints {
            Some(vp) => if vp.is_controversial { viewpoints_instructions(vp) } else { Seq::empty() },
            None => if question.is_controversial {
                "هذا موضوع خلافي، اذكر وجهات النظر المختلفة مع مصادرها. "@
            } else {
                Seq::empty()
            },
        });
        push_str(&mut v, "اذكر المصادر في نهاية الإجابة.");
        assert(v@ =~= instructions_spec(*question, *viewpoints));
        string_from_chars(&v)
    }

    /// The constraints given to the model (see `constraints_spec`).
    pub fn build_constraints(&self, question: &ProcessedQuestion) -> (r: Vec<String>)
        ensures
            string_views(r@) == constraints_spec(*question),
    {
        let mut r: Vec<String> = Vec::new();
        push_text(&mut r, "لا تختلق آيات أو أحاديث");
        push_text(&mut r, "اعتمد فقط على المصادر المرفقة");
        push_text(&mut r, "إذا لم تجد إجابة في المصادر، قل ذلك صراحة");
        if question.complexity_level == ComplexityLevel::Simple {
            push_text(&mut r, "استخدم لغة بسيطة ومفهومة");
        }
        if question.language != Language::Arabic {
            push_text(&mut r, "أجب باللغة المطلوبة مع الحفاظ على النصوص العربية الأصلية");
        }
        r
    }

    /// The context of the model: the sources that fit, the instructions and
    /// the constraints.
    pub fn build_context_with_viewpoints(
        &self,
        question: &ProcessedQuestion,
        sources: &Vec<IslamicSource>,
        viewpoints: &Option<ViewpointsOutline>,
    ) -> (r: GenerationContext)
        requires
            texts_fit_in_memory(sources@),
        ensures
            r.question@ == question.original_text@,
            fitting_count(sources@, self.max_context_length as nat, r.sources@.len() as int),
            forall|i: int| 0 <= i < r.sources@.len() ==> same_source(#[trigger] r.sources@[i], sources@[i]),
            r.instructions@ == instructions_spec(*question, *viewpoints),
            string_views(r.constraints@) == constraints_spec(*question),
    {
        let chosen = self.select_context_sources(sources);
        let instructions = self.build_instructions_with_viewpoints(question, viewpoints);
        let constraints = self.build_constraints(question);
        GenerationContext { question: question.original_text.clone(), sources: chosen, instructions, constraints }
    }

    /// The context of the model where no viewpoints are known.
    pub fn build_context(&self, question: &ProcessedQuestion, sources: &Vec<IslamicSource>) -> (r: GenerationContext)
        requires
            texts_fit_in_memory(sources@),
        ensures
            r.question@ == question.original_text@,
            fitting_count(sources@, self.max_context_length as nat, r.sources@.len() as int),
            forall|i: int| 0 <= i < r.sources@.len() ==> same_source(#[trigger] r.sources@[i], sources@[i]),
            r.instructions@ == instructions_spec(*question, None),
            string_views(r.constraints@) == constraints_spec(*question),
    {
        self.build_context_with_viewpoints(question, sources, &None)
    }
}

// ---------------------------------------------------------------------------
// Filters on retrieved sources
// ---------------------------------------------------------------------------

/// The rank of an authenticity level: verified highest, unknown lowest.
pub open spec fn authenticity_rank(a: AuthenticityLevel) -> nat {
    match a {
        AuthenticityLevel::Verified => 5,
        AuthenticityLevel::Reliable => 4,
        AuthenticityLevel::Questionable => 3,
        AuthenticityLevel::Unreliable => 2,
        AuthenticityLevel::Unknown => 1,
    }
}

/// Whether a source's authenticity reaches the least one asked for.
pub fn meets_authenticity_requirement(source_auth: AuthenticityLevel, min_auth: AuthenticityLevel) -> (r: bool)
    ensures
        r == (authenticity_rank(source_auth) >= authenticity_rank(min_auth)),
{
    let source_score: u8 = match source_auth {
        AuthenticityLevel::Verified => 5,
        AuthenticityLevel::Reliable => 4,
        AuthenticityLevel::Questionable => 3,
        AuthenticityLevel::Unreliable => 2,
        AuthenticityLevel::Unknown => 1,
    };
    let min_score: u8 = match min_auth {
        AuthenticityLevel::Verified => 5,
        AuthenticityLevel::Reliable => 4,
        AuthenticityLevel::Questionable => 3,
        AuthenticityLevel::Unreliable => 2,
        AuthenticityLevel::Unknown => 1,
    };
    source_score >= min_score
}

/// A source passes the filters: its type is one of those asked for (any type
/// when none is asked for) and its authenticity reaches the least asked for.
pub open spec fn passes_filters(s: IslamicSource, types: Seq<SourceType>, min_auth: AuthenticityLevel) -> bool {
    (types.len() == 0 || types.contains(s.content_type)) && authenticity_rank(s.authenticity) >= authenticity_rank(
        min_auth,
    )
}

/// The sources that pass the filters, in order.
pub open spec fn filtered_sources(sources: Seq<IslamicSource>, types: Seq<SourceType>, min_auth: AuthenticityLevel) -> Seq<IslamicSource>
    decreases sources.len(),
{
    if sources.len() == 0 {
        Seq::empty()
    } else {
        let rest = filtered_sources(sources.drop_last(), types, min_auth);
        if passes_filters(sources.last(), types, min_auth) { rest.push(sources.last()) } else { rest }
    }
}

/// Whether `t` is one of `types`.
fn type_listed(types: &Vec<SourceType>, t: SourceType) -> (r: bool)
    ensures
        r == types@.contains(t),
{
    let mut i: usize = 0;
    while i < types.len()
        invariant
            i <= types.len(),
            forall|k: int| 0 <= k < i ==> types@[k] != t,
        decreases types.len() - i,
    {
        if types[i] == t {
            return true;
        }
        i = i + 1;
    }
    false
}

/// The sources that pass the filters on type and authenticity (see
/// `filtered_sources`), in their order.
pub fn filter_by_type_and_authenticity(
    sources: &Vec<IslamicSource>,
    content_types: &Vec<SourceType>,
    min_authenticity: AuthenticityLevel,
) -> (r: Vec<IslamicSource>)
    ensures
        r@.len() == filtered_sources(sources@, content_types@, min_authenticity).len(),
        forall|i: int| 0 <= i < r@.len() ==> same_source(
            #[trigger] r@[i],
            filtered_sources(sources@, content_types@, min_authenticity)[i],
        ),
{
    let ghost ts = content_types@;
    let mut r: Vec<IslamicSource> = Vec::new();
    let mut i: usize = 0;
    while i < sources.len()
        invariant
            i <= sources.len(),
            ts == content_types@,
            r@.len() == filtered_sources(sources@.take(i as int), ts, min_authenticity).len(),
            forall|k: int| 0 <= k < r@.len() ==> same_source(
                #[trigger] r@[k],
                filtered_sources(sources@.take(i as int), ts, min_authenticity)[k],
            ),
        decreases sources.len() - i,
    {
        let ghost prev = filtered_sources(sources@.take(i as int), ts, min_authenticity);
        proof {
            assert(sources@.take(i + 1).drop_last() =~= sources@.take(i as int));
            assert(sources@.take(i + 1).last() == sources@[i as int]);
        }
        let s = &sources[i];
        let type_ok = content_types.len() == 0 || type_listed(content_types, s.content_type);
        if type_ok && meets_authenticity_requirement(s.authenticity, min_authenticity) {
            r.push(clone_source(s));
            proof {
                let next = filtered_sources(sources@.take(i + 1), ts, min_authenticity);
                assert(next == prev.push(sources@[i as int]));
                assert forall|k: int| 0 <= k < r@.len() implies same_source(#[trigger] r@[k], next[k]) by {
                    if k < prev.len() {
                        assert(next[k] == prev[k]);
                    }
                }
            }
        } else {
            proof {
                let next = filtered_sources(sources@.take(i + 1), ts, min_authenticity);
                assert(next == prev);
            }
        }
        i = i + 1;
    }
    assert(sources@.take(sources.len() as int) =~= sources@);
    r
}

/// The positions, in order, of the sources that scored at least the threshold
/// and are not fabricated hadith, among the first `n`.
pub open spec fn eligible_positions(kinds: Seq<SourceType>, above_threshold: Seq<bool>, n: int) -> Seq<int>
    decreases n,
{
    if n <= 0 {
        Seq::empty()
    } else {
        let rest = eligible_positions(kinds, above_threshold, n - 1);
        if above_threshold[n - 1] && kinds[n - 1] != SourceType::MawduHadith { rest.push(n - 1) } else { rest }
    }
}

/// The positions among fewer sources come first among the positions among more.
pub proof fn lemma_eligible_prefix(kinds: Seq<SourceType>, above_threshold: Seq<bool>, n: int, m: int)
    requires
        0 <= n <= m,
    ensures
        eligible_positions(kinds, above_threshold, n).len() <= eligible_positions(kinds, above_threshold, m).len(),
        eligible_positions(kinds, above_threshold, m).take(eligible_positions(kinds, above_threshold, n).len() as int)
            == eligible_positions(kinds, above_threshold, n),
    decreases m - n,
{
    if n < m {
        lemma_eligible_prefix(kinds, above_threshold, n, m - 1);
        let a = eligible_positions(kinds, above_threshold, n);
        let b = eligible_positions(kinds, above_threshold, m - 1);
        let c = eligible_positions(kinds, above_threshold, m);
        if above_threshold[m - 1] && kinds[m - 1] != SourceType::MawduHadith {
            assert(c.take(a.len() as int) =~= b.take(a.len() as int));
        }
    } else {
        let a = eligible_positions(kinds, above_threshold, n);
        assert(a.take(a.len() as int) =~= a);
    }
}

/// The refusal when no source is left.
pub open spec fn no_sources_message() -> Seq<char> {
    "لم يتم العثور على مصادر موثوقة كافية للإجابة على السؤال"@
}

/// The sources kept for an answer, by position: those that scored at least the
/// threshold and are not fabricated hadith, at most `max_sources` of them, in
/// order. Where none is left the answer is refused.
pub fn filter_sources(kinds: &Vec<SourceType>, above_threshold: &Vec<bool>, max_sources: usize) -> (r: Result<Vec<usize>, AIServiceError>)
    requires
        kinds@.len() == above_threshold@.len(),
    ensures
        ({
            let all = eligible_positions(kinds@, above_threshold@, kinds@.len() as int);
            let kept = all.take(if all.len() < max_sources { all.len() as int } else { max_sources as int });
            match r {
                Ok(v) => kept.len() > 0 && v@.map_values(|p: usize| p as int) == kept,
                Err(e) => kept.len() == 0 && (e matches AIServiceError::SourceVerificationError(msg) && msg@ == no_sources_message()),
            }
        }),
{
    let ghost n = kinds@.len() as int;
    let mut r: Vec<usize> = Vec::new();
    let mut i: usize = 0;
    while i < kinds.len() && r.len() < max_sources
        invariant
            i <= kinds.len(),
            kinds@.len() == above_threshold@.len(),
            n == kinds@.len(),
            r@.len() <= max_sources,
            r@.map_values(|p: usize| p as int) == eligible_positions(kinds@, above_threshold@, i as int),
        decreases kinds.len() - i,
    {
        if above_threshold[i] && kinds[i] != SourceType::MawduHadith {
            let ghost before = r@.map_values(|p: usize| p as int);
            r.push(i);
            assert(r@.map_values(|p: usize| p as int) =~= before.push(i as int));
        }
        i = i + 1;
    }
    proof {
        let all = eligible_positions(kinds@, above_threshold@, n);
        let cur = eligible_positions(kinds@, above_threshold@, i as int);
        lemma_eligible_prefix(kinds@, above_threshold@, i as int, n);
        if i < kinds.len() {
            assert(cur.len() == max_sources);
        } else {
            assert(cur == all);
            assert(all.take(all.len() as int) =~= all);
        }
    }
    if r.len() == 0 {
        return Err(AIServiceError::SourceVerificationError(crate::text::to_string(
            "لم يتم العثور على مصادر موثوقة كافية للإجابة على السؤال",
        )));
    }
    Ok(r)
}

// ---------------------------------------------------------------------------
// Follow-up questions
// ---------------------------------------------------------------------------

/// The candidate follow-up questions: those for the type and the concepts of
/// the question, then one on the verses when a Quran source is at hand and one
/// on sound hadith when a sahih hadith is.
pub open spec fn rag_related_candidates(q: ProcessedQuestion, sources: Seq<IslamicSource>) -> Seq<Seq<char>> {
    let base = type_questions(q.question_type, has_source_type(sources, SourceType::Quran))
        + concepts_questions(string_views(q.concepts@));
    let with_verses = if has_source_type(sources, SourceType::Quran) { base.push("ما هي الآيات ذات الصلة؟"@) } else { base };
    if has_source_type(sources, SourceType::SahihHadith) {
        with_verses.push("ما هي الأحاديث الصحيحة في هذا الموضوع؟"@)
    } else {
        with_verses
    }
}

/// The follow-up questions after an answer of the pipeline: the candidates
/// sorted, without duplicates, at most three.
pub fn generate_related_questions(question: &ProcessedQuestion, sources: &Vec<IslamicSource>) -> (r: Vec<String>)
    ensures
        first_sorted_distinct(string_views(r@), rag_related_candidates(*question, sources@)),
        r@.len() <= MAX_RELATED,
{
    let has_quran = any_source_of_type(sources, SourceType::Quran);
    let has_sahih = any_source_of_type(sources, SourceType::SahihHadith);
    let mut candidates = type_questions_vec(question.question_type, has_quran);
    push_concept_questions(&mut candidates, &question.concepts);
    if has_quran {
        push_text(&mut candidates, "ما هي الآيات ذات الصلة؟");
    }
    if has_sahih {
        push_text(&mut candidates, "ما هي الأحاديث الصحيحة في هذا الموضوع؟");
    }
    first_distinct(candidates)
}

// ---------------------------------------------------------------------------
// The review of a generated answer
// ---------------------------------------------------------------------------

/// What the review of a generated answer found, as far as the final answer
/// goes: the recommendation, and whether unsupported claims or fabricated
/// content were found.
#[derive(Debug, Clone, Copy)]
pub struct ReviewOutcome {
    pub recommendation: ResponseRecommendation,
    pub has_unsupported_claims: bool,
    pub has_fabricated_content: bool,
}

/// The refusal of an answer that the review rejects.
pub open spec fn fabricated_answer_message() -> Seq<char> {
    "تم اكتشاف محتوى مختلق في الإجابة"@
}

/// The warning that a recommendation adds.
pub open spec fn recommendation_warning(r: ResponseRecommendation) -> Seq<Seq<char>> {
    match r {
        ResponseRecommendation::RequestHumanReview => seq!["هذه الإجابة تحتاج مراجعة بشرية"@],
        ResponseRecommendation::RequireRevision => seq!["تم تعديل الإجابة لضمان الدقة"@],
        ResponseRecommendation::ApproveWithWarning => seq!["يرجى التحقق من المصادر المذكورة"@],
        _ => Seq::empty(),
    }
}

/// The factor, in tenths, by which a recommendation lowers the confidence.
pub open spec fn recommendation_factor_tenths(r: ResponseRecommendation) -> u32 {
    match r {
        ResponseRecommendation::RequestHumanReview => 7,
        ResponseRecommendation::RequireRevision => 8,
        ResponseRecommendation::ApproveWithWarning => 9,
        _ => 10,
    }
}

/// The warnings of a review: the recommendation's, then one for unsupported
/// claims and one for fabricated content.
pub open spec fn review_outcome_warnings(review: Option<ReviewOutcome>) -> Seq<Seq<char>> {
    match review {
        Some(o) => recommendation_warning(o.recommendation)
            + (if o.has_unsupported_claims { seq!["بعض المعلومات تحتاج مصادر إضافية"@] } else { Seq::empty() })
            + (if o.has_fabricated_content { seq!["تم اكتشاف محتوى قد يكون غير دقيق"@] } else { Seq::empty() }),
        None => Seq::empty(),
    }
}

/// The warning for weak hadith among the sources.
pub open spec fn weak_hadith_warning(kinds: Seq<SourceType>) -> Seq<Seq<char>> {
    if kinds.contains(SourceType::DaifHadith) {
        seq!["تحتوي الإجابة على أحاديث ضعيفة - يرجى التحقق"@]
    } else {
        Seq::empty()
    }
}

/// The decision on a generated answer: refused when the review rejects it;
/// else its warnings (those of the review, then one for weak hadith among the
/// sources of kinds `kinds`) and the factor in tenths for its confidence (ten
/// where there was no review).
pub fn finalize_review(review: Option<ReviewOutcome>, kinds: &Vec<SourceType>) -> (r: Result<(Vec<String>, u32), AIServiceError>)
    ensures
        match r {
            Err(e) => {
                &&& review matches Some(o) && o.recommendation == ResponseRecommendation::Reject
                &&& e matches AIServiceError::HallucinationDetected(m) && m@ == fabricated_answer_message()
            },
            Ok((warnings, factor)) => {
                &&& !(review matches Some(o) && o.recommendation == ResponseRecommendation::Reject)
                &&& string_views(warnings@) == review_outcome_warnings(review) + weak_hadith_warning(kinds@)
                &&& factor == match review {
                    Some(o) => recommendation_factor_tenths(o.recommendation),
                    None => 10,
                }
            },
        },
{
    let mut warnings: Vec<String> = Vec::new();
    let mut factor: u32 = 10;
    match review {
        Some(o) => {
            match o.recommendation {
                ResponseRecommendation::Reject => {
                    return Err(AIServiceError::HallucinationDetected(crate::text::to_string(
                        "تم اكتشاف محتوى مختلق في الإجابة",
                    )));
                },
                ResponseRecommendation::RequestHumanReview => {
                    push_text(&mut warnings, "هذه الإجابة تحتاج مراجعة بشرية");
                    factor = 7;
                },
                ResponseRecommendation::RequireRevision => {
                    push_text(&mut warnings, "تم تعديل الإجابة لضمان الدقة");
                    factor = 8;
                },
                ResponseRecommendation::ApproveWithWarning => {
                    push_text(&mut warnings, "يرجى التحقق من المصادر المذكورة");
                    factor = 9;
                },
                _ => {},
            }
            if o.has_unsupported_claims {
                push_text(&mut warnings, "بعض المعلومات تحتاج مصادر إضافية");
            }
            if o.has_fabricated_content {
                push_text(&mut warnings, "تم اكتشاف محتوى قد يكون غير دقيق");
            }
        },
        None => {},
    }
    assert(string_views(warnings@) =~= review_outcome_warnings(review));
    let ghost before = string_views(warnings@);
    let mut i: usize = 0;
    let mut weak = false;
    while i < kinds.len()
        invariant
            i <= kinds.len(),
            weak == (exists|k: int| 0 <= k < i && kinds@[k] == SourceType::DaifHadith),
        decreases kinds.len() - i,
    {
        if kinds[i] == SourceType::DaifHadith {
            weak = true;
        }
        i = i + 1;
    }
    assert(weak == kinds@.contains(SourceType::DaifHadith));
    if weak {
        push_text(&mut warnings, "تحتوي الإجابة على أحاديث ضعيفة - يرجى التحقق");
    }
    assert(string_views(warnings@) =~= before + weak_hadith_warning(kinds@));
    Ok((warnings, factor))
}

/// Whether a source with this recommendation is cited in the answer.
pub open spec fn is_cited(u: SourceUsageRecommendation) -> bool {
    u == SourceUsageRecommendation::Primary || u == SourceUsageRecommendation::Supporting
}

/// The positions, in order, of the sources that are cited among the first `n`.
pub open spec fn cited_positions_spec(usages: Seq<SourceUsageRecommendation>, n: int) -> Seq<int>
    decreases n,
{
    if n <= 0 {
        Seq::empty()
    } else {
        let rest = cited_positions_spec(usages, n - 1);
        if is_cited(usages[n - 1]) { rest.push(n - 1) } else { rest }
    }
}

/// The positions of the sources to cite: those recommended as primary or
/// supporting, in order.
pub fn cited_positions(usages: &Vec<SourceUsageRecommendation>) -> (r: Vec<usize>)
    ensures
        r@.map_values(|p: usize| p as int) == cited_positions_spec(usages@, usages@.len() as int),
{
    let mut r: Vec<usize> = Vec::new();
    let mut i: usize = 0;
    while i < usages.len()
        invariant
            i <= usages.len(),
            r@.map_values(|p: usize| p as int) == cited_positions_spec(usages@, i as int),
        decreases usages.len() - i,
    {
        let u = usages[i];
        if u == SourceUsageRecommendation::Primary || u == SourceUsageRecommendation::Supporting {
            let ghost before = r@.map_values(|p: usize| p as int);
            r.push(i);
            assert(r@.map_values(|p: usize| p as int) =~= before.push(i as int));
        }
        i = i + 1;
    }
    r
}

/// Whether a source of this kind is a hadith whose display is checked.
pub open spec fn display_checked(t: SourceType) -> bool {
    t == SourceType::SahihHadith || t == SourceType::HasanHadith || t == SourceType::DaifHadith
}

/// How a source is used after the check of a hadith: a hadith that may not be
/// shown becomes cautionary; any other source, a hadith that may be shown, and
/// a hadith whose check failed (`may_display` is `None`) keep their use.
pub fn usage_after_hadith_check(
    kind: SourceType,
    usage: SourceUsageRecommendation,
    may_display: Option<bool>,
) -> (r: SourceUsageRecommendation)
    ensures
        r == (if display_checked(kind) && may_display == Some(false) {
            SourceUsageRecommendation::Cautionary
        } else {
            usage
        }),
{
    let checked = kind == SourceType::SahihHadith || kind == SourceType::HasanHadith || kind == SourceType::DaifHadith;
    match may_display {
        Some(false) => {
            if checked {
                SourceUsageRecommendation::Cautionary
            } else {
                usage
            }
        },
        _ => usage,
    }
}

// ---------------------------------------------------------------------------
// The simulated vector database
// ---------------------------------------------------------------------------

/// A source found by a similarity search; similarity is in hundredths.
#[derive(Debug, Clone)]
pub struct SearchResult {
    pub source: IslamicSource,
    pub similarity_hundredths: u32,
    pub metadata: HashMap<String, String>,
}

/// A vector database that answers every search from a fixed catalogue: the
/// Throne Verse, the hadith of intentions and Ibn Kathir's commentary on the
/// Throne Verse.
pub struct VectorDatabaseClient {}

/// What a catalogue entry holds: identifier, kind, text, reference, author
/// and similarity in hundredths.
pub open spec fn search_catalog() -> Seq<(Seq<char>, SourceType, Seq<char>, Seq<char>, Option<Seq<char>>, u32)> {
    seq![
        (
            "quran_002_255"@,
            SourceType::Quran,
            "اللَّهُ لَا إِلَٰهَ إِلَّا هُوَ الْحَيُّ الْقَيُّومُ ۚ لَا تَأْخُذُهُ سِنَةٌ وَلَا نَوْمٌ"@,
            "البقرة: 255"@,
            None,
            95u32,
        ),
        (
            "hadith_bukhari_001"@,
            SourceType::SahihHadith,
            "إنما الأعمال بالنيات وإنما لكل امرئ ما نوى"@,
            "صحيح البخاري، كتاب بدء الوحي، حديث رقم 1"@,
            Some("البخاري"@),
            87u32,
        ),
        (
            "tafsir_ibn_kathir_002_255"@,
            SourceType::Tafsir,
            "هذه آية الكرسي وهي أعظم آية في القرآن الكريم"@,
            "تفسير ابن كثير، سورة البقرة، آية 255"@,
            Some("ابن كثير"@),
            82u32,
        ),
    ]
}

/// Whether `r` is the catalogue entry `e`, verified, in Arabic, created at
/// `now`, with no metadata of its own.
pub open spec fn is_catalog_result(
    r: SearchResult,
    e: (Seq<char>, SourceType, Seq<char>, Seq<char>, Option<Seq<char>>, u32),
    now: i64,
) -> bool {
    &&& r.source.id@ == e.0
    &&& r.source.content_type == e.1
    &&& r.source.text@ == e.2
    &&& r.source.reference@ == e.3
    &&& author_view_of(r.source.author) == e.4
    &&& r.source.authenticity == AuthenticityLevel::Verified
    &&& r.source.language == Language::Arabic
    &&& r.source.created_at == now
    &&& r.similarity_hundredths == e.5
    &&& r.metadata@ == Map::<String, String>::empty()
}

/// Each result is the catalogue entry at its position, as found at `now`.
pub open spec fn catalog_results_at(r: Seq<SearchResult>, now: i64) -> bool {
    forall|i: int| 0 <= i < r.len() ==> is_catalog_result(#[trigger] r[i], search_catalog()[i], now)
}

/// An optional author by its view.
pub open spec fn author_view_of(a: Option<String>) -> Option<Seq<char>> {
    match a {
        Some(s) => Some(s@),
        None => None,
    }
}

/// A source of the catalogue, created at `now`; its metadata (the surah and
/// verse, the book, chapter and number, or the commentary and surah) is not
/// described by the contract.
fn catalog_source(
    id: &str,
    content_type: SourceType,
    text: &str,
    reference: &str,
    author: Option<&str>,
    metadata: HashMap<String, String>,
    now: i64,
) -> (r: IslamicSource)
    ensures
        r.id@ == id@,
        r.content_type == content_type,
        r.text@ == text@,
        r.reference@ == reference@,
        author_view_of(r.author) == match author { Some(a) => Some(a@), None => None },
        r.authenticity == AuthenticityLevel::Verified,
        r.language == Language::Arabic,
        r.created_at == now,
{
    IslamicSource {
        id: crate::text::to_string(id),
        content_type,
        text: crate::text::to_string(text),
        reference: crate::text::to_string(reference),
        author: match author {
            Some(a) => Some(crate::text::to_string(a)),
            None => None,
        },
        authenticity: AuthenticityLevel::Verified,
        language: Language::Arabic,
        metadata,
        created_at: now,
    }
}

/// `m` holds the pairs of strings of `pairs`: each of its keys is, with its
/// value, one of the pairs, and each pair's key is one of its keys.
pub open spec fn holds_pairs(m: Map<String, String>, pairs: Seq<(&str, &str)>) -> bool {
    &&& forall|k: String| #[trigger] m.contains_key(k) ==> exists|i: int|
        0 <= i < pairs.len() && k@ == (#[trigger] pairs[i]).0@ && m[k]@ == pairs[i].1@
    &&& forall|i: int| 0 <= i < pairs.len() ==> exists|k: String|
        #[trigger] m.contains_key(k) && k@ == (#[trigger] pairs[i]).0@
}

/// A map holding the given pairs of strings (see `holds_pairs`), wherever
/// `String` keys follow the hash map's key model.
fn string_pairs(pairs: &Vec<(&str, &str)>) -> (r: HashMap<String, String>)
    ensures
        vstd::std_specs::hash::obeys_key_model::<String>() ==> holds_pairs(r@, pairs@),
{
    broadcast use vstd::std_specs::hash::axiom_random_state_builds_valid_hashers;
    let mut m: HashMap<String, String> = HashMap::new();
    let mut i: usize = 0;
    while i < pairs.len()
        invariant
            i <= pairs.len(),
            vstd::std_specs::hash::obeys_key_model::<String>() ==> holds_pairs(m@, pairs@.take(i as int)),
        decreases pairs.len() - i,
    {
        let (k, v) = pairs[i];
        let ks = crate::text::to_string(k);
        let vs = crate::text::to_string(v);
        let ghost before = m@;
        m.insert(ks, vs);
        proof {
            if vstd::std_specs::hash::obeys_key_model::<String>() {
                let ps = pairs@.take(i + 1);
                let prev = pairs@.take(i as int);
                assert(m@ == before.insert(ks, vs));
                assert(ps[i as int] == pairs@[i as int]);
                assert forall|key: String| #[trigger] m@.contains_key(key) implies exists|j: int|
                    0 <= j < ps.len() && key@ == (#[trigger] ps[j]).0@ && m@[key]@ == ps[j].1@ by {
                    if key == ks {
                        assert(ps[i as int].0@ == key@ && m@[key]@ == ps[i as int].1@);
                    } else {
                        assert(before.contains_key(key));
                        let j = choose|j: int| 0 <= j < prev.len() && key@ == (#[trigger] prev[j]).0@ && before[key]@ == prev[j].1@;
                        assert(ps[j] == prev[j]);
                    }
                }
                assert forall|j: int| 0 <= j < ps.len() implies exists|key: String|
                    #[trigger] m@.contains_key(key) && key@ == (#[trigger] ps[j]).0@ by {
                    if j == i {
                        assert(m@.contains_key(ks) && ks@ == ps[j].0@);
                    } else {
                        assert(ps[j] == prev[j]);
                        let key = choose|key: String| #[trigger] before.contains_key(key) && key@ == (#[trigger] prev[j]).0@;
                        assert(m@.contains_key(key));
                    }
                }
            }
        }
        i = i + 1;
    }
    assert(pairs@.take(pairs.len() as int) =~= pairs@);
    m
}

impl VectorDatabaseClient {
    pub fn new() -> (r: Self) {
        VectorDatabaseClient {}
    }

    /// The first `limit` entries of the catalogue, in order, as found at
    /// `now` (Unix seconds); the query itself is not looked at.
    pub fn similarity_search_at(&self, limit: usize, now: i64) -> (r: Vec<SearchResult>)
        ensures
            r@.len() == if limit < 3 { limit as int } else { 3 },
            forall|i: int| 0 <= i < r@.len() ==> is_catalog_result(#[trigger] r@[i], search_catalog()[i], now),
    {
        let mut all: Vec<SearchResult> = Vec::new();
        let quran = catalog_source(
            "quran_002_255",
            SourceType::Quran,
            "اللَّهُ لَا إِلَٰهَ إِلَّا هُوَ الْحَيُّ الْقَيُّومُ ۚ لَا تَأْخُذُهُ سِنَةٌ وَلَا نَوْمٌ",
            "البقرة: 255",
            None,
            string_pairs(&vec![("surah_number", "2"), ("ayah_number", "255"), ("juz", "3")]),
            now,
        );
        all.push(SearchResult { source: quran, similarity_hundredths: 95, metadata: HashMap::new() });
        let hadith = catalog_source(
            "hadith_bukhari_001",
            SourceType::SahihHadith,
            "إنما الأعمال بالنيات وإنما لكل امرئ ما نوى",
            "صحيح البخاري، كتاب بدء الوحي، حديث رقم 1",
            Some("البخاري"),
            string_pairs(&vec![("book", "صحيح البخاري"), ("chapter", "بدء الوحي"), ("hadith_number", "1")]),
            now,
        );
        all.push(SearchResult { source: hadith, similarity_hundredths: 87, metadata: HashMap::new() });
        let tafsir = catalog_source(
            "tafsir_ibn_kathir_002_255",
            SourceType::Tafsir,
            "هذه آية الكرسي وهي أعظم آية في القرآن الكريم",
            "تفسير ابن كثير، سورة البقرة، آية 255",
            Some("ابن كثير"),
            string_pairs(&vec![("tafsir_book", "تفسير ابن كثير"), ("surah", "البقرة"), ("ayah", "255")]),
            now,
        );
        all.push(SearchResult { source: tafsir, similarity_hundredths: 82, metadata: HashMap::new() });
        let mut r: Vec<SearchResult> = Vec::new();
        let mut rest = all;
        let mut i: usize = 0;
        let ghost whole = rest@;
        assert(rest@ == whole.skip(0));
        while i < limit && rest.len() > 0
            invariant
                i <= 3,
                i <= limit,
                r@.len() == i,
                rest@ == whole.skip(i as int),
                whole.len() == 3,
                forall|k: int| 0 <= k < 3 ==> is_catalog_result(#[trigger] whole[k], search_catalog()[k], now),
                forall|k: int| 0 <= k < i ==> r@[k] == whole[k],
            decreases 3 - i,
        {
            let item = rest.remove(0);
            r.push(item);
            proof {
                assert(whole.skip(i + 1) =~= whole.skip(i as int).remove(0));
            }
            i = i + 1;
        }
        assert forall|k: int| 0 <= k < r@.len() implies is_catalog_result(#[trigger] r@[k], search_catalog()[k], now) by {
            assert(r@[k] == whole[k]);
        }
        r
    }

    /// The first `limit` entries of the catalogue, as found now.
    pub fn similarity_search(&self, limit: usize) -> (r: Vec<SearchResult>)
        ensures
            r@.len() == if limit < 3 { limit as int } else { 3 },
            forall|i: int| 0 <= i < r@.len() ==> #[trigger] r@[i].source.id@ == search_catalog()[i].0,
            exists|now: i64| #[trigger] catalog_results_at(r@, now),
    {
        let now = crate::clock::current_unix_seconds();
        let r = self.similarity_search_at(limit, now);
        assert(catalog_results_at(r@, now));
        r
    }
}

} // verus!
