//! Laws on the decisions of the service: which hadith may be shown and how
//! reliable its narrators and books are, how a retrieved source is scored and
//! used, what type, complexity and scope a question has, how much risk of
//! fabrication an answer carries, how severe an unsupported claim is and when
//! rulings or grades contradict one another, what kind an error is and how
//! the service recovers from it, and what a review asks of an answer. Each is
//! stated over the words and kinds of the inputs themselves.
use vstd::prelude::*;
use crate::text::{any_in_list, any_occurs, lowercase_of, occurs_at, seq_contains, seq_in_list, utf8_len};
use crate::types::{AIServiceError, AuthenticityLevel, ComplexityLevel, ConfidenceLevel, IslamicSource, QuestionType, SourceType};
use crate::hadith_verifier::{
    all_sahih, book_authenticity_spec, chain_connection_spec, fabrication_phrases, grade_count, max_agreement, may_display, narrator_reliability_spec,
    reasonings_of, severe_weakness_phrases, severely_weak_spec, usage_recommendation_spec, HadithGrade, ScholarOpinion,
    UsageRecommendation,
};
use crate::source_scorer::{
    author_authority, authenticity_hundredths, bonuses_spec, consensus_hundredths, reference_authority, source_authority, freshness_hundredths, penalties_spec, renowned_authors,
    type_authority, type_match_hundredths, usage_spec, SourceUsageRecommendation,
};
use crate::question_processor::{
    akhlaq_terms, aqeedah_terms, classify_spec, complexity_of, controversial_spec, controversy_topic_list, dua_terms,
    fiqh_terms, hadith_terms, keep_keywords, multiple_sources_spec, sirah_terms, tafsir_terms, unify_letter, without_article,
};
use crate::anti_hallucination::{
    author_matches, claim_severity_spec, fabrication_risk_spec, fabrication_risk_uncapped, has_hadith, has_type,
    known_name_spec, known_scholar_list, quick_islamic_list, quick_out_of_scope_list, quick_out_of_scope_spec,
    verse_supported, ClaimSeverity, FactType, ResponseRecommendation,
};
use crate::error_handler::{
    classify_spec as error_kind_spec, fallback_spec, recovery_spec, retry_policy_spec, CircuitBreaker as ErrorBreaker,
    CircuitBreakerState as ErrorBreakerState, ErrorHandler, ErrorType, FallbackStrategy, RecoveryAction, RetryPolicy,
};
use crate::review::{enhanced_recommendation_actions, recommendation_actions};
use crate::consistency::{grades_contradict, rulings_contradict};

verus! {

// ---------------------------------------------------------------------------
// Hadith: the recommended use and whether it is shown
// ---------------------------------------------------------------------------

/// Some scholar's reasoning calls the hadith very weak ("شديد الضعف"), its
/// narrator abandoned ("متروك") or a liar ("كذاب").
pub open spec fn named_severely_weak(opinions: Seq<ScholarOpinion>) -> bool {
    exists|i: int| 0 <= i < opinions.len() && (
        seq_contains(#[trigger] opinions[i].reasoning@, "شديد الضعف"@)
        || seq_contains(opinions[i].reasoning@, "متروك"@)
        || seq_contains(opinions[i].reasoning@, "كذاب"@))
}

proof fn lemma_severely_weak(opinions: Seq<ScholarOpinion>)
    ensures
        severely_weak_spec(reasonings_of(opinions)) == named_severely_weak(opinions),
{
    let rs = reasonings_of(opinions);
    let ps = severe_weakness_phrases();
    if severely_weak_spec(rs) {
        let i = choose|i: int| 0 <= i < rs.len() && any_occurs(rs[i], ps);
        let j = choose|j: int| 0 <= j < ps.len() && seq_contains(rs[i], ps[j]);
        assert(rs[i] == opinions[i].reasoning@);
        assert(j == 0 || j == 1 || j == 2);
    }
    if named_severely_weak(opinions) {
        let i = choose|i: int| 0 <= i < opinions.len() && (
            seq_contains(#[trigger] opinions[i].reasoning@, "شديد الضعف"@)
            || seq_contains(opinions[i].reasoning@, "متروك"@)
            || seq_contains(opinions[i].reasoning@, "كذاب"@));
        assert(rs[i] == opinions[i].reasoning@);
        if seq_contains(rs[i], "شديد الضعف"@) {
            assert(seq_contains(rs[i], ps[0]));
        } else if seq_contains(rs[i], "متروك"@) {
            assert(seq_contains(rs[i], ps[1]));
        } else {
            assert(seq_contains(rs[i], ps[2]));
        }
        assert(any_occurs(rs[i], ps));
    }
}

/// Law: the recommended use of a hadith follows its grade, whatever the
/// opinions: a hasan hadith is recommended; a sahih one is highly recommended
/// exactly when every opinion grades it sahih, and recommended otherwise; a
/// daif one is not recommended exactly when some scholar calls it very weak,
/// its narrator abandoned or a liar, and calls for caution otherwise; a mawdu
/// one is forbidden and one of unknown grade is not recommended. A hadith is
/// shown exactly when it is sahih or hasan, or daif without such a severe
/// weakness.
pub proof fn law_hadith_use_follows_its_grade(grade: HadithGrade, opinions: Seq<ScholarOpinion>)
    ensures
        grade == HadithGrade::Hasan ==> usage_recommendation_spec(grade, opinions) == UsageRecommendation::Recommended,
        grade == HadithGrade::Sahih ==> usage_recommendation_spec(grade, opinions) == if forall|i: int|
            0 <= i < opinions.len() ==> #[trigger] opinions[i].grade_given == HadithGrade::Sahih {
            UsageRecommendation::HighlyRecommended
        } else {
            UsageRecommendation::Recommended
        },
        grade == HadithGrade::Daif ==> usage_recommendation_spec(grade, opinions) == if named_severely_weak(opinions) {
            UsageRecommendation::NotRecommended
        } else {
            UsageRecommendation::Cautious
        },
        grade == HadithGrade::Mawdu ==> usage_recommendation_spec(grade, opinions) == UsageRecommendation::Forbidden,
        grade == HadithGrade::Unknown ==> usage_recommendation_spec(grade, opinions) == UsageRecommendation::NotRecommended,
        may_display(usage_recommendation_spec(grade, opinions)) <==> (grade == HadithGrade::Sahih || grade == HadithGrade::Hasan
            || (grade == HadithGrade::Daif && !named_severely_weak(opinions))),
{
    lemma_severely_weak(opinions);
    assert(all_sahih(opinions) == forall|i: int| 0 <= i < opinions.len() ==> #[trigger] opinions[i].grade_given == HadithGrade::Sahih);
}

// ---------------------------------------------------------------------------
// Retrieved sources: how each is used
// ---------------------------------------------------------------------------

/// Law: a fabricated hadith is never used, whatever its confidence and
/// relevance, and neither is a source of very low confidence; every other
/// source is used: as a primary source exactly when its confidence is very
/// high, or high with a relevance above 0.8; with caution exactly when it is a
/// weak hadith of medium confidence; as a reference exactly when its
/// confidence is low; as support otherwise.
pub proof fn law_source_use(t: SourceType, level: ConfidenceLevel, relevance_above_080: bool)
    ensures
        (usage_spec(t, level, relevance_above_080) == SourceUsageRecommendation::Excluded)
            <==> (t == SourceType::MawduHadith || level == ConfidenceLevel::VeryLow),
        t != SourceType::MawduHadith ==> ((usage_spec(t, level, relevance_above_080) == SourceUsageRecommendation::Primary)
            <==> (level == ConfidenceLevel::VeryHigh || (level == ConfidenceLevel::High && relevance_above_080))),
        t != SourceType::MawduHadith ==> ((usage_spec(t, level, relevance_above_080) == SourceUsageRecommendation::Cautionary)
            <==> (level == ConfidenceLevel::Medium && t == SourceType::DaifHadith)),
        t != SourceType::MawduHadith ==> ((usage_spec(t, level, relevance_above_080) == SourceUsageRecommendation::Reference)
            <==> level == ConfidenceLevel::Low),
        t != SourceType::MawduHadith ==> ((usage_spec(t, level, relevance_above_080) == SourceUsageRecommendation::Supporting)
            <==> ((level == ConfidenceLevel::High && !relevance_above_080)
                || (level == ConfidenceLevel::Medium && t != SourceType::DaifHadith))),
{
}

// ---------------------------------------------------------------------------
// Questions: their type
// ---------------------------------------------------------------------------

/// Some word of `xs` is one of the creed terms.
pub open spec fn has_creed_term(xs: Seq<Seq<char>>) -> bool {
    exists|i: int| 0 <= i < xs.len() && (#[trigger] xs[i] == "توحيد"@ || xs[i] == "شرك"@ || xs[i] == "إيمان"@ || xs[i] == "كفر"@)
}

/// Some word of `xs` is one of the terms of practice.
pub open spec fn has_practice_term(xs: Seq<Seq<char>>) -> bool {
    exists|i: int| 0 <= i < xs.len() && (#[trigger] xs[i] == "صلاة"@ || xs[i] == "زكاة"@ || xs[i] == "صوم"@ || xs[i] == "حج"@
        || xs[i] == "طهارة"@)
}

/// Some word of `xs` is one of the terms of exegesis.
pub open spec fn has_exegesis_term(xs: Seq<Seq<char>>) -> bool {
    exists|i: int| 0 <= i < xs.len() && (#[trigger] xs[i] == "تفسير"@ || xs[i] == "آية"@ || xs[i] == "سورة"@)
}

/// Some word of `xs` is one of the terms of hadith science.
pub open spec fn has_hadith_term(xs: Seq<Seq<char>>) -> bool {
    exists|i: int| 0 <= i < xs.len() && (#[trigger] xs[i] == "حديث"@ || xs[i] == "صحيح"@ || xs[i] == "ضعيف"@ || xs[i] == "سند"@)
}

/// Some word of `xs` is one of the terms of the Prophet's life.
pub open spec fn has_life_term(xs: Seq<Seq<char>>) -> bool {
    exists|i: int| 0 <= i < xs.len() && (#[trigger] xs[i] == "سيرة"@ || xs[i] == "غزوة"@ || xs[i] == "صحابة"@)
}

/// Some word of `xs` is one of the terms of manners.
pub open spec fn has_manners_term(xs: Seq<Seq<char>>) -> bool {
    exists|i: int| 0 <= i < xs.len() && (#[trigger] xs[i] == "أخلاق"@ || xs[i] == "آداب"@ || xs[i] == "سلوك"@)
}

/// Some word of `xs` is one of the terms of supplication.
pub open spec fn has_supplication_term(xs: Seq<Seq<char>>) -> bool {
    exists|i: int| 0 <= i < xs.len() && (#[trigger] xs[i] == "دعاء"@ || xs[i] == "ذكر"@ || xs[i] == "تسبيح"@)
}

proof fn lemma_in_list4(x: Seq<char>, list: Seq<Seq<char>>, a: Seq<char>, b: Seq<char>, c: Seq<char>, d: Seq<char>)
    requires
        list == seq![a, b, c, d],
    ensures
        seq_in_list(x, list) <==> (x == a || x == b || x == c || x == d),
{
    if x == a { assert(list[0] == x); }
    if x == b { assert(list[1] == x); }
    if x == c { assert(list[2] == x); }
    if x == d { assert(list[3] == x); }
}

proof fn lemma_in_list3(x: Seq<char>, list: Seq<Seq<char>>, a: Seq<char>, b: Seq<char>, c: Seq<char>)
    requires
        list == seq![a, b, c],
    ensures
        seq_in_list(x, list) <==> (x == a || x == b || x == c),
{
    if x == a { assert(list[0] == x); }
    if x == b { assert(list[1] == x); }
    if x == c { assert(list[2] == x); }
}

proof fn lemma_in_list5(x: Seq<char>, list: Seq<Seq<char>>, a: Seq<char>, b: Seq<char>, c: Seq<char>, d: Seq<char>, e: Seq<char>)
    requires
        list == seq![a, b, c, d, e],
    ensures
        seq_in_list(x, list) <==> (x == a || x == b || x == c || x == d || x == e),
{
    if x == a { assert(list[0] == x); }
    if x == b { assert(list[1] == x); }
    if x == c { assert(list[2] == x); }
    if x == d { assert(list[3] == x); }
    if x == e { assert(list[4] == x); }
}

proof fn lemma_term_lists(xs: Seq<Seq<char>>)
    ensures
        any_in_list(xs, aqeedah_terms()) == has_creed_term(xs),
        any_in_list(xs, fiqh_terms()) == has_practice_term(xs),
        any_in_list(xs, tafsir_terms()) == has_exegesis_term(xs),
        any_in_list(xs, hadith_terms()) == has_hadith_term(xs),
        any_in_list(xs, sirah_terms()) == has_life_term(xs),
        any_in_list(xs, akhlaq_terms()) == has_manners_term(xs),
        any_in_list(xs, dua_terms()) == has_supplication_term(xs),
{
    assert forall|i: int| 0 <= i < xs.len() implies
        (seq_in_list(#[trigger] xs[i], aqeedah_terms()) <==> (xs[i] == "توحيد"@ || xs[i] == "شرك"@ || xs[i] == "إيمان"@ || xs[i] == "كفر"@))
        && (seq_in_list(xs[i], fiqh_terms()) <==> (xs[i] == "صلاة"@ || xs[i] == "زكاة"@ || xs[i] == "صوم"@ || xs[i] == "حج"@ || xs[i] == "طهارة"@))
        && (seq_in_list(xs[i], tafsir_terms()) <==> (xs[i] == "تفسير"@ || xs[i] == "آية"@ || xs[i] == "سورة"@))
        && (seq_in_list(xs[i], hadith_terms()) <==> (xs[i] == "حديث"@ || xs[i] == "صحيح"@ || xs[i] == "ضعيف"@ || xs[i] == "سند"@))
        && (seq_in_list(xs[i], sirah_terms()) <==> (xs[i] == "سيرة"@ || xs[i] == "غزوة"@ || xs[i] == "صحابة"@))
        && (seq_in_list(xs[i], akhlaq_terms()) <==> (xs[i] == "أخلاق"@ || xs[i] == "آداب"@ || xs[i] == "سلوك"@))
        && (seq_in_list(xs[i], dua_terms()) <==> (xs[i] == "دعاء"@ || xs[i] == "ذكر"@ || xs[i] == "تسبيح"@)) by {
        lemma_in_list4(xs[i], aqeedah_terms(), "توحيد"@, "شرك"@, "إيمان"@, "كفر"@);
        lemma_in_list5(xs[i], fiqh_terms(), "صلاة"@, "زكاة"@, "صوم"@, "حج"@, "طهارة"@);
        lemma_in_list3(xs[i], tafsir_terms(), "تفسير"@, "آية"@, "سورة"@);
        lemma_in_list4(xs[i], hadith_terms(), "حديث"@, "صحيح"@, "ضعيف"@, "سند"@);
        lemma_in_list3(xs[i], sirah_terms(), "سيرة"@, "غزوة"@, "صحابة"@);
        lemma_in_list3(xs[i], akhlaq_terms(), "أخلاق"@, "آداب"@, "سلوك"@);
        lemma_in_list3(xs[i], dua_terms(), "دعاء"@, "ذكر"@, "تسبيح"@);
    }
}

/// Law: the type of a question follows its concepts, in this order of
/// precedence: a creed term (توحيد, شرك, إيمان, كفر) makes it a question of
/// creed; else a term of practice (صلاة, زكاة, صوم, حج, طهارة) one of
/// jurisprudence; else a term of exegesis (تفسير, آية, سورة) one of exegesis;
/// else a term of hadith science (حديث, صحيح, ضعيف, سند) one of hadith; else a
/// term of the Prophet's life (سيرة, غزوة, صحابة) one of his life; else a term
/// of manners (أخلاق, آداب, سلوك) one of manners; else a keyword of
/// supplication (دعاء, ذكر, تسبيح) one of supplication; else it is general.
pub proof fn law_question_type_follows_its_concepts(keywords: Seq<Seq<char>>, concepts: Seq<Seq<char>>)
    ensures
        has_creed_term(concepts) ==> classify_spec(keywords, concepts) == QuestionType::Aqeedah,
        !has_creed_term(concepts) && has_practice_term(concepts) ==> classify_spec(keywords, concepts) == QuestionType::Fiqh,
        !has_creed_term(concepts) && !has_practice_term(concepts) && has_exegesis_term(concepts)
            ==> classify_spec(keywords, concepts) == QuestionType::Tafsir,
        !has_creed_term(concepts) && !has_practice_term(concepts) && !has_exegesis_term(concepts) && has_hadith_term(concepts)
            ==> classify_spec(keywords, concepts) == QuestionType::Hadith,
        !has_creed_term(concepts) && !has_practice_term(concepts) && !has_exegesis_term(concepts) && !has_hadith_term(concepts)
            && has_life_term(concepts) ==> classify_spec(keywords, concepts) == QuestionType::Sirah,
        !has_creed_term(concepts) && !has_practice_term(concepts) && !has_exegesis_term(concepts) && !has_hadith_term(concepts)
            && !has_life_term(concepts) && has_manners_term(concepts) ==> classify_spec(keywords, concepts) == QuestionType::Akhlaq,
        !has_creed_term(concepts) && !has_practice_term(concepts) && !has_exegesis_term(concepts) && !has_hadith_term(concepts)
            && !has_life_term(concepts) && !has_manners_term(concepts) ==> classify_spec(keywords, concepts) == if has_supplication_term(keywords) {
            QuestionType::Dua
        } else {
            QuestionType::General
        },
{
    lemma_term_lists(concepts);
    lemma_term_lists(keywords);
}

// ---------------------------------------------------------------------------
// Answers: the risk that they were made up
// ---------------------------------------------------------------------------

/// The answer quotes a verse ("قال الله تعالى:" or "في القرآن:").
pub open spec fn quotes_verse(response: Seq<char>) -> bool {
    seq_contains(response, "قال الله تعالى:"@) || seq_contains(response, "في القرآن:"@)
}

/// The answer quotes a hadith ("قال الرسول" or "في الحديث").
pub open spec fn quotes_hadith(response: Seq<char>) -> bool {
    seq_contains(response, "قال الرسول"@) || seq_contains(response, "في الحديث"@)
}

/// The answer gives a statistic ("%" or "إحصائية").
pub open spec fn gives_statistic(response: Seq<char>) -> bool {
    seq_contains(response, "%"@) || seq_contains(response, "إحصائية"@)
}

/// Some source is a sahih, hasan or daif hadith.
pub open spec fn some_hadith_source(sources: Seq<IslamicSource>) -> bool {
    exists|k: int| 0 <= k < sources.len() && (#[trigger] sources[k].content_type == SourceType::SahihHadith
        || sources[k].content_type == SourceType::HasanHadith || sources[k].content_type == SourceType::DaifHadith)
}

/// Some source is the Quran.
pub open spec fn some_quran_source(sources: Seq<IslamicSource>) -> bool {
    exists|k: int| 0 <= k < sources.len() && #[trigger] sources[k].content_type == SourceType::Quran
}

proof fn lemma_source_kinds(sources: Seq<IslamicSource>)
    ensures
        has_hadith(sources) == some_hadith_source(sources),
        has_type(sources, SourceType::Quran) == some_quran_source(sources),
{
    if some_hadith_source(sources) {
        let k = choose|k: int| 0 <= k < sources.len() && (#[trigger] sources[k].content_type == SourceType::SahihHadith
            || sources[k].content_type == SourceType::HasanHadith || sources[k].content_type == SourceType::DaifHadith);
        if sources[k].content_type == SourceType::SahihHadith {
            assert(has_type(sources, SourceType::SahihHadith));
        } else if sources[k].content_type == SourceType::HasanHadith {
            assert(has_type(sources, SourceType::HasanHadith));
        } else {
            assert(has_type(sources, SourceType::DaifHadith));
        }
    }
}

/// Law: the risk that an answer was made up, in tenths. A quoted hadith adds
/// nothing when some source is a sahih, hasan or daif hadith, and seven tenths
/// otherwise; a statistic adds four tenths; a quoted verse adds nothing when
/// some Quran source and the answer contain one another (ignoring case), nine
/// tenths when there are Quran sources and none does, and the whole (capped at
/// one) when there is no Quran source. So: an answer with no such marker, or
/// only a hadith backed by a hadith source, carries no risk; a lone unbacked
/// hadith carries 0.7, a lone statistic 0.4. The risk never exceeds one.
pub proof fn law_fabrication_risk(response: Seq<char>, sources: Seq<IslamicSource>)
    ensures
        fabrication_risk_spec(response, sources) <= 10,
        !quotes_verse(response) && !gives_statistic(response) && (!quotes_hadith(response) || some_hadith_source(sources))
            ==> fabrication_risk_spec(response, sources) == 0,
        !quotes_verse(response) && !gives_statistic(response) && quotes_hadith(response) && !some_hadith_source(sources)
            ==> fabrication_risk_spec(response, sources) == 7,
        !quotes_verse(response) && gives_statistic(response) && (!quotes_hadith(response) || some_hadith_source(sources))
            ==> fabrication_risk_spec(response, sources) == 4,
        !quotes_verse(response) && gives_statistic(response) && quotes_hadith(response) && !some_hadith_source(sources)
            ==> fabrication_risk_spec(response, sources) == 10,
        quotes_verse(response) && !some_quran_source(sources) ==> fabrication_risk_spec(response, sources) == 10,
        quotes_verse(response) && verse_supported(response, sources) && !gives_statistic(response)
            && (!quotes_hadith(response) || some_hadith_source(sources)) ==> fabrication_risk_spec(response, sources) == 0,
        quotes_verse(response) && some_quran_source(sources) && !verse_supported(response, sources) && !gives_statistic(response)
            && (!quotes_hadith(response) || some_hadith_source(sources)) ==> fabrication_risk_spec(response, sources) == 9,
{
    lemma_source_kinds(sources);
    if verse_supported(response, sources) {
        let k = choose|k: int| 0 <= k < sources.len() && sources[k].content_type == SourceType::Quran && (
            seq_contains(crate::text::lowercase_of(response), crate::text::lowercase_of(sources[k].text@))
            || seq_contains(crate::text::lowercase_of(sources[k].text@), crate::text::lowercase_of(response)));
        assert(sources[k].content_type == SourceType::Quran);
    }
}

/// Law: adding a source never raises the risk that an answer was made up.
pub proof fn law_more_sources_never_raise_risk(response: Seq<char>, sources: Seq<IslamicSource>, s: IslamicSource)
    ensures
        fabrication_risk_spec(response, sources.push(s)) <= fabrication_risk_spec(response, sources),
{
    let more = sources.push(s);
    assert forall|t: SourceType| has_type(sources, t) implies has_type(more, t) by {
        let i = choose|i: int| 0 <= i < sources.len() && sources[i].content_type == t;
        assert(more[i] == sources[i]);
    }
    if verse_supported(response, sources) {
        let k = choose|k: int| 0 <= k < sources.len() && sources[k].content_type == SourceType::Quran && (
            seq_contains(crate::text::lowercase_of(response), crate::text::lowercase_of(sources[k].text@))
            || seq_contains(crate::text::lowercase_of(sources[k].text@), crate::text::lowercase_of(response)));
        assert(more[k] == sources[k]);
        assert(verse_supported(response, more));
    }
    assert(has_type(sources, SourceType::SahihHadith) ==> has_type(more, SourceType::SahihHadith));
    assert(has_type(sources, SourceType::HasanHadith) ==> has_type(more, SourceType::HasanHadith));
    assert(has_type(sources, SourceType::DaifHadith) ==> has_type(more, SourceType::DaifHadith));
    assert(has_type(sources, SourceType::Quran) ==> has_type(more, SourceType::Quran));
    assert(fabrication_risk_uncapped(response, more) <= fabrication_risk_uncapped(response, sources));
}

// ---------------------------------------------------------------------------
// Errors: their kind
// ---------------------------------------------------------------------------

/// Law: an error of an outside service is classified by its message, in this
/// order: "rate limit" or "429" make it a rate limit; else "timeout" a time
/// out; else "authentication", "401" or "403" an authentication failure; else
/// "503" or "service unavailable" an unavailable service; else "model" with
/// "loading" a model still loading; else a network error. The other errors
/// are classified by their variant alone.
pub proof fn law_error_kind(e: AIServiceError)
    ensures
        e matches AIServiceError::ExternalAPIError(msg) ==> ({
            let m = msg@;
            let rate = seq_contains(m, "rate limit"@) || seq_contains(m, "429"@);
            let timeout = seq_contains(m, "timeout"@);
            let auth = seq_contains(m, "authentication"@) || seq_contains(m, "401"@) || seq_contains(m, "403"@);
            let unavailable = seq_contains(m, "503"@) || seq_contains(m, "service unavailable"@);
            let loading = seq_contains(m, "model"@) && seq_contains(m, "loading"@);
            &&& rate ==> error_kind_spec(e) == ErrorType::RateLimitError
            &&& !rate && timeout ==> error_kind_spec(e) == ErrorType::TimeoutError
            &&& !rate && !timeout && auth ==> error_kind_spec(e) == ErrorType::AuthenticationError
            &&& !rate && !timeout && !auth && unavailable ==> error_kind_spec(e) == ErrorType::ServiceUnavailableError
            &&& !rate && !timeout && !auth && !unavailable && loading ==> error_kind_spec(e) == ErrorType::ModelLoadingError
            &&& !rate && !timeout && !auth && !unavailable && !loading ==> error_kind_spec(e) == ErrorType::NetworkError
        }),
        e is DatabaseError ==> error_kind_spec(e) == ErrorType::VectorDatabaseError,
        e is CacheError ==> error_kind_spec(e) == ErrorType::CacheError,
        e is ConfigurationError ==> error_kind_spec(e) == ErrorType::ConfigurationError,
        e is QuestionProcessingError ==> error_kind_spec(e) == ErrorType::ValidationError,
        e is RateLimitExceeded ==> error_kind_spec(e) == ErrorType::RateLimitError,
        e is ServiceUnavailable ==> error_kind_spec(e) == ErrorType::ServiceUnavailableError,
        (e is SemanticSearchError || e is SourceVerificationError || e is ResponseGenerationError
            || e is HallucinationDetected || e is OutOfScopeQuestion) ==> error_kind_spec(e) == ErrorType::UnknownError,
{
}

// ---------------------------------------------------------------------------
// Hadith: narrators, chains, books and agreement
// ---------------------------------------------------------------------------

/// Law: Abu Hurayra and Aisha are fully reliable narrators and every other
/// narrator 0.8; a chain of fewer than two narrators is half connected and a
/// longer one 0.9; the two Sahih collections are fully authentic, the Sunan of
/// Abu Dawud, at-Tirmidhi and an-Nasa'i 0.9, Ibn Majah and the Musnad of Ahmad
/// 0.8, and every other book 0.5, so no book rates above the two Sahih.
pub proof fn law_hadith_reliability_tables(narrator: Seq<char>, chain_len: nat, book: Seq<char>)
    ensures
        (narrator_reliability_spec(narrator) == 100) <==> (narrator == "أبو هريرة"@ || narrator == "عائشة"@),
        narrator_reliability_spec(narrator) == 100 || narrator_reliability_spec(narrator) == 80,
        chain_connection_spec(chain_len) == if chain_len < 2 { 50u32 } else { 90u32 },
        (book_authenticity_spec(book) == 100) <==> (book == "صحيح البخاري"@ || book == "صحيح مسلم"@),
        (book_authenticity_spec(book) == 90) <==> (book == "سنن أبي داود"@ || book == "جامع الترمذي"@ || book == "سنن النسائي"@),
        (book_authenticity_spec(book) == 80) <==> (book == "سنن ابن ماجه"@ || book == "مسند أحمد"@),
        (book_authenticity_spec(book) == 50) <==> !(book == "صحيح البخاري"@ || book == "صحيح مسلم"@ || book == "سنن أبي داود"@
            || book == "جامع الترمذي"@ || book == "سنن النسائي"@ || book == "سنن ابن ماجه"@ || book == "مسند أحمد"@),
{
    reveal_strlit("صحيح البخاري");
    reveal_strlit("صحيح مسلم");
    reveal_strlit("سنن أبي داود");
    reveal_strlit("جامع الترمذي");
    reveal_strlit("سنن النسائي");
    reveal_strlit("سنن ابن ماجه");
    reveal_strlit("مسند أحمد");
    assert("صحيح البخاري"@ != "سنن أبي داود"@) by {
        assert("صحيح البخاري"@[0] != "سنن أبي داود"@[0]);
    }
    assert("صحيح البخاري"@ != "جامع الترمذي"@) by {
        assert("صحيح البخاري"@[0] != "جامع الترمذي"@[0]);
    }
    assert("صحيح البخاري"@ != "سنن النسائي"@) by {
        assert("صحيح البخاري"@[0] != "سنن النسائي"@[0]);
    }
    assert("صحيح مسلم"@ != "سنن أبي داود"@) by {
        assert("صحيح مسلم"@[0] != "سنن أبي داود"@[0]);
    }
    assert("صحيح مسلم"@ != "جامع الترمذي"@) by {
        assert("صحيح مسلم"@[0] != "جامع الترمذي"@[0]);
    }
    assert("صحيح مسلم"@ != "سنن النسائي"@) by {
        assert("صحيح مسلم"@[0] != "سنن النسائي"@[0]);
    }
    assert("صحيح البخاري"@ != "سنن ابن ماجه"@) by {
        assert("صحيح البخاري"@[0] != "سنن ابن ماجه"@[0]);
    }
    assert("صحيح البخاري"@ != "مسند أحمد"@) by {
        assert("صحيح البخاري"@[0] != "مسند أحمد"@[0]);
    }
    assert("صحيح مسلم"@ != "سنن ابن ماجه"@) by {
        assert("صحيح مسلم"@[0] != "سنن ابن ماجه"@[0]);
    }
    assert("صحيح مسلم"@ != "مسند أحمد"@) by {
        assert("صحيح مسلم"@[0] != "مسند أحمد"@[0]);
    }
    assert("سنن أبي داود"@ != "سنن ابن ماجه"@) by {
        assert("سنن أبي داود"@[4] != "سنن ابن ماجه"@[4]);
    }
    assert("سنن أبي داود"@ != "مسند أحمد"@) by {
        assert("سنن أبي داود"@[0] != "مسند أحمد"@[0]);
    }
    assert("جامع الترمذي"@ != "سنن ابن ماجه"@) by {
        assert("جامع الترمذي"@[0] != "سنن ابن ماجه"@[0]);
    }
    assert("جامع الترمذي"@ != "مسند أحمد"@) by {
        assert("جامع الترمذي"@[0] != "مسند أحمد"@[0]);
    }
    assert("سنن النسائي"@ != "سنن ابن ماجه"@) by {
        assert("سنن النسائي"@[5] != "سنن ابن ماجه"@[5]);
    }
    assert("سنن النسائي"@ != "مسند أحمد"@) by {
        assert("سنن النسائي"@[0] != "مسند أحمد"@[0]);
    }
}

/// Law: the agreement among opinions is the number of opinions that give the
/// most common grade: no grade is given by more, and some grade (or none, when
/// there are no opinions) by exactly that many.
pub proof fn law_agreement_is_the_largest_group(opinions: Seq<ScholarOpinion>, g: HadithGrade)
    ensures
        grade_count(opinions, g) <= max_agreement(opinions),
        exists|h: HadithGrade| #[trigger] grade_count(opinions, h) == max_agreement(opinions),
{
    let m = max_agreement(opinions);
    assert(grade_count(opinions, HadithGrade::Sahih) == m || grade_count(opinions, HadithGrade::Hasan) == m
        || grade_count(opinions, HadithGrade::Daif) == m || grade_count(opinions, HadithGrade::Mawdu) == m
        || grade_count(opinions, HadithGrade::Unknown) == m);
}

// ---------------------------------------------------------------------------
// Sources: authenticity, authority, match, consensus and freshness
// ---------------------------------------------------------------------------

/// The rank of an authenticity level, from unreliable (0) to verified (4).
pub open spec fn level_rank(a: AuthenticityLevel) -> int {
    match a {
        AuthenticityLevel::Unreliable => 0,
        AuthenticityLevel::Unknown => 1,
        AuthenticityLevel::Questionable => 2,
        AuthenticityLevel::Reliable => 3,
        AuthenticityLevel::Verified => 4,
    }
}

/// Law: a verse of the Quran is fully authentic and a fabricated hadith 0.1,
/// whatever its stated level, and nothing rates below a fabricated hadith; a
/// sahih hadith is at least 0.9, a hasan one at least 0.8, a daif one at most
/// 0.6; a source of any other type rates by its level alone: verified 1.0,
/// reliable 0.8, questionable 0.5, unknown 0.4, unreliable 0.2. A higher level
/// never lowers the score of a type.
pub proof fn law_authenticity_of_sources(t: SourceType, a: AuthenticityLevel, b: AuthenticityLevel)
    ensures
        t == SourceType::Quran ==> authenticity_hundredths(t, a) == 100,
        t == SourceType::MawduHadith ==> authenticity_hundredths(t, a) == 10,
        authenticity_hundredths(t, a) >= 10,
        authenticity_hundredths(t, a) <= 100,
        t == SourceType::SahihHadith ==> authenticity_hundredths(t, a) >= 90,
        t == SourceType::HasanHadith ==> authenticity_hundredths(t, a) >= 80,
        t == SourceType::DaifHadith ==> authenticity_hundredths(t, a) <= 60,
        (t == SourceType::Tafsir || t == SourceType::FiqhRuling || t == SourceType::ScholarOpinion || t == SourceType::IslamicStory)
            ==> authenticity_hundredths(t, a) == match a {
            AuthenticityLevel::Verified => 100u32,
            AuthenticityLevel::Reliable => 80u32,
            AuthenticityLevel::Questionable => 50u32,
            AuthenticityLevel::Unknown => 40u32,
            AuthenticityLevel::Unreliable => 20u32,
        },
        level_rank(a) <= level_rank(b) ==> authenticity_hundredths(t, a) <= authenticity_hundredths(t, b),
{
}

/// Law: the authority of the types of source falls strictly in this order:
/// the Quran, sahih hadith, hasan hadith, tafsir, rulings, scholars' opinions,
/// stories, daif hadith, fabricated hadith.
pub proof fn law_authority_order_of_types()
    ensures
        type_authority(SourceType::Quran) > type_authority(SourceType::SahihHadith),
        type_authority(SourceType::SahihHadith) > type_authority(SourceType::HasanHadith),
        type_authority(SourceType::HasanHadith) > type_authority(SourceType::Tafsir),
        type_authority(SourceType::Tafsir) > type_authority(SourceType::FiqhRuling),
        type_authority(SourceType::FiqhRuling) > type_authority(SourceType::ScholarOpinion),
        type_authority(SourceType::ScholarOpinion) > type_authority(SourceType::IslamicStory),
        type_authority(SourceType::IslamicStory) > type_authority(SourceType::DaifHadith),
        type_authority(SourceType::DaifHadith) > type_authority(SourceType::MawduHadith),
        type_authority(SourceType::Quran) == 100,
        type_authority(SourceType::MawduHadith) == 10,
{
}

/// Law: how well a source's type suits a question: the Quran suits a question
/// of exegesis fully, one of creed 0.9 and any other at least 0.8; tafsir
/// suits exegesis 0.9; sahih, hasan and daif hadith suit a question of hadith
/// 1.0, 0.9 and 0.7; rulings suit jurisprudence fully and sahih hadith 0.8;
/// sahih hadith suit creed 0.8; every other pairing 0.5. No pairing rates below
/// 0.5 or above 1.
pub proof fn law_type_match(t: SourceType, q: QuestionType)
    ensures
        50 <= type_match_hundredths(t, q) <= 100,
        t == SourceType::Quran ==> type_match_hundredths(t, q) == match q {
            QuestionType::Tafsir => 100u32,
            QuestionType::Aqeedah => 90u32,
            _ => 80u32,
        },
        (q == QuestionType::Tafsir && t == SourceType::Tafsir) ==> type_match_hundredths(t, q) == 90,
        q == QuestionType::Hadith ==> type_match_hundredths(t, q) == match t {
            SourceType::SahihHadith => 100u32,
            SourceType::HasanHadith => 90u32,
            SourceType::DaifHadith => 70u32,
            SourceType::Quran => 80u32,
            _ => 50u32,
        },
        (q == QuestionType::Fiqh && t == SourceType::FiqhRuling) ==> type_match_hundredths(t, q) == 100,
        ((q == QuestionType::Fiqh || q == QuestionType::Aqeedah) && t == SourceType::SahihHadith) ==> type_match_hundredths(t, q) == 80,
        (t != SourceType::Quran && !(q == QuestionType::Tafsir && t == SourceType::Tafsir) && q != QuestionType::Hadith
            && !(q == QuestionType::Fiqh && t == SourceType::FiqhRuling)
            && !((q == QuestionType::Fiqh || q == QuestionType::Aqeedah) && t == SourceType::SahihHadith))
            ==> type_match_hundredths(t, q) == 50,
{
}

/// Law: a verse of the Quran has full consensus and a sahih hadith at least
/// 0.9; any other source 0.8, or 0.6 on a disputed question. The Quran and
/// sahih and hasan hadith are timeless (freshness 1.0), other sources 0.8.
pub proof fn law_consensus_and_freshness(t: SourceType, controversial: bool)
    ensures
        t == SourceType::Quran ==> consensus_hundredths(t, controversial) == 100,
        t == SourceType::SahihHadith ==> consensus_hundredths(t, controversial) == 90,
        (t != SourceType::Quran && t != SourceType::SahihHadith) ==> consensus_hundredths(t, controversial) == if controversial {
            60u32
        } else {
            80u32
        },
        (freshness_hundredths(t) == 100) <==> (t == SourceType::Quran || t == SourceType::SahihHadith || t == SourceType::HasanHadith),
        freshness_hundredths(t) == 100 || freshness_hundredths(t) == 80,
{
}

/// Law: a source is penalised exactly when it is a daif hadith or its level is
/// questionable or unreliable, and credited exactly when it is a verse of the
/// Quran, a sahih hadith or the work of a renowned author (al-Bukhari, Muslim,
/// Ibn Kathir, at-Tabari, al-Qurtubi).
pub proof fn law_penalties_and_bonuses(t: SourceType, a: AuthenticityLevel, author: Option<Seq<char>>)
    ensures
        (penalties_spec(t, a).len() > 0) <==> (t == SourceType::DaifHadith || a == AuthenticityLevel::Questionable
            || a == AuthenticityLevel::Unreliable),
        (bonuses_spec(t, author).len() > 0) <==> (t == SourceType::Quran || t == SourceType::SahihHadith || (author matches Some(n)
            && (n == "البخاري"@ || n == "مسلم"@ || n == "ابن كثير"@ || n == "الطبري"@ || n == "القرطبي"@))),
{
    match author {
        Some(n) => {
            let list = renowned_authors();
            if n == "البخاري"@ { assert(list[0] == n); }
            if n == "مسلم"@ { assert(list[1] == n); }
            if n == "ابن كثير"@ { assert(list[2] == n); }
            if n == "الطبري"@ { assert(list[3] == n); }
            if n == "القرطبي"@ { assert(list[4] == n); }
            if list.contains(n) {
                let k = choose|k: int| 0 <= k < list.len() && list[k] == n;
                assert(k == 0 || k == 1 || k == 2 || k == 3 || k == 4);
            }
        },
        None => {},
    }
}

// ---------------------------------------------------------------------------
// Errors: retries, fall-backs and recovery
// ---------------------------------------------------------------------------

/// Law: only errors that time may cure are retried: network errors three times
/// from one second up to thirty, with doubling and jitter; rate limits five
/// times from a minute up to five, by half again each time, with jitter; a
/// model still loading three times from ten seconds up to two minutes, with
/// doubling; the vector database three times from half a second up to ten,
/// with doubling and jitter; a time out twice from one second up to five, with
/// doubling. Authentication, configuration, validation, cache, unavailable and
/// unknown errors are never retried.
pub proof fn law_retry_policies(t: ErrorType)
    ensures
        (retry_policy_spec(t) is Some) <==> (t == ErrorType::NetworkError || t == ErrorType::RateLimitError
            || t == ErrorType::ModelLoadingError || t == ErrorType::VectorDatabaseError || t == ErrorType::TimeoutError),
        t == ErrorType::NetworkError ==> retry_policy_spec(t) == Some(RetryPolicy { max_attempts: 3, base_delay_ms: 1000, max_delay_ms: 30000, backoff_multiplier_halves: 4, jitter: true }),
        t == ErrorType::RateLimitError ==> retry_policy_spec(t) == Some(RetryPolicy { max_attempts: 5, base_delay_ms: 60000, max_delay_ms: 300000, backoff_multiplier_halves: 3, jitter: true }),
        t == ErrorType::ModelLoadingError ==> retry_policy_spec(t) == Some(RetryPolicy { max_attempts: 3, base_delay_ms: 10000, max_delay_ms: 120000, backoff_multiplier_halves: 4, jitter: false }),
        t == ErrorType::VectorDatabaseError ==> retry_policy_spec(t) == Some(RetryPolicy { max_attempts: 3, base_delay_ms: 500, max_delay_ms: 10000, backoff_multiplier_halves: 4, jitter: true }),
        t == ErrorType::TimeoutError ==> retry_policy_spec(t) == Some(RetryPolicy { max_attempts: 2, base_delay_ms: 1000, max_delay_ms: 5000, backoff_multiplier_halves: 4, jitter: false }),
        retry_policy_spec(t) matches Some(p) ==> 1 <= p.base_delay_ms <= p.max_delay_ms && p.max_attempts >= 2,
{
}

/// Law: the fall-backs: a model still loading is retried with another model,
/// a network error is answered from the cache, an unavailable service with an
/// offline answer, a rate limit by a degraded service, and an authentication
/// failure fails gracefully; no other error has a fall-back.
pub proof fn law_fallback_strategies(t: ErrorType)
    ensures
        fallback_spec(t) == match t {
            ErrorType::ModelLoadingError => Some(FallbackStrategy::RetryWithDifferentModel),
            ErrorType::NetworkError => Some(FallbackStrategy::UseCache),
            ErrorType::ServiceUnavailableError => Some(FallbackStrategy::UseOfflineResponse),
            ErrorType::RateLimitError => Some(FallbackStrategy::DegradeService),
            ErrorType::AuthenticationError => Some(FallbackStrategy::FailGracefully),
            _ => None::<FallbackStrategy>,
        },
{
}

/// Law: recovery retries an error, counting one more attempt, exactly while
/// its kind is retried and the attempts made are fewer than its policy
/// allows; once they are used up, it falls back where fall-back is enabled and
/// the kind has one, and fails otherwise. A time out is retried at attempts 0
/// and 1 and no more; an authentication failure is never retried.
pub proof fn law_recovery(t: ErrorType, attempt: u32, delay_ms: u64, enable_fallback: bool)
    ensures
        (recovery_spec(t, attempt, delay_ms, enable_fallback) is Retry) <==> (retry_policy_spec(t) matches Some(p)
            && attempt < p.max_attempts),
        recovery_spec(t, attempt, delay_ms, enable_fallback) matches RecoveryAction::Retry { delay_ms: d, attempt: a }
            ==> d == delay_ms && a == attempt + 1,
        !(recovery_spec(t, attempt, delay_ms, enable_fallback) is Retry) ==> ((recovery_spec(t, attempt, delay_ms, enable_fallback)
            is Fallback) <==> (enable_fallback && fallback_spec(t) is Some)),
        recovery_spec(t, attempt, delay_ms, enable_fallback) matches RecoveryAction::Fallback { strategy }
            ==> fallback_spec(t) == Some(strategy),
        t == ErrorType::TimeoutError ==> ((recovery_spec(t, attempt, delay_ms, enable_fallback) is Retry) <==> attempt < 2),
        t == ErrorType::AuthenticationError ==> !(recovery_spec(t, attempt, delay_ms, enable_fallback) is Retry),
        !(recovery_spec(t, attempt, delay_ms, enable_fallback) is CircuitBreak),
{
    law_retry_policies(t);
}

// ---------------------------------------------------------------------------
// Claims, scope and known names
// ---------------------------------------------------------------------------

/// Law: an unsupported reference to the Quran or to a hadith is critical, a
/// ruling or a scholar's quote major, a historical fact minor; a general claim
/// is major when it speaks of what is forbidden, obligatory or required
/// (حرام, واجب, فرض), minor when only of what is recommended or disliked
/// (مستحب, مكروه), and stylistic otherwise.
pub proof fn law_claim_severity(claim: Seq<char>, fact_type: FactType)
    ensures
        (fact_type == FactType::QuranReference || fact_type == FactType::HadithReference)
            ==> claim_severity_spec(claim, fact_type) == ClaimSeverity::Critical,
        (fact_type == FactType::ReligiousRuling || fact_type == FactType::ScholarQuote)
            ==> claim_severity_spec(claim, fact_type) == ClaimSeverity::Major,
        fact_type == FactType::HistoricalFact ==> claim_severity_spec(claim, fact_type) == ClaimSeverity::Minor,
        fact_type == FactType::GeneralClaim ==> claim_severity_spec(claim, fact_type) == ({
            let low = lowercase_of(claim);
            if seq_contains(low, "حرام"@) || seq_contains(low, "واجب"@) || seq_contains(low, "فرض"@) {
                ClaimSeverity::Major
            } else if seq_contains(low, "مستحب"@) || seq_contains(low, "مكروه"@) {
                ClaimSeverity::Minor
            } else {
                ClaimSeverity::Stylistic
            }
        }),
        (claim_severity_spec(claim, fact_type) == ClaimSeverity::Critical) <==> (fact_type == FactType::QuranReference
            || fact_type == FactType::HadithReference),
{
}

/// Law: the quick scope check: a question whose lower-cased text holds a word
/// of Islamic context (إسلام, مسلم, قرآن, حديث, صلاة, زكاة, صوم, حج, حلال, حرام,
/// فقه, شريعة, عقيدة, سنة) is never out of scope; one with none of them is out
/// of scope exactly when it holds a word of another topic (برمجة, كمبيوتر,
/// تطبيق, مطعم, طعام, رياضة, سياسة, اقتصاد, فيلم, موسيقى).
pub proof fn law_quick_scope(question: Seq<char>, w: Seq<char>)
    ensures
        (w == "إسلام"@ || w == "مسلم"@ || w == "قرآن"@ || w == "حديث"@ || w == "صلاة"@ || w == "زكاة"@ || w == "صوم"@
            || w == "حج"@ || w == "حلال"@ || w == "حرام"@ || w == "فقه"@ || w == "شريعة"@ || w == "عقيدة"@ || w == "سنة"@)
            && seq_contains(lowercase_of(question), w) ==> !quick_out_of_scope_spec(question),
        (w == "برمجة"@ || w == "كمبيوتر"@ || w == "تطبيق"@ || w == "مطعم"@ || w == "طعام"@ || w == "رياضة"@ || w == "سياسة"@
            || w == "اقتصاد"@ || w == "فيلم"@ || w == "موسيقى"@) && seq_contains(lowercase_of(question), w)
            && !any_occurs(lowercase_of(question), quick_islamic_list()) ==> quick_out_of_scope_spec(question),
        quick_out_of_scope_spec(question) ==> !any_occurs(lowercase_of(question), quick_islamic_list()),
{
    let isl = quick_islamic_list();
    let out = quick_out_of_scope_list();
    if w == "إسلام"@ { assert(isl[0] == w); }
    if w == "مسلم"@ { assert(isl[1] == w); }
    if w == "قرآن"@ { assert(isl[2] == w); }
    if w == "حديث"@ { assert(isl[3] == w); }
    if w == "صلاة"@ { assert(isl[4] == w); }
    if w == "زكاة"@ { assert(isl[5] == w); }
    if w == "صوم"@ { assert(isl[6] == w); }
    if w == "حج"@ { assert(isl[7] == w); }
    if w == "حلال"@ { assert(isl[8] == w); }
    if w == "حرام"@ { assert(isl[9] == w); }
    if w == "فقه"@ { assert(isl[10] == w); }
    if w == "شريعة"@ { assert(isl[11] == w); }
    if w == "عقيدة"@ { assert(isl[12] == w); }
    if w == "سنة"@ { assert(isl[13] == w); }
    if w == "برمجة"@ { assert(out[0] == w); }
    if w == "كمبيوتر"@ { assert(out[1] == w); }
    if w == "تطبيق"@ { assert(out[2] == w); }
    if w == "مطعم"@ { assert(out[3] == w); }
    if w == "طعام"@ { assert(out[4] == w); }
    if w == "رياضة"@ { assert(out[5] == w); }
    if w == "سياسة"@ { assert(out[6] == w); }
    if w == "اقتصاد"@ { assert(out[7] == w); }
    if w == "فيلم"@ { assert(out[8] == w); }
    if w == "موسيقى"@ { assert(out[9] == w); }
}

/// Law: a name is known when it names one of the known scholars, or when it is
/// the name of the author of one of the sources.
pub proof fn law_known_names(name: Seq<char>, authors: Seq<Option<Seq<char>>>, i: int, k: int)
    ensures
        0 <= k < known_scholar_list().len() && seq_contains(lowercase_of(name), lowercase_of(known_scholar_list()[k]))
            ==> known_name_spec(name, authors),
        0 <= i < authors.len() && authors[i] == Some(name) ==> known_name_spec(name, authors),
{
    if 0 <= i < authors.len() && authors[i] == Some(name) {
        let low = lowercase_of(name);
        assert(occurs_at(low, low, 0)) by {
            assert(low.subrange(0, low.len() as int) =~= low);
        }
        assert(author_matches(authors[i], low));
    }
}

// ---------------------------------------------------------------------------
// Questions: complexity, disputes and the need for several sources
// ---------------------------------------------------------------------------

/// Law: a complexity score of up to two is simple, three to five
/// intermediate, six to eight advanced and above eight scholarly; a higher
/// score never gives a lower level.
pub proof fn law_complexity_levels(s: nat, u: nat)
    ensures
        (complexity_of(s) == ComplexityLevel::Simple) <==> s <= 2,
        (complexity_of(s) == ComplexityLevel::Intermediate) <==> (3 <= s <= 5),
        (complexity_of(s) == ComplexityLevel::Advanced) <==> (6 <= s <= 8),
        (complexity_of(s) == ComplexityLevel::Scholarly) <==> s >= 9,
        s <= u && complexity_of(s) == ComplexityLevel::Scholarly ==> complexity_of(u) == ComplexityLevel::Scholarly,
        s <= u && complexity_of(u) == ComplexityLevel::Simple ==> complexity_of(s) == ComplexityLevel::Simple,
{
}

/// Law: questions of jurisprudence and creed always call for several
/// sources; others exactly when they touch more than three concepts.
pub proof fn law_several_sources(question_type: QuestionType, n_concepts: nat)
    ensures
        (question_type == QuestionType::Fiqh || question_type == QuestionType::Aqeedah) ==> multiple_sources_spec(question_type, n_concepts),
        !(question_type == QuestionType::Fiqh || question_type == QuestionType::Aqeedah)
            ==> (multiple_sources_spec(question_type, n_concepts) <==> n_concepts > 3),
{
}

/// Law: a question is disputed exactly when one of the dispute words (خلاف,
/// اختلاف, مذهب, رأي, قول, وجه, احتمال) occurs in its text or in one of its
/// concepts.
pub proof fn law_disputed_questions(text: Seq<char>, concepts: Seq<Seq<char>>, w: Seq<char>, j: int)
    ensures
        (w == "خلاف"@ || w == "اختلاف"@ || w == "مذهب"@ || w == "رأي"@ || w == "قول"@ || w == "وجه"@ || w == "احتمال"@)
            && (seq_contains(text, w) || (0 <= j < concepts.len() && seq_contains(concepts[j], w)))
            ==> controversial_spec(text, concepts),
{
    let l = controversy_topic_list();
    if w == "خلاف"@ { assert(l[0] == w); }
    if w == "اختلاف"@ { assert(l[1] == w); }
    if w == "مذهب"@ { assert(l[2] == w); }
    if w == "رأي"@ { assert(l[3] == w); }
    if w == "قول"@ { assert(l[4] == w); }
    if w == "وجه"@ { assert(l[5] == w); }
    if w == "احتمال"@ { assert(l[6] == w); }
}

// ---------------------------------------------------------------------------
// Review: what is asked of an answer
// ---------------------------------------------------------------------------

/// Law: every recommendation but approval asks for an action, and approval for
/// none: a rejected answer is regenerated, one for human review is sent to a
/// scholar, and so on; in the detailed review a rejected answer with
/// fabricated content also flags the model, and a question of creed or
/// jurisprudence sent for human review is marked urgent.
pub proof fn law_recommendation_actions(r: ResponseRecommendation, fabricated: nat, t: QuestionType)
    ensures
        (recommendation_actions(r).len() == 0) <==> r == ResponseRecommendation::Approve,
        r == ResponseRecommendation::Reject ==> recommendation_actions(r) == seq!["رفض الإجابة وإعادة التوليد"@],
        r == ResponseRecommendation::RequestHumanReview ==> recommendation_actions(r) == seq!["إرسال للمراجعة البشرية"@],
        r == ResponseRecommendation::RequireSourceCheck ==> recommendation_actions(r) == seq!["التحقق من المصادر المذكورة"@],
        r == ResponseRecommendation::RequireRevision ==> recommendation_actions(r) == seq!["مراجعة الإجابة وتصحيحها"@],
        r == ResponseRecommendation::ApproveWithWarning ==> recommendation_actions(r) == seq!["إضافة تحذير للمستخدم"@],
        r == ResponseRecommendation::Reject ==> enhanced_recommendation_actions(r, fabricated, t).len() == if fabricated > 0 { 2int } else { 1int },
        r == ResponseRecommendation::RequestHumanReview ==> enhanced_recommendation_actions(r, fabricated, t).len()
            == if t == QuestionType::Aqeedah || t == QuestionType::Fiqh { 2int } else { 1int },
{
}

// ---------------------------------------------------------------------------
// Sources: the authority of authors, references and sources
// ---------------------------------------------------------------------------

/// Law: the authority of authors: Ibn Kathir, at-Tabari, al-Bukhari and Muslim
/// are fully authoritative; al-Qurtubi and the four imams 0.95; al-Baghawi and
/// the compilers of the Sunan 0.9; Ibn Majah 0.85; no other name is known.
pub proof fn law_author_authority(name: Seq<char>)
    ensures
        (name == "ابن كثير"@ || name == "الطبري"@ || name == "البخاري"@ || name == "مسلم"@) ==> author_authority(name) == Some(100u32),
        (name == "القرطبي"@ || name == "أبو حنيفة"@ || name == "مالك"@ || name == "الشافعي"@ || name == "أحمد بن حنبل"@) ==> author_authority(name) == Some(95u32),
        (name == "البغوي"@ || name == "أبو داود"@ || name == "الترمذي"@ || name == "النسائي"@) ==> author_authority(name) == Some(90u32),
        (name == "ابن ماجه"@) ==> author_authority(name) == Some(85u32),
        !(name == "ابن كثير"@ || name == "الطبري"@ || name == "البخاري"@ || name == "مسلم"@ || name == "القرطبي"@ || name == "أبو حنيفة"@ || name == "مالك"@ || name == "الشافعي"@ || name == "أحمد بن حنبل"@ || name == "البغوي"@ || name == "أبو داود"@ || name == "الترمذي"@ || name == "النسائي"@ || name == "ابن ماجه"@) ==> author_authority(name) is None,
{
    reveal_strlit("ابن كثير");
    reveal_strlit("الطبري");
    reveal_strlit("البخاري");
    reveal_strlit("مسلم");
    reveal_strlit("القرطبي");
    reveal_strlit("أبو حنيفة");
    reveal_strlit("مالك");
    reveal_strlit("الشافعي");
    reveal_strlit("أحمد بن حنبل");
    reveal_strlit("البغوي");
    reveal_strlit("أبو داود");
    reveal_strlit("الترمذي");
    reveal_strlit("النسائي");
    reveal_strlit("ابن ماجه");
    assert("ابن كثير"@ != "القرطبي"@) by {
        assert("ابن كثير"@[1] != "القرطبي"@[1]);
    }
    assert("ابن كثير"@ != "أبو حنيفة"@) by {
        assert("ابن كثير"@[0] != "أبو حنيفة"@[0]);
    }
    assert("ابن كثير"@ != "مالك"@) by {
        assert("ابن كثير"@[0] != "مالك"@[0]);
    }
    assert("ابن كثير"@ != "الشافعي"@) by {
        assert("ابن كثير"@[1] != "الشافعي"@[1]);
    }
    assert("ابن كثير"@ != "أحمد بن حنبل"@) by {
        assert("ابن كثير"@[0] != "أحمد بن حنبل"@[0]);
    }
    assert("الطبري"@ != "القرطبي"@) by {
        assert("الطبري"@[2] != "القرطبي"@[2]);
    }
    assert("الطبري"@ != "أبو حنيفة"@) by {
        assert("الطبري"@[0] != "أبو حنيفة"@[0]);
    }
    assert("الطبري"@ != "مالك"@) by {
        assert("الطبري"@[0] != "مالك"@[0]);
    }
    assert("الطبري"@ != "الشافعي"@) by {
        assert("الطبري"@[2] != "الشافعي"@[2]);
    }
    assert("الطبري"@ != "أحمد بن حنبل"@) by {
        assert("الطبري"@[0] != "أحمد بن حنبل"@[0]);
    }
    assert("البخاري"@ != "القرطبي"@) by {
        assert("البخاري"@[2] != "القرطبي"@[2]);
    }
    assert("البخاري"@ != "أبو حنيفة"@) by {
        assert("البخاري"@[0] != "أبو حنيفة"@[0]);
    }
    assert("البخاري"@ != "مالك"@) by {
        assert("البخاري"@[0] != "مالك"@[0]);
    }
    assert("البخاري"@ != "الشافعي"@) by {
        assert("البخاري"@[2] != "الشافعي"@[2]);
    }
    assert("البخاري"@ != "أحمد بن حنبل"@) by {
        assert("البخاري"@[0] != "أحمد بن حنبل"@[0]);
    }
    assert("مسلم"@ != "القرطبي"@) by {
        assert("مسلم"@[0] != "القرطبي"@[0]);
    }
    assert("مسلم"@ != "أبو حنيفة"@) by {
        assert("مسلم"@[0] != "أبو حنيفة"@[0]);
    }
    assert("مسلم"@ != "مالك"@) by {
        assert("مسلم"@[1] != "مالك"@[1]);
    }
    assert("مسلم"@ != "الشافعي"@) by {
        assert("مسلم"@[0] != "الشافعي"@[0]);
    }
    assert("مسلم"@ != "أحمد بن حنبل"@) by {
        assert("مسلم"@[0] != "أحمد بن حنبل"@[0]);
    }
    assert("ابن كثير"@ != "البغوي"@) by {
        assert("ابن كثير"@[1] != "البغوي"@[1]);
    }
    assert("ابن كثير"@ != "أبو داود"@) by {
        assert("ابن كثير"@[0] != "أبو داود"@[0]);
    }
    assert("ابن كثير"@ != "الترمذي"@) by {
        assert("ابن كثير"@[1] != "الترمذي"@[1]);
    }
    assert("ابن كثير"@ != "النسائي"@) by {
        assert("ابن كثير"@[1] != "النسائي"@[1]);
    }
    assert("الطبري"@ != "البغوي"@) by {
        assert("الطبري"@[2] != "البغوي"@[2]);
    }
    assert("الطبري"@ != "أبو داود"@) by {
        assert("الطبري"@[0] != "أبو داود"@[0]);
    }
    assert("الطبري"@ != "الترمذي"@) by {
        assert("الطبري"@[2] != "الترمذي"@[2]);
    }
    assert("الطبري"@ != "النسائي"@) by {
        assert("الطبري"@[2] != "النسائي"@[2]);
    }
    assert("البخاري"@ != "البغوي"@) by {
        assert("البخاري"@[3] != "البغوي"@[3]);
    }
    assert("البخاري"@ != "أبو داود"@) by {
        assert("البخاري"@[0] != "أبو داود"@[0]);
    }
    assert("البخاري"@ != "الترمذي"@) by {
        assert("البخاري"@[2] != "الترمذي"@[2]);
    }
    assert("البخاري"@ != "النسائي"@) by {
        assert("البخاري"@[2] != "النسائي"@[2]);
    }
    assert("مسلم"@ != "البغوي"@) by {
        assert("مسلم"@[0] != "البغوي"@[0]);
    }
    assert("مسلم"@ != "أبو داود"@) by {
        assert("مسلم"@[0] != "أبو داود"@[0]);
    }
    assert("مسلم"@ != "الترمذي"@) by {
        assert("مسلم"@[0] != "الترمذي"@[0]);
    }
    assert("مسلم"@ != "النسائي"@) by {
        assert("مسلم"@[0] != "النسائي"@[0]);
    }
    assert("ابن كثير"@ != "ابن ماجه"@) by {
        assert("ابن كثير"@[4] != "ابن ماجه"@[4]);
    }
    assert("الطبري"@ != "ابن ماجه"@) by {
        assert("الطبري"@[1] != "ابن ماجه"@[1]);
    }
    assert("البخاري"@ != "ابن ماجه"@) by {
        assert("البخاري"@[1] != "ابن ماجه"@[1]);
    }
    assert("مسلم"@ != "ابن ماجه"@) by {
        assert("مسلم"@[0] != "ابن ماجه"@[0]);
    }
    assert("القرطبي"@ != "البغوي"@) by {
        assert("القرطبي"@[2] != "البغوي"@[2]);
    }
    assert("القرطبي"@ != "أبو داود"@) by {
        assert("القرطبي"@[0] != "أبو داود"@[0]);
    }
    assert("القرطبي"@ != "الترمذي"@) by {
        assert("القرطبي"@[2] != "الترمذي"@[2]);
    }
    assert("القرطبي"@ != "النسائي"@) by {
        assert("القرطبي"@[2] != "النسائي"@[2]);
    }
    assert("أبو حنيفة"@ != "البغوي"@) by {
        assert("أبو حنيفة"@[0] != "البغوي"@[0]);
    }
    assert("أبو حنيفة"@ != "أبو داود"@) by {
        assert("أبو حنيفة"@[4] != "أبو داود"@[4]);
    }
    assert("أبو حنيفة"@ != "الترمذي"@) by {
        assert("أبو حنيفة"@[0] != "الترمذي"@[0]);
    }
    assert("أبو حنيفة"@ != "النسائي"@) by {
        assert("أبو حنيفة"@[0] != "النسائي"@[0]);
    }
    assert("مالك"@ != "البغوي"@) by {
        assert("مالك"@[0] != "البغوي"@[0]);
    }
    assert("مالك"@ != "أبو داود"@) by {
        assert("مالك"@[0] != "أبو داود"@[0]);
    }
    assert("مالك"@ != "الترمذي"@) by {
        assert("مالك"@[0] != "الترمذي"@[0]);
    }
    assert("مالك"@ != "النسائي"@) by {
        assert("مالك"@[0] != "النسائي"@[0]);
    }
    assert("الشافعي"@ != "البغوي"@) by {
        assert("الشافعي"@[2] != "البغوي"@[2]);
    }
    assert("الشافعي"@ != "أبو داود"@) by {
        assert("الشافعي"@[0] != "أبو داود"@[0]);
    }
    assert("الشافعي"@ != "الترمذي"@) by {
        assert("الشافعي"@[2] != "الترمذي"@[2]);
    }
    assert("الشافعي"@ != "النسائي"@) by {
        assert("الشافعي"@[2] != "النسائي"@[2]);
    }
    assert("أحمد بن حنبل"@ != "البغوي"@) by {
        assert("أحمد بن حنبل"@[0] != "البغوي"@[0]);
    }
    assert("أحمد بن حنبل"@ != "أبو داود"@) by {
        assert("أحمد بن حنبل"@[1] != "أبو داود"@[1]);
    }
    assert("أحمد بن حنبل"@ != "الترمذي"@) by {
        assert("أحمد بن حنبل"@[0] != "الترمذي"@[0]);
    }
    assert("أحمد بن حنبل"@ != "النسائي"@) by {
        assert("أحمد بن حنبل"@[0] != "النسائي"@[0]);
    }
    assert("القرطبي"@ != "ابن ماجه"@) by {
        assert("القرطبي"@[1] != "ابن ماجه"@[1]);
    }
    assert("أبو حنيفة"@ != "ابن ماجه"@) by {
        assert("أبو حنيفة"@[0] != "ابن ماجه"@[0]);
    }
    assert("مالك"@ != "ابن ماجه"@) by {
        assert("مالك"@[0] != "ابن ماجه"@[0]);
    }
    assert("الشافعي"@ != "ابن ماجه"@) by {
        assert("الشافعي"@[1] != "ابن ماجه"@[1]);
    }
    assert("أحمد بن حنبل"@ != "ابن ماجه"@) by {
        assert("أحمد بن حنبل"@[0] != "ابن ماجه"@[0]);
    }
    assert("البغوي"@ != "ابن ماجه"@) by {
        assert("البغوي"@[1] != "ابن ماجه"@[1]);
    }
    assert("أبو داود"@ != "ابن ماجه"@) by {
        assert("أبو داود"@[0] != "ابن ماجه"@[0]);
    }
    assert("الترمذي"@ != "ابن ماجه"@) by {
        assert("الترمذي"@[1] != "ابن ماجه"@[1]);
    }
    assert("النسائي"@ != "ابن ماجه"@) by {
        assert("النسائي"@[1] != "ابن ماجه"@[1]);
    }
}

/// Law: a source is as authoritative as the better of its type and its author
/// (an unknown or missing author counts as one half), and never less than
/// either.
pub proof fn law_source_authority(t: SourceType, author: Option<Seq<char>>)
    ensures
        source_authority(t, author) >= type_authority(t),
        source_authority(t, author) >= 50,
        author matches Some(n) ==> (author_authority(n) matches Some(x) ==> source_authority(t, author) >= x),
        source_authority(t, author) == type_authority(t) || (author matches Some(n) && author_authority(n) == Some(source_authority(t, author)))
            || source_authority(t, author) == 50,
{
}

/// Law: the authority of a reference, read in its lower-cased form: a Sahih
/// collection is fully authoritative; else a Sunan ("سنن") 0.85; else a Musnad
/// ("مسند") 0.8; else a tafsir ("تفسير") 0.75; else 0.5.
pub proof fn law_reference_authority(reference: Seq<char>)
    ensures
        ({
            let low = lowercase_of(reference);
            let sahih = seq_contains(low, "صحيح البخاري"@) || seq_contains(low, "صحيح مسلم"@);
            &&& sahih ==> reference_authority(reference) == 100
            &&& !sahih && seq_contains(low, "سنن"@) ==> reference_authority(reference) == 85
            &&& !sahih && !seq_contains(low, "سنن"@) && seq_contains(low, "مسند"@) ==> reference_authority(reference) == 80
            &&& !sahih && !seq_contains(low, "سنن"@) && !seq_contains(low, "مسند"@) && seq_contains(low, "تفسير"@)
                ==> reference_authority(reference) == 75
            &&& !sahih && !seq_contains(low, "سنن"@) && !seq_contains(low, "مسند"@) && !seq_contains(low, "تفسير"@)
                ==> reference_authority(reference) == 50
        }),
{
}

// ---------------------------------------------------------------------------
// Hadith: phrases of fabrication
// ---------------------------------------------------------------------------

/// Law: a text is taken for a fabricated hadith exactly when it holds one of
/// the phrases of known fabrications: "من قرأ هذا الحديث", "من نشر هذا
/// الحديث" or "ثواب عظيم لمن قرأ".
pub proof fn law_fabrication_phrases(text: Seq<char>)
    ensures
        any_occurs(text, fabrication_phrases()) <==> (seq_contains(text, "من قرأ هذا الحديث"@)
            || seq_contains(text, "من نشر هذا الحديث"@) || seq_contains(text, "ثواب عظيم لمن قرأ"@)),
{
    let l = fabrication_phrases();
    if any_occurs(text, l) {
        let k = choose|k: int| 0 <= k < l.len() && seq_contains(text, l[k]);
        assert(k == 0 || k == 1 || k == 2);
    }
    if seq_contains(text, "من قرأ هذا الحديث"@) { assert(seq_contains(text, l[0])); }
    if seq_contains(text, "من نشر هذا الحديث"@) { assert(seq_contains(text, l[1])); }
    if seq_contains(text, "ثواب عظيم لمن قرأ"@) { assert(seq_contains(text, l[2])); }
}

// ---------------------------------------------------------------------------
// Questions: letters and keywords
// ---------------------------------------------------------------------------

/// Law: normalising unifies the forms of alif (أ, إ, آ become ا) and of final
/// ya (ى becomes ي), and leaves every other character as it is.
pub proof fn law_letter_forms(c: char)
    ensures
        (c == 'أ' || c == 'إ' || c == 'آ') ==> unify_letter(c) == 'ا',
        c == 'ى' ==> unify_letter(c) == 'ي',
        !(c == 'أ' || c == 'إ' || c == 'آ' || c == 'ى') ==> unify_letter(c) == c,
{
}

/// Law: a word loses a leading definite article "ال" exactly when at least
/// three letters remain, and is otherwise kept whole.
pub proof fn law_definite_article(w: Seq<char>)
    ensures
        (w.len() >= 5 && w[0] == 'ا' && w[1] == 'ل') ==> without_article(w) == w.subrange(2, w.len() as int),
        !(w.len() >= 5 && w[0] == 'ا' && w[1] == 'ل') ==> without_article(w) == w,
{
}

/// `kw` is a keyword made from a word of `ws`: one that is not a stop word and
/// takes more than two bytes, without its definite article.
pub open spec fn keyword_from(ws: Seq<Seq<char>>, stop: Seq<Seq<char>>, kw: Seq<char>) -> bool {
    exists|i: int| 0 <= i < ws.len() && !seq_in_list(#[trigger] ws[i], stop) && utf8_len(ws[i]) > 2 && kw == without_article(ws[i])
}

/// Law: the keywords of a list of words are the words that are not stop words
/// and take more than two bytes, each without its definite article: there are
/// no more keywords than words, each keyword comes from such a word, and each
/// such word gives a keyword.
pub proof fn law_keywords(ws: Seq<Seq<char>>, stop: Seq<Seq<char>>)
    ensures
        keep_keywords(ws, stop).len() <= ws.len(),
        forall|k: int| 0 <= k < keep_keywords(ws, stop).len() ==> keyword_from(ws, stop, #[trigger] keep_keywords(ws, stop)[k]),
        forall|i: int| 0 <= i < ws.len() && !seq_in_list(#[trigger] ws[i], stop) && utf8_len(ws[i]) > 2
            ==> keep_keywords(ws, stop).contains(without_article(ws[i])),
    decreases ws.len(),
{
    if ws.len() > 0 {
        let init = ws.drop_last();
        law_keywords(init, stop);
        let rest = keep_keywords(init, stop);
        let w = ws.last();
        assert forall|k: int| 0 <= k < keep_keywords(ws, stop).len() implies keyword_from(ws, stop, #[trigger] keep_keywords(ws, stop)[k]) by {
            if k < rest.len() {
                assert(keep_keywords(ws, stop)[k] == rest[k]);
                assert(keyword_from(init, stop, rest[k]));
                let i = choose|i: int| 0 <= i < init.len()
                    && !seq_in_list(#[trigger] init[i], stop) && utf8_len(init[i]) > 2 && rest[k] == without_article(init[i]);
                assert(ws[i] == init[i]);
            } else {
                assert(!seq_in_list(w, stop) && utf8_len(w) > 2);
                assert(keep_keywords(ws, stop)[k] == without_article(w));
                assert(ws[ws.len() - 1] == w);
            }
        }
        assert forall|i: int| 0 <= i < ws.len() && !seq_in_list(#[trigger] ws[i], stop) && utf8_len(ws[i]) > 2
            implies keep_keywords(ws, stop).contains(without_article(ws[i])) by {
            if i < init.len() {
                assert(init[i] == ws[i]);
                let k = choose|k: int| 0 <= k < rest.len() && rest[k] == without_article(init[i]);
                assert(keep_keywords(ws, stop)[k] == rest[k]);
            } else {
                assert(ws[i] == w);
                assert(keep_keywords(ws, stop)[rest.len() as int] == without_article(w));
            }
        }
    }
}

// ---------------------------------------------------------------------------
// Contradictions: rulings and grades
// ---------------------------------------------------------------------------

/// Law: two rulings contradict one another only on the same subject, and
/// whether they do does not depend on their order; on the same subject,
/// obligatory and forbidden, required and disliked, recommended and
/// forbidden, lawful and forbidden, and permitted and forbidden contradict.
pub proof fn law_rulings_contradict(a: (Seq<char>, Seq<char>, usize), b: (Seq<char>, Seq<char>, usize))
    ensures
        rulings_contradict(a, b) == rulings_contradict(b, a),
        a.1 != b.1 ==> !rulings_contradict(a, b),
        a.1 == b.1 && ((a.0 == "واجب"@ && b.0 == "حرام"@) || (a.0 == "فرض"@ && b.0 == "مكروه"@) || (a.0 == "مستحب"@ && b.0 == "حرام"@)
            || (a.0 == "حلال"@ && b.0 == "حرام"@) || (a.0 == "مباح"@ && b.0 == "حرام"@)) ==> rulings_contradict(a, b),
{
}

/// Law: the grades given to a hadith contradict one another exactly when one
/// calls it strong (sahih or hasan) and another weak (daif or fabricated); so
/// more grades never remove a contradiction.
pub proof fn law_grades_contradict(grades: Seq<Seq<char>>, more: Seq<Seq<char>>)
    ensures
        grades_contradict(grades) <==> ((exists|i: int| 0 <= i < grades.len() && (#[trigger] grades[i] == "صحيح"@ || grades[i] == "حسن"@))
            && (exists|j: int| 0 <= j < grades.len() && (#[trigger] grades[j] == "ضعيف"@ || grades[j] == "موضوع"@))),
        grades_contradict(grades) ==> grades_contradict(grades + more),
{
    let all = grades + more;
    if grades_contradict(grades) {
        let i = choose|i: int| 0 <= i < grades.len() && (grades[i] == "صحيح"@ || grades[i] == "حسن"@);
        let j = choose|j: int| 0 <= j < grades.len() && (grades[j] == "ضعيف"@ || grades[j] == "موضوع"@);
        assert(all[i] == grades[i]);
        assert(all[j] == grades[j]);
    }
}

// ---------------------------------------------------------------------------
// Errors: breakers of services and fall-backs carried out
// ---------------------------------------------------------------------------

/// Law: checking the breaker of a service: a breaker that is not open (or has
/// no failure on record) is left as it is and lets the call through; an open
/// one whose timeout has passed since its last failure turns half-open, with
/// no successes counted and its failures kept, and lets the call through; an
/// open one within its timeout stays as it is and answers that the service is
/// broken off for the rest of the timeout, in whole milliseconds.
pub proof fn law_breaker_check(
    before: ErrorBreaker,
    after: ErrorBreaker,
    elapsed: u128,
    timeout_ms: u64,
    service: Seq<char>,
    r: Option<RecoveryAction>,
)
    requires
        ErrorHandler::check_spec(before, after, elapsed, timeout_ms, service, r),
    ensures
        !(before.state == ErrorBreakerState::Open && before.last_failure_time is Some) ==> after == before && r is None,
        before.state == ErrorBreakerState::Open && before.last_failure_time is Some && elapsed > timeout_ms as int * 1_000_000 ==> ({
            &&& after.state == ErrorBreakerState::HalfOpen
            &&& after.success_count == 0
            &&& after.failure_count == before.failure_count
            &&& after.last_failure_time == before.last_failure_time
            &&& r is None
        }),
        before.state == ErrorBreakerState::Open && before.last_failure_time is Some && elapsed <= timeout_ms as int * 1_000_000 ==> ({
            &&& after == before
            &&& r matches Some(RecoveryAction::CircuitBreak { service: s, duration_ms })
            &&& s@ == service
            &&& duration_ms as int * 1_000_000 <= timeout_ms as int * 1_000_000 - elapsed
            &&& timeout_ms as int * 1_000_000 - elapsed < (duration_ms as int + 1) * 1_000_000
        }),
{
    if before.state == ErrorBreakerState::Open && before.last_failure_time is Some && elapsed <= timeout_ms as int * 1_000_000 {
        let left = timeout_ms as int * 1_000_000 - elapsed;
        assert(left / 1_000_000 * 1_000_000 <= left < (left / 1_000_000 + 1) * 1_000_000) by (nonlinear_arith)
            requires
                left >= 0;
    }
}

/// Law: of the fall-backs carried out, only the graceful failure fails,
/// saying that the service is temporarily unavailable; the offline answer
/// apologises and refers the user to the scholars; the others report what was
/// done (another model, the cache, a degraded service).
pub proof fn law_fallback_outcomes(strategy: FallbackStrategy)
    ensures
        (ErrorHandler::fallback_outcome(strategy) is Err) <==> strategy == FallbackStrategy::FailGracefully,
        strategy == FallbackStrategy::FailGracefully ==> ErrorHandler::fallback_outcome(strategy) == Err::<Seq<char>, Seq<char>>(
            "Service is temporarily unavailable"@,
        ),
        strategy == FallbackStrategy::UseOfflineResponse ==> ErrorHandler::fallback_outcome(strategy) == Ok::<Seq<char>, Seq<char>>(
            "عذراً، الخدمة غير متاحة حالياً. يرجى المحاولة لاحقاً أو استشارة العلماء المختصين."@,
        ),
        strategy == FallbackStrategy::UseCache ==> ErrorHandler::fallback_outcome(strategy) == Ok::<Seq<char>, Seq<char>>("use_cache"@),
        strategy == FallbackStrategy::RetryWithDifferentModel ==> ErrorHandler::fallback_outcome(strategy) == Ok::<Seq<char>, Seq<char>>(
            "retry_different_model"@,
        ),
        strategy == FallbackStrategy::DegradeService ==> ErrorHandler::fallback_outcome(strategy) == Ok::<Seq<char>, Seq<char>>(
            "service_degraded"@,
        ),
{
}

} // verus!
