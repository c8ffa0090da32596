//! Properties of the library as a whole, stated over the specifications that
//! its functions' contracts use, and proved.
use vstd::prelude::*;
use crate::anti_hallucination::{
    fabrication_risk_spec, fabrication_risk_uncapped, quick_islamic_list, quick_out_of_scope_spec, verse_supported,
};
use crate::hadith_verifier::{usage_recommendation_spec, may_display, HadithGrade, ScholarOpinion, UsageRecommendation};
use crate::hugging_face::{rate_step_spec, RateDecision};
use crate::question_processor::{scope_status_of, ScopeStatus};
use crate::rag::{eligible_positions, fitting_count, text_bytes_before};
use crate::religious_query::{citation_spec, courtesy_spec, first_sorted_distinct, MAX_RELATED};
use crate::review::required_actions_spec;
use crate::anti_hallucination::ResponseRecommendation;
use crate::text::{any_occurs, lowercase_of, occurs_at, seq_contains, strictly_sorted, utf8_len};
use crate::types::{IslamicSource, SourceType};
use crate::cache::{after_insert, is_fresh, oldest, TtlCache};
use crate::fabrication::{quote_finding, ruling_finding, suspicious_number_spec, quoted_in_sources};
use crate::anti_hallucination::{authors_of, known_name_spec};
use crate::integration::{
    FallbackHandler, FALLBACK_AFTER_FAILURES,
    cache_status_text, database_status_text, model_status_text, overall_status_text, rag_next_spec, stage_rank, RagAction,
    RagEvent, RagStage,
};
use crate::service_manager::{overall_health_spec, reported_health_spec, HealthStatus};

verus! {

// ---------------------------------------------------------------------------
// Scope of questions
// ---------------------------------------------------------------------------

/// A question that names a term of Islam is never taken for a question out of
/// scope by the quick check.
pub proof fn law_islamic_term_keeps_question_in_scope(question: Seq<char>)
    requires
        any_occurs(lowercase_of(question), quick_islamic_list()),
    ensures
        !quick_out_of_scope_spec(question),
{
}

/// A question with more Islamic terms than off-topic terms, and no borderline
/// topic, is in scope, so it is analysed and never refused.
pub proof fn law_more_islamic_terms_in_scope(islamic: nat, out_of_scope: nat, borderline: nat)
    requires
        islamic > out_of_scope,
        borderline == 0,
    ensures
        scope_status_of(islamic, out_of_scope, borderline) == ScopeStatus::InScope,
{
}

/// A question is refused as out of scope only where its off-topic terms
/// outnumber its Islamic ones; a borderline topic is never refused on its own.
pub proof fn law_refused_only_when_off_topic_dominates(islamic: nat, out_of_scope: nat, borderline: nat)
    ensures
        scope_status_of(islamic, out_of_scope, borderline) == ScopeStatus::OutOfScope <==> out_of_scope > islamic,
{
}

// ---------------------------------------------------------------------------
// Fabrication risk
// ---------------------------------------------------------------------------

/// The fabrication risk never exceeds one (ten tenths).
pub proof fn law_fabrication_risk_bounded(response: Seq<char>, sources: Seq<IslamicSource>)
    ensures
        fabrication_risk_spec(response, sources) <= 10,
{
}

/// A response that quotes a verse that no Quran source supports has a risk of
/// at least nine tenths.
pub proof fn law_unsupported_verse_is_risky(response: Seq<char>, sources: Seq<IslamicSource>)
    requires
        seq_contains(response, "قال الله تعالى:"@) || seq_contains(response, "في القرآن:"@),
        !verse_supported(response, sources),
    ensures
        fabrication_risk_spec(response, sources) >= 9,
{
}

/// A response with no quoted verse, no quoted hadith and no statistic has no
/// fabrication risk.
pub proof fn law_plain_response_has_no_risk(response: Seq<char>, sources: Seq<IslamicSource>)
    requires
        !seq_contains(response, "قال الله تعالى:"@),
        !seq_contains(response, "في القرآن:"@),
        !seq_contains(response, "قال الرسول"@),
        !seq_contains(response, "في الحديث"@),
        !seq_contains(response, "%"@),
        !seq_contains(response, "إحصائية"@),
    ensures
        fabrication_risk_spec(response, sources) == 0,
{
}

// ---------------------------------------------------------------------------
// Answers, citations and follow-up questions
// ---------------------------------------------------------------------------

/// `pat` occurs in `text` at `i`, then in `text` with anything put in front of
/// it or after it.
proof fn lemma_occurs_in_context(pre: Seq<char>, text: Seq<char>, post: Seq<char>, pat: Seq<char>, i: int)
    requires
        occurs_at(text, pat, i),
    ensures
        occurs_at(pre + text + post, pat, pre.len() + i),
{
    let whole = pre + text + post;
    assert(whole.subrange(pre.len() + i, pre.len() + i + pat.len()) =~= text.subrange(i, i + pat.len()));
}

/// The courtesy phrases keep the answer (it occurs whole in the result), and
/// adding them twice gives what adding them once gives.
pub proof fn law_courtesy_keeps_answer_and_is_idempotent(answer: Seq<char>)
    ensures
        seq_contains(courtesy_spec(answer), answer),
        courtesy_spec(courtesy_spec(answer)) == courtesy_spec(answer),
{
    reveal_strlit("\n\nوالله أعلم.");
    reveal_strlit("بسم الله الرحمن الرحيم\n\n");
    reveal_strlit("بسم الله");
    let closed = if !seq_contains(answer, "والله أعلم"@) && !seq_contains(answer, "الله أعلم"@) {
        answer + "\n\nوالله أعلم."@
    } else {
        answer
    };
    let head = "بسم الله الرحمن الرحيم\n\n"@;
    let c = courtesy_spec(answer);
    assert(occurs_at(answer, answer, 0)) by {
        assert(answer.subrange(0, answer.len() as int) =~= answer);
    }
    lemma_occurs_in_context(Seq::empty(), answer, closed.subrange(answer.len() as int, closed.len() as int), answer, 0);
    assert(Seq::<char>::empty() + answer + closed.subrange(answer.len() as int, closed.len() as int) =~= closed);
    assert(occurs_at(closed, answer, 0));
    if c != closed {
        lemma_occurs_in_context(head, closed, Seq::empty(), answer, 0);
        assert(head + closed + Seq::<char>::empty() =~= c);
        assert(occurs_at(c, "بسم الله"@, 0)) by {
            assert(c.subrange(0, "بسم الله"@.len() as int) =~= "بسم الله"@);
        }
    }
    assert(seq_contains(c, answer));
    law_courtesy_closes_answer(answer);
    assert(seq_contains(c, "الله أعلم"@));
    assert(courtesy_spec(c) == c);
}

/// Every answer that has gone through the courtesy phrases ends up holding
/// "Allah knows best".
pub proof fn law_courtesy_closes_answer(answer: Seq<char>)
    ensures
        seq_contains(courtesy_spec(answer), "الله أعلم"@),
{
    reveal_strlit("الله أعلم");
    reveal_strlit("والله أعلم");
    reveal_strlit("\n\nوالله أعلم.");
    reveal_strlit("بسم الله الرحمن الرحيم\n\n");
    let pat = "الله أعلم"@;
    let closed = if !seq_contains(answer, "والله أعلم"@) && !seq_contains(answer, pat) {
        answer + "\n\nوالله أعلم."@
    } else {
        answer
    };
    let i: int = if !seq_contains(answer, "والله أعلم"@) && !seq_contains(answer, pat) {
        let suffix = "\n\nوالله أعلم."@;
        assert(occurs_at(suffix, pat, 3)) by {
            assert(suffix.subrange(3, 3 + pat.len() as int) =~= pat);
        }
        lemma_occurs_in_context(answer, suffix, Seq::empty(), pat, 3);
        assert(answer + suffix + Seq::<char>::empty() =~= closed);
        answer.len() + 3int
    } else if seq_contains(answer, pat) {
        choose|k: int| occurs_at(answer, pat, k)
    } else {
        let long = "والله أعلم"@;
        let k = choose|k: int| occurs_at(answer, long, k);
        assert(occurs_at(long, pat, 1)) by {
            assert(long.subrange(1, 1 + pat.len() as int) =~= pat);
        }
        assert(answer.subrange(k + 1, k + 1 + pat.len() as int) =~= long.subrange(1, 1 + pat.len() as int));
        k + 1
    };
    assert(occurs_at(closed, pat, i));
    let head = "بسم الله الرحمن الرحيم\n\n"@;
    if seq_contains(closed, "قال الله تعالى"@) && !occurs_at(closed, "بسم الله"@, 0) {
        lemma_occurs_in_context(head, closed, Seq::empty(), pat, i);
        assert(head + closed + Seq::<char>::empty() =~= courtesy_spec(answer));
        assert(occurs_at(courtesy_spec(answer), pat, head.len() + i));
    } else {
        assert(occurs_at(courtesy_spec(answer), pat, i));
    }
}

/// The courtesy phrases add at most one closing phrase, at the end, and at
/// most one basmala, at the front; and an answer that quotes a verse
/// ("قال الله تعالى") without opening with "in the name of Allah" comes out
/// opening with the full basmala.
pub proof fn law_courtesy_adds_each_phrase_at_most_once(answer: Seq<char>)
    ensures
        ({
            let c = courtesy_spec(answer);
            let head = "بسم الله الرحمن الرحيم\n\n"@;
            let tail = "\n\nوالله أعلم."@;
            c == answer || c == answer + tail || c == head + answer || c == head + answer + tail
        }),
        seq_contains(answer, "قال الله تعالى"@) && !occurs_at(answer, "بسم الله"@, 0)
            ==> occurs_at(courtesy_spec(answer), "بسم الله الرحمن الرحيم"@, 0),
{
    reveal_strlit("بسم الله الرحمن الرحيم\n\n");
    reveal_strlit("بسم الله الرحمن الرحيم");
    reveal_strlit("بسم الله");
    reveal_strlit("قال الله تعالى");
    let head = "بسم الله الرحمن الرحيم\n\n"@;
    let tail = "\n\nوالله أعلم."@;
    let verse = "قال الله تعالى"@;
    let opening = "بسم الله"@;
    let closed = if !seq_contains(answer, "والله أعلم"@) && !seq_contains(answer, "الله أعلم"@) {
        answer + tail
    } else {
        answer
    };
    let c = courtesy_spec(answer);
    assert(c == closed || c == head + closed);
    if closed != answer {
        assert(head + closed =~= head + answer + tail);
    }
    if seq_contains(answer, verse) && !occurs_at(answer, opening, 0) {
        let k = choose|k: int| occurs_at(answer, verse, k);
        assert(closed.subrange(k, k + verse.len()) =~= answer.subrange(k, k + verse.len()));
        assert(occurs_at(closed, verse, k));
        assert(answer.len() >= opening.len());
        assert(closed.subrange(0, opening.len() as int) =~= answer.subrange(0, opening.len() as int));
        assert(c == head + closed);
        assert(c.subrange(0, "بسم الله الرحمن الرحيم"@.len() as int) =~= "بسم الله الرحمن الرحيم"@);
    }
}

/// Every citation ends with the reference of its source.
pub proof fn law_citation_ends_with_reference(t: SourceType, author: Option<Seq<char>>, reference: Seq<char>)
    ensures
        citation_spec(t, author, reference).len() >= reference.len(),
        occurs_at(
            citation_spec(t, author, reference),
            reference,
            citation_spec(t, author, reference).len() - reference.len(),
        ),
{
    let c = citation_spec(t, author, reference);
    assert(c.subrange(c.len() - reference.len(), c.len() as int) =~= reference);
}

/// The follow-up questions offered are at most three, sorted, without
/// duplicates, and each one of the candidates.
pub proof fn law_related_questions_sorted_and_few(r: Seq<Seq<char>>, candidates: Seq<Seq<char>>)
    requires
        first_sorted_distinct(r, candidates),
    ensures
        r.len() <= MAX_RELATED,
        strictly_sorted(r),
        forall|i: int| 0 <= i < r.len() ==> candidates.contains(#[trigger] r[i]),
{
    let full = choose|full: Seq<Seq<char>>| #![trigger full.to_set()]
        strictly_sorted(full) && full.to_set() == candidates.to_set() && r == full.take(
            if full.len() < MAX_RELATED { full.len() as int } else { MAX_RELATED as int },
        );
    assert forall|i: int| 0 <= i < r.len() implies candidates.contains(#[trigger] r[i]) by {
        assert(r[i] == full[i]);
        assert(full.to_set().contains(full[i]));
        assert(candidates.to_set().contains(full[i]));
    }
}

// ---------------------------------------------------------------------------
// The context of the model
// ---------------------------------------------------------------------------

/// The bytes of the first sources grow with their number.
proof fn lemma_bytes_monotone(sources: Seq<IslamicSource>, a: int, b: int)
    requires
        0 <= a <= b <= sources.len(),
    ensures
        text_bytes_before(sources, a) <= text_bytes_before(sources, b),
    decreases b - a,
{
    if a < b {
        lemma_bytes_monotone(sources, a, b - 1);
    }
}

/// The sources taken into the context fit within the limit, and no other
/// number of sources taken in order does while leaving out the next: the
/// choice is the longest run that fits.
pub proof fn law_context_is_longest_fitting_prefix(sources: Seq<IslamicSource>, max: nat, k: int, j: int)
    requires
        fitting_count(sources, max, k),
        fitting_count(sources, max, j),
    ensures
        text_bytes_before(sources, k) <= max,
        k == j,
{
    if k < j {
        lemma_bytes_monotone(sources, k + 1, j);
    } else if j < k {
        lemma_bytes_monotone(sources, j + 1, k);
    }
}

// ---------------------------------------------------------------------------
// Sources kept for an answer
// ---------------------------------------------------------------------------

/// No fabricated hadith, and no source below the score threshold, is ever
/// kept for an answer; positions are kept in increasing order.
pub proof fn law_kept_sources_are_eligible(kinds: Seq<SourceType>, above_threshold: Seq<bool>, n: int)
    requires
        0 <= n <= kinds.len(),
        kinds.len() == above_threshold.len(),
    ensures
        forall|i: int| 0 <= i < eligible_positions(kinds, above_threshold, n).len() ==> {
            let p = #[trigger] eligible_positions(kinds, above_threshold, n)[i];
            &&& 0 <= p < n
            &&& kinds[p] != SourceType::MawduHadith
            &&& above_threshold[p]
        },
        forall|i: int, j: int| 0 <= i < j < eligible_positions(kinds, above_threshold, n).len()
            ==> eligible_positions(kinds, above_threshold, n)[i] < eligible_positions(kinds, above_threshold, n)[j],
    decreases n,
{
    if n > 0 {
        law_kept_sources_are_eligible(kinds, above_threshold, n - 1);
    }
}

// ---------------------------------------------------------------------------
// Hadith
// ---------------------------------------------------------------------------

/// A fabricated hadith is forbidden, whatever the scholars said, and is never
/// shown.
pub proof fn law_fabricated_hadith_never_shown(opinions: Seq<ScholarOpinion>)
    ensures
        usage_recommendation_spec(HadithGrade::Mawdu, opinions) == UsageRecommendation::Forbidden,
        !may_display(usage_recommendation_spec(HadithGrade::Mawdu, opinions)),
{
}

// ---------------------------------------------------------------------------
// The limiter of requests
// ---------------------------------------------------------------------------

/// Within a window the limiter never counts more requests than it allows, and
/// a request goes ahead only when there was room for it.
pub proof fn law_rate_limit_respected(requests_per_minute: u32, count: u32, elapsed: u128)
    requires
        count <= requests_per_minute,
    ensures
        rate_step_spec(requests_per_minute, count, elapsed).1 <= requests_per_minute,
        rate_step_spec(requests_per_minute, count, elapsed).2 == RateDecision::Proceed
            ==> rate_step_spec(requests_per_minute, count, elapsed).1 <= requests_per_minute
            && rate_step_spec(requests_per_minute, count, elapsed).1 >= 1,
{
}

// ---------------------------------------------------------------------------
// Review of answers
// ---------------------------------------------------------------------------

/// Every problem found in an answer is named among the actions required of
/// it, whatever the recommendation.
pub proof fn law_every_problem_has_an_action(r: ResponseRecommendation, claims: nat, contradictions: nat, fabricated: nat)
    ensures
        fabricated > 0 ==> required_actions_spec(r, claims, contradictions, fabricated).contains("إزالة المحتوى المختلق"@),
        claims > 0 ==> required_actions_spec(r, claims, contradictions, fabricated).contains("إضافة مصادر للادعاءات"@),
        contradictions > 0 ==> required_actions_spec(r, claims, contradictions, fabricated).contains(
            "حل التناقضات مع المصادر"@,
        ),
{
    let base = crate::review::recommendation_actions(r);
    let f = if fabricated > 0 { seq!["إزالة المحتوى المختلق"@] } else { Seq::<Seq<char>>::empty() };
    let c = if claims > 0 { seq!["إضافة مصادر للادعاءات"@] } else { Seq::<Seq<char>>::empty() };
    let k = if contradictions > 0 { seq!["حل التناقضات مع المصادر"@] } else { Seq::<Seq<char>>::empty() };
    let all = required_actions_spec(r, claims, contradictions, fabricated);
    assert(all == base + f + c + k);
    if fabricated > 0 {
        assert(all[base.len() as int] == "إزالة المحتوى المختلق"@);
    }
    if claims > 0 {
        assert(all[(base.len() + f.len()) as int] == "إضافة مصادر للادعاءات"@);
    }
    if contradictions > 0 {
        assert(all[(base.len() + f.len() + c.len()) as int] == "حل التناقضات مع المصادر"@);
    }
}


// ---------------------------------------------------------------------------
// Health of the services
// ---------------------------------------------------------------------------

/// The overall health that the manager derives from the components of a
/// report is the health that the report's own overall status names, whatever
/// the checks of the model, the database and the cache gave.
pub proof fn law_manager_health_agrees_with_report(
    model_ready: Result<bool, String>,
    vector_db: Result<(), String>,
    cache_healthy: bool,
)
    ensures
        overall_health_spec(
            reported_health_spec(model_status_text(model_ready), true),
            reported_health_spec(database_status_text(vector_db), false),
            reported_health_spec(cache_status_text(cache_healthy), false),
        ) == reported_health_spec(
            overall_status_text(
                model_status_text(model_ready),
                database_status_text(vector_db),
                cache_status_text(cache_healthy),
            ),
            false,
        ),
{
    reveal_strlit("healthy");
    reveal_strlit("loading");
    reveal_strlit("unhealthy");
    reveal_strlit("degraded");
    assert("healthy"@.len() != "unhealthy"@.len());
    assert("loading"@.len() != "unhealthy"@.len());
    assert("loading"@.len() != "degraded"@.len());
    assert("healthy"@[0] != "loading"@[0]);
    assert("healthy"@.len() != "degraded"@.len());
    assert("degraded"@.len() != "unhealthy"@.len());
}

/// A cache that is unwell alone never makes the services unhealthy.
pub proof fn law_cache_alone_never_unhealthy(cache: HealthStatus)
    ensures
        overall_health_spec(HealthStatus::Healthy, HealthStatus::Healthy, cache) != HealthStatus::Unhealthy,
{
}

// ---------------------------------------------------------------------------
// Caches
// ---------------------------------------------------------------------------

/// A read gives back what the last write under the same key stored, as long
/// as less than the time to live has passed since; after that it gives
/// nothing.
pub proof fn law_read_gives_back_write<V>(cache: TtlCache<V>, key: Seq<char>, value: V, stored_at_ms: i64, now_ms: i64)
    requires
        cache.view().contains_key(key),
        cache.view()[key] == (value, stored_at_ms),
    ensures
        is_fresh(stored_at_ms, now_ms, cache.ttl_seconds) ==> cache.fresh_value(key, now_ms) == Some(value),
        !is_fresh(stored_at_ms, now_ms, cache.ttl_seconds) ==> cache.fresh_value(key, now_ms) is None,
{
}

/// A value read back at the moment it was written is there exactly when the
/// time to live is not zero.
pub proof fn law_fresh_when_written(stored_at_ms: i64, ttl_seconds: u64)
    ensures
        is_fresh(stored_at_ms, stored_at_ms, ttl_seconds) <==> ttl_seconds > 0,
{
}

/// A key that was never written reads as nothing.
pub proof fn law_unwritten_key_reads_nothing<V>(cache: TtlCache<V>, key: Seq<char>, now_ms: i64)
    requires
        !cache.view().contains_key(key),
    ensures
        cache.fresh_value(key, now_ms) is None,
{
}

// ---------------------------------------------------------------------------
// Fabricated content
// ---------------------------------------------------------------------------

/// A saying put in the mouth of a known scholar, or of an author of the
/// sources, is never reported as fabricated.
pub proof fn law_known_speaker_not_flagged(start: usize, end: usize, name: Seq<char>, sources: Seq<IslamicSource>)
    requires
        known_name_spec(name, authors_of(sources)),
    ensures
        quote_finding(Some((start, end, name)), sources).len() == 0,
{
}

/// A ruling that a source quotes word for word (ignoring case) is never
/// reported as fabricated.
pub proof fn law_quoted_ruling_not_flagged(start: usize, end: usize, ruling: Seq<char>, sources: Seq<IslamicSource>, i: int)
    requires
        0 <= i < sources.len(),
        seq_contains(lowercase_of(sources[i].text@), lowercase_of(ruling)),
    ensures
        ruling_finding(Some((start, end, ruling)), sources).len() == 0,
{
    assert(crate::fabrication::supports_ruling(lowercase_of(sources[i].text@), lowercase_of(ruling)));
}

/// A number whose context a source quotes (ignoring case) is never suspicious.
pub proof fn law_quoted_number_not_suspicious(context: Seq<char>, sources: Seq<IslamicSource>, i: int)
    requires
        0 <= i < sources.len(),
        seq_contains(lowercase_of(sources[i].text@), lowercase_of(context)),
    ensures
        !suspicious_number_spec(context, sources),
{
    assert(quoted_in_sources(context, sources));
}

// ---------------------------------------------------------------------------
// The steps of answering a request
// ---------------------------------------------------------------------------

/// Answering a request always comes to an end: every step that does something
/// moves to a stage with fewer steps left, and once done nothing more is done.
pub proof fn law_answering_progresses(stage: RagStage, event: RagEvent, response_cache: bool, offline_mode: bool)
    ensures
        ({
            let (next, action) = rag_next_spec(stage, event, response_cache, offline_mode);
            &&& action != RagAction::Ignore ==> stage_rank(next) < stage_rank(stage)
            &&& stage == RagStage::Done ==> action == RagAction::Ignore && next == RagStage::Done
        }),
{
}

/// A cached answer is served only after the cache was consulted and held it,
/// an answer is kept in the cache only where answers are cached, and the
/// offline answer is given only in offline mode, after the question could not
/// be embedded or answered.
pub proof fn law_cache_and_offline_answers(stage: RagStage, event: RagEvent, response_cache: bool, offline_mode: bool)
    ensures
        ({
            let (next, action) = rag_next_spec(stage, event, response_cache, offline_mode);
            &&& action == RagAction::ServeCached ==> stage == RagStage::AwaitCache && event == RagEvent::CacheHit
            &&& action == (RagAction::Deliver { cache_answer: true }) ==> response_cache
            &&& action == RagAction::LookUpCache ==> response_cache
            &&& action == RagAction::ServeOffline ==> offline_mode
                && (event == RagEvent::EmbeddingFailed || event == RagEvent::AnswerFailed)
        }),
{
}

// ---------------------------------------------------------------------------
// Writes to a cache
// ---------------------------------------------------------------------------

/// A write keeps what the cache held under every other key, except, where the
/// cache was full, the one value stored longest ago.
pub proof fn law_write_keeps_other_values<V>(
    before: Map<Seq<char>, (V, i64)>,
    after: Map<Seq<char>, (V, i64)>,
    key: Seq<char>,
    value: V,
    now_ms: i64,
    full: bool,
)
    requires
        after_insert(before, after, key, value, now_ms, full),
    ensures
        after.contains_key(key) && after[key] == (value, now_ms),
        !full ==> forall|k: Seq<char>| k != key && #[trigger] before.contains_key(k)
            ==> after.contains_key(k) && after[k] == before[k],
        full ==> exists|e: Seq<char>| #[trigger] oldest(before, e) && forall|k: Seq<char>|
            k != key && k != e && #[trigger] before.contains_key(k) ==> after.contains_key(k) && after[k] == before[k],
{
    if full {
        let e = choose|e: Seq<char>| #[trigger] oldest(before, e) && after == before.remove(e).insert(key, (value, now_ms));
        assert(oldest(before, e));
    }
}

// ---------------------------------------------------------------------------
// Fallback after repeated failures
// ---------------------------------------------------------------------------

/// How many of the steps recorded a failure.
pub open spec fn failures_recorded(recorded: Seq<bool>) -> nat
    decreases recorded.len(),
{
    if recorded.len() == 0 {
        0
    } else {
        failures_recorded(recorded.drop_last()) + if recorded.last() { 1nat } else { 0nat }
    }
}

/// A service is passed over for its fallback exactly when three or more of
/// its failures have been recorded since it had none: over handlers `hs`, the
/// first with no failure of `service` (as `FallbackHandler::new` makes it),
/// each next one made from the one before by a call of
/// `FallbackHandler::record_failure`, for `service` where `recorded` says so
/// (one failure more) and for another service elsewhere (no change, as
/// `record_failure` ensures), the last counts the failures recorded for
/// `service`, and turns to the fallback exactly when they are three or more.
pub proof fn law_fallback_after_three_failures(hs: Seq<FallbackHandler>, recorded: Seq<bool>, service: Seq<char>)
    requires
        hs.len() == recorded.len() + 1,
        hs[0].failures(service) == 0,
        forall|k: int| 0 <= k < recorded.len() ==>
            #[trigger] hs[k + 1].failures(service) == hs[k].failures(service) + if recorded[k] { 1nat } else { 0nat },
    ensures
        hs.last().failures(service) == failures_recorded(recorded),
        (hs.last().failures(service) >= FALLBACK_AFTER_FAILURES) == (failures_recorded(recorded) >= 3),
    decreases recorded.len(),
{
    if recorded.len() > 0 {
        let k = recorded.len() - 1;
        law_fallback_after_three_failures(hs.drop_last(), recorded.drop_last(), service);
        assert(hs.drop_last().last() == hs[k]);
        assert(hs[k + 1].failures(service) == hs[k].failures(service) + if recorded[k] { 1nat } else { 0nat });
    }
}

} // verus!
