use sanad_ai::integration::{answer_warnings, rag_next, RagAction, RagEvent, RagStage};

#[test]
fn cached_answer_is_served_on_a_hit() {
    assert_eq!(rag_next(RagStage::Start, RagEvent::Begin, true, true), (RagStage::AwaitCache, RagAction::LookUpCache));
    assert_eq!(rag_next(RagStage::AwaitCache, RagEvent::CacheHit, true, true), (RagStage::Done, RagAction::ServeCached));
    assert_eq!(rag_next(RagStage::AwaitCache, RagEvent::CacheMiss, true, true), (RagStage::AwaitEmbedding, RagAction::Embed));
}

#[test]
fn without_a_cache_the_question_is_embedded_first() {
    assert_eq!(rag_next(RagStage::Start, RagEvent::Begin, false, true), (RagStage::AwaitEmbedding, RagAction::Embed));
}

#[test]
fn failures_give_the_offline_answer_or_the_error() {
    assert_eq!(rag_next(RagStage::AwaitEmbedding, RagEvent::EmbeddingFailed, true, true), (RagStage::Done, RagAction::ServeOffline));
    assert_eq!(rag_next(RagStage::AwaitEmbedding, RagEvent::EmbeddingFailed, true, false), (RagStage::Done, RagAction::Fail));
    assert_eq!(rag_next(RagStage::AwaitAnswer, RagEvent::AnswerFailed, false, true), (RagStage::Done, RagAction::ServeOffline));
    assert_eq!(rag_next(RagStage::AwaitAnswer, RagEvent::AnswerFailed, false, false), (RagStage::Done, RagAction::Fail));
}

#[test]
fn a_failed_search_still_answers_with_a_warning() {
    assert_eq!(
        rag_next(RagStage::AwaitSearch, RagEvent::SearchFailed, true, true),
        (RagStage::AwaitAnswer, RagAction::Generate { search_failed: true })
    );
    assert_eq!(answer_warnings(true), vec!["Vector search failed, using fallback".to_string()]);
    assert!(answer_warnings(false).is_empty());
}

#[test]
fn delivered_answer_is_cached_only_when_caching_is_on() {
    assert_eq!(
        rag_next(RagStage::AwaitAnswer, RagEvent::AnswerReady, true, false),
        (RagStage::Done, RagAction::Deliver { cache_answer: true })
    );
    assert_eq!(
        rag_next(RagStage::AwaitAnswer, RagEvent::AnswerReady, false, false),
        (RagStage::Done, RagAction::Deliver { cache_answer: false })
    );
}

#[test]
fn events_out_of_place_do_nothing() {
    assert_eq!(rag_next(RagStage::Done, RagEvent::Begin, true, true), (RagStage::Done, RagAction::Ignore));
    assert_eq!(rag_next(RagStage::AwaitSearch, RagEvent::CacheHit, true, true), (RagStage::AwaitSearch, RagAction::Ignore));
}
