use std::collections::HashMap;
use sanad_ai::multiple_viewpoints::{ControlversyLevel, IslamicMadhab};
use sanad_ai::prompt::{add_citations_to_response, build_prompt, estimate_token_count, format_source_header, simulated_answer};
use sanad_ai::rag::{
    filter_by_type_and_authenticity, filter_sources, generate_related_questions, meets_authenticity_requirement,
    ContextBuilder, EmbeddingService, ViewpointsOutline, VectorDatabaseClient,
};
use sanad_ai::types::{
    AIServiceError, AuthenticityLevel, ComplexityLevel, IslamicSource, Language, ProcessedQuestion, QuestionType,
    SourceType,
};

fn source(id: &str, content_type: SourceType, text: &str, authenticity: AuthenticityLevel) -> IslamicSource {
    IslamicSource {
        id: id.to_string(),
        content_type,
        text: text.to_string(),
        reference: "البقرة: 43".to_string(),
        author: None,
        authenticity,
        language: Language::Arabic,
        metadata: HashMap::new(),
        created_at: 0,
    }
}

fn fiqh_question() -> ProcessedQuestion {
    ProcessedQuestion {
        original_text: "ما حكم الصلاة؟".to_string(),
        normalized_text: "ما حكم الصلاة".to_string(),
        keywords: vec!["حكم".to_string(), "صلاة".to_string()],
        concepts: vec!["صلاة".to_string(), "فقه".to_string()],
        question_type: QuestionType::Fiqh,
        complexity_level: ComplexityLevel::Simple,
        language: Language::Arabic,
        is_controversial: false,
        requires_multiple_sources: false,
    }
}

#[test]
fn test_context_building() {
    let context_builder = ContextBuilder::new();
    let question = fiqh_question();
    let sources = vec![source("source_1", SourceType::Quran, "وأقيموا الصلاة", AuthenticityLevel::Verified)];
    let context = context_builder.build_context(&question, &sources);
    assert_eq!(context.question, question.original_text);
    assert!(!context.sources.is_empty());
    assert!(!context.instructions.is_empty());
    assert!(!context.constraints.is_empty());
    assert!(context.instructions.contains("الأدلة الشرعية"));
}

#[test]
fn context_takes_sources_while_they_fit() {
    let builder = ContextBuilder { max_context_length: 10 };
    let sources = vec![
        source("a", SourceType::Quran, "abcd", AuthenticityLevel::Verified),
        source("b", SourceType::Quran, "efgh", AuthenticityLevel::Verified),
        source("c", SourceType::Quran, "ijkl", AuthenticityLevel::Verified),
        source("d", SourceType::Quran, "m", AuthenticityLevel::Verified),
    ];
    let chosen = builder.select_context_sources(&sources);
    assert_eq!(chosen.iter().map(|s| s.id.clone()).collect::<Vec<_>>(), vec!["a".to_string(), "b".to_string()]);
}

#[test]
fn constraints_and_viewpoint_instructions() {
    let builder = ContextBuilder::new();
    let mut q = fiqh_question();
    q.language = Language::English;
    let constraints = builder.build_constraints(&q);
    assert_eq!(constraints.len(), 5);
    let outline = ViewpointsOutline {
        is_controversial: true,
        controversy_level: ControlversyLevel::Major,
        viewpoint_count: 2,
        madhabs_represented: vec![IslamicMadhab::Hanafi, IslamicMadhab::Maliki],
        has_consensus_areas: false,
    };
    let text = builder.build_instructions_with_viewpoints(&q, &Some(outline));
    assert!(text.contains("يوجد 2 وجهات نظر مختلفة في هذه المسألة. "));
    assert!(text.contains("المذاهب الممثلة: الحنفي، المالكي. "));
    assert!(!text.contains("ابدأ بنقاط الإجماع"));
    assert!(text.ends_with("اذكر المصادر في نهاية الإجابة."));
}

#[test]
fn authenticity_requirement_by_rank() {
    assert!(meets_authenticity_requirement(AuthenticityLevel::Verified, AuthenticityLevel::Reliable));
    assert!(meets_authenticity_requirement(AuthenticityLevel::Reliable, AuthenticityLevel::Reliable));
    assert!(!meets_authenticity_requirement(AuthenticityLevel::Unknown, AuthenticityLevel::Unreliable));
}

#[test]
fn filters_on_type_and_authenticity() {
    let sources = vec![
        source("q", SourceType::Quran, "x", AuthenticityLevel::Verified),
        source("t", SourceType::Tafsir, "y", AuthenticityLevel::Questionable),
        source("h", SourceType::SahihHadith, "z", AuthenticityLevel::Reliable),
    ];
    let kept = filter_by_type_and_authenticity(&sources, &vec![], AuthenticityLevel::Reliable);
    assert_eq!(kept.iter().map(|s| s.id.clone()).collect::<Vec<_>>(), vec!["q".to_string(), "h".to_string()]);
    let kept = filter_by_type_and_authenticity(&sources, &vec![SourceType::Tafsir], AuthenticityLevel::Unknown);
    assert_eq!(kept.len(), 1);
    assert_eq!(kept[0].id, "t");
}

#[test]
fn test_source_filtering() {
    let sources = vec![
        source("high_quality", SourceType::Quran, "آية قرآنية", AuthenticityLevel::Verified),
        source("low_quality", SourceType::MawduHadith, "حديث موضوع", AuthenticityLevel::Unreliable),
    ];
    let final_scores: Vec<f32> = vec![0.95, 0.2];
    let min_confidence_threshold: f32 = 0.7;
    let kinds: Vec<SourceType> = sources.iter().map(|s| s.content_type).collect();
    let above: Vec<bool> = final_scores.iter().map(|s| *s >= min_confidence_threshold).collect();
    let filtered = filter_sources(&kinds, &above, 10);
    assert!(filtered.is_ok());
    let kept = filtered.unwrap();
    let filtered_sources: Vec<&IslamicSource> = kept.iter().map(|i| &sources[*i]).collect();
    assert_eq!(filtered_sources.len(), 1);
    assert_eq!(filtered_sources[0].id, "high_quality");
}

#[test]
fn kept_sources_exclude_fabricated_and_stop_at_the_limit() {
    let kinds = vec![SourceType::Quran, SourceType::Tafsir, SourceType::MawduHadith];
    let above = vec![true, false, true];
    assert_eq!(filter_sources(&kinds, &above, 10).unwrap(), vec![0]);
    assert_eq!(
        filter_sources(&kinds, &vec![false, false, true], 10),
        Err(AIServiceError::SourceVerificationError(
            "لم يتم العثور على مصادر موثوقة كافية للإجابة على السؤال".to_string()
        ))
    );
    let many = vec![SourceType::Quran; 5];
    assert_eq!(filter_sources(&many, &vec![true; 5], 3).unwrap(), vec![0, 1, 2]);
}

#[test]
fn rag_related_questions_mention_the_sources() {
    let q = fiqh_question();
    let sources = vec![source("q", SourceType::Quran, "x", AuthenticityLevel::Verified)];
    let related = generate_related_questions(&q, &sources);
    assert!(related.len() <= 3);
    let mut sorted = related.clone();
    sorted.sort();
    sorted.dedup();
    assert_eq!(sorted, related);
}

#[test]
fn embedding_service_model() {
    assert_eq!(EmbeddingService::new().model_name, "sentence-transformers/paraphrase-multilingual-MiniLM-L12-v2");
}

#[test]
fn prompt_sections_in_order() {
    let builder = ContextBuilder::new();
    let q = fiqh_question();
    let sources = vec![source("q", SourceType::Quran, "وأقيموا الصلاة", AuthenticityLevel::Verified)];
    let context = builder.build_context(&q, &sources);
    let prompt = build_prompt(&context);
    assert!(prompt.starts_with(&context.instructions));
    assert!(prompt.contains("القيود والضوابط:\n- لا تختلق آيات أو أحاديث\n"));
    assert!(prompt.contains("المصادر المتاحة:\n1. القرآن الكريم (البقرة: 43)\n   النص: وأقيموا الصلاة\n\n"));
    assert!(prompt.ends_with("السؤال: ما حكم الصلاة؟\n\nالإجابة:"));
}

#[test]
fn headers_references_and_tokens() {
    let mut s = source("t", SourceType::Tafsir, "x", AuthenticityLevel::Verified);
    assert_eq!(format_source_header(&s), "تفسير");
    s.author = Some("الطبري".to_string());
    assert_eq!(format_source_header(&s), "تفسير الطبري");
    let with_refs = add_citations_to_response("جواب", &vec![s]);
    assert_eq!(with_refs, "جواب\n\n**المراجع:**\n1. تفسير الطبري: البقرة: 43\n");
    assert_eq!(add_citations_to_response("جواب", &vec![]), "جواب");
    assert_eq!(estimate_token_count("abcdefgh"), 2);
    assert_eq!(estimate_token_count("ab"), 1);
}

#[test]
fn simulated_model_answers_by_topic() {
    assert!(simulated_answer("ما هي أركان الإسلام").starts_with("أركان الإسلام خمسة"));
    assert!(simulated_answer("كيف الوضوء").starts_with("الوضوء هو"));
    assert!(simulated_answer("عن الصلاة").starts_with("الصلاة هي الركن الثاني"));
    assert!(simulated_answer("سؤال آخر").ends_with("والله أعلم."));
}

#[test]
fn simulated_search_returns_the_catalogue_in_order() {
    let client = VectorDatabaseClient::new();
    let found = client.similarity_search_at(2, 7);
    assert_eq!(found.len(), 2);
    assert_eq!(found[0].source.id, "quran_002_255");
    assert_eq!(found[0].similarity_hundredths, 95);
    assert_eq!(found[0].source.created_at, 7);
    assert_eq!(found[0].source.metadata.get("ayah_number").map(|s| s.as_str()), Some("255"));
    assert_eq!(found[1].source.author, Some("البخاري".to_string()));
    let all = client.similarity_search(50);
    assert_eq!(all.len(), 3);
    assert_eq!(all[2].source.id, "tafsir_ibn_kathir_002_255");
    assert_eq!(all[2].similarity_hundredths, 82);
}
