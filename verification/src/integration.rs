//! The parts of the integration service that decide: its configuration, the
//! filter built from a request, the context given to the model, and the
//! handler that turns to a fallback after repeated failures of a service.
use vstd::prelude::*;
use std::collections::HashMap;
use crate::clock::instant_now;
use crate::hugging_face::HuggingFaceConfig;
use crate::religious_query::push_text;
use crate::text::{chars_of, decimal, push_decimal, push_str, string_from_chars, string_views, to_string, vec_eq};
use crate::config as settings;
use crate::vector_store::{DistanceMetric, VectorDatabaseConfig, VectorFilter};

verus! {

// ---------------------------------------------------------------------------
// Configuration
// ---------------------------------------------------------------------------

/// What the service caches, for how long (in seconds), and how much.
#[derive(Debug, Clone)]
pub struct CacheConfig {
    pub enable_query_cache: bool,
    pub enable_response_cache: bool,
    pub enable_embedding_cache: bool,
    pub query_cache_ttl_seconds: u64,
    pub response_cache_ttl_seconds: u64,
    pub embedding_cache_ttl_seconds: u64,
    pub max_cache_size: usize,
    pub redis_url: Option<String>,
}

impl Default for CacheConfig {
    /// Every cache on: queries for an hour, responses for half an hour,
    /// embeddings for two hours, ten thousand entries, no Redis.
    fn default() -> (r: Self)
        ensures
            r.enable_query_cache && r.enable_response_cache && r.enable_embedding_cache,
            r.query_cache_ttl_seconds == 3600,
            r.response_cache_ttl_seconds == 1800,
            r.embedding_cache_ttl_seconds == 7200,
            r.max_cache_size == 10000,
            r.redis_url is None,
    {
        CacheConfig {
            enable_query_cache: true,
            enable_response_cache: true,
            enable_embedding_cache: true,
            query_cache_ttl_seconds: 3600,
            response_cache_ttl_seconds: 1800,
            embedding_cache_ttl_seconds: 7200,
            max_cache_size: 10000,
            redis_url: None,
        }
    }
}

/// How the service falls back when a model fails; the delay is in seconds.
#[derive(Debug, Clone)]
pub struct FallbackConfig {
    pub enable_fallback: bool,
    pub fallback_models: Vec<String>,
    pub max_fallback_attempts: u32,
    pub fallback_delay_seconds: u64,
    pub enable_offline_mode: bool,
    pub offline_responses: HashMap<String, String>,
}

impl Default for FallbackConfig {
    /// Fallback on, to two Arabic models, three attempts two seconds apart,
    /// offline mode on with a default answer.
    fn default() -> (r: Self)
        ensures
            r.enable_fallback,
            string_views(r.fallback_models@) == seq![
                "aubmindlab/bert-base-arabertv02"@,
                "CAMeL-Lab/bert-base-arabic-camelbert-mix"@,
            ],
            r.max_fallback_attempts == 3,
            r.fallback_delay_seconds == 2,
            r.enable_offline_mode,
    {
        let mut offline_responses: HashMap<String, String> = HashMap::new();
        offline_responses.insert(
            to_string("default"),
            to_string("عذراً، الخدمة غير متاحة حالياً. يرجى المحاولة لاحقاً أو استشارة العلماء المختصين."),
        );
        let mut fallback_models: Vec<String> = Vec::new();
        push_text(&mut fallback_models, "aubmindlab/bert-base-arabertv02");
        push_text(&mut fallback_models, "CAMeL-Lab/bert-base-arabic-camelbert-mix");
        FallbackConfig {
            enable_fallback: true,
            fallback_models,
            max_fallback_attempts: 3,
            fallback_delay_seconds: 2,
            enable_offline_mode: true,
            offline_responses,
        }
    }
}

/// Limits on the rate of requests.
#[derive(Debug, Clone, Copy, PartialEq, Eq, Structural)]
pub struct RateLimitConfig {
    pub requests_per_minute: u32,
    pub requests_per_hour: u32,
    pub burst_limit: u32,
    pub enable_adaptive_rate_limiting: bool,
}

impl Default for RateLimitConfig {
    /// Sixty a minute, a thousand an hour, bursts of ten, adaptive.
    fn default() -> (r: Self)
        ensures
            r.requests_per_minute == 60,
            r.requests_per_hour == 1000,
            r.burst_limit == 10,
            r.enable_adaptive_rate_limiting,
    {
        RateLimitConfig {
            requests_per_minute: 60,
            requests_per_hour: 1000,
            burst_limit: 10,
            enable_adaptive_rate_limiting: true,
        }
    }
}

/// The configuration of the integration service.
#[derive(Debug, Clone)]
pub struct IntegrationConfig {
    pub hugging_face: HuggingFaceConfig,
    pub vector_database: VectorDatabaseConfig,
    pub cache: CacheConfig,
    pub fallback: FallbackConfig,
    pub rate_limiting: RateLimitConfig,
}

impl IntegrationConfig {
    /// The standard configuration around a given model-hosting configuration.
    pub fn with_hugging_face(hugging_face: HuggingFaceConfig) -> (r: Self)
        ensures
            r.hugging_face.api_key@ == hugging_face.api_key@,
            r.vector_database.batch_size == 100,
            r.cache.max_cache_size == 10000,
            r.fallback.max_fallback_attempts == 3,
            r.rate_limiting.requests_per_minute == 60,
    {
        IntegrationConfig {
            hugging_face,
            vector_database: VectorDatabaseConfig::default(),
            cache: CacheConfig::default(),
            fallback: FallbackConfig::default(),
            rate_limiting: RateLimitConfig::default(),
        }
    }
}

/// The distance named in the settings: cosine, Euclidean or dot product, and
/// cosine for any other name.
pub open spec fn distance_metric_spec(name: Seq<char>) -> DistanceMetric {
    if name == "Euclidean"@ {
        DistanceMetric::Euclidean
    } else if name == "Dot"@ {
        DistanceMetric::Dot
    } else {
        DistanceMetric::Cosine
    }
}

/// The distance named in the settings (see `distance_metric_spec`).
pub fn distance_metric_from_name(name: &str) -> (r: DistanceMetric)
    ensures
        r == distance_metric_spec(name@),
{
    if crate::text::str_eq(name, "Euclidean") {
        DistanceMetric::Euclidean
    } else if crate::text::str_eq(name, "Dot") {
        DistanceMetric::Dot
    } else {
        DistanceMetric::Cosine
    }
}

/// The configuration of the integration service made from the service
/// settings: the hosting configuration as given, and the database, cache,
/// fall-back and rate settings carried over field by field (the Redis address
/// where Redis is set up).
pub fn build_integration_config(
    hugging_face: HuggingFaceConfig,
    vector_database: &settings::VectorDatabaseConfig,
    cache: &settings::CacheConfig,
    fallback: &settings::FallbackConfig,
    rate_limiting: &settings::RateLimitConfig,
) -> (r: IntegrationConfig)
    ensures
        r.hugging_face.api_key@ == hugging_face.api_key@,
        r.hugging_face.base_url@ == hugging_face.base_url@,
        r.vector_database.host@ == vector_database.host@,
        r.vector_database.port == vector_database.port,
        r.vector_database.collection_name@ == vector_database.collection_name@,
        r.vector_database.vector_size == vector_database.vector_size,
        r.vector_database.distance_metric == distance_metric_spec(vector_database.distance_metric@),
        r.vector_database.timeout_seconds == vector_database.timeout_seconds,
        r.vector_database.max_retries == vector_database.max_retries,
        r.vector_database.batch_size == vector_database.batch_size,
        r.cache.enable_query_cache == cache.enable_query_cache,
        r.cache.enable_response_cache == cache.enable_response_cache,
        r.cache.enable_embedding_cache == cache.enable_embedding_cache,
        r.cache.query_cache_ttl_seconds == cache.query_cache_ttl_seconds,
        r.cache.response_cache_ttl_seconds == cache.response_cache_ttl_seconds,
        r.cache.embedding_cache_ttl_seconds == cache.embedding_cache_ttl_seconds,
        r.cache.max_cache_size == cache.max_cache_size,
        match (cache.redis, r.cache.redis_url) {
            (Some(redis), Some(url)) => url@ == redis.url@,
            (None, None) => true,
            _ => false,
        },
        r.fallback.enable_fallback == fallback.enable_fallback,
        string_views(r.fallback.fallback_models@) == string_views(fallback.fallback_models@),
        r.fallback.max_fallback_attempts == fallback.max_fallback_attempts,
        r.fallback.fallback_delay_seconds == fallback.fallback_delay_seconds,
        r.fallback.enable_offline_mode == fallback.enable_offline_mode,
        r.fallback.offline_responses@ == fallback.offline_responses@,
        r.rate_limiting.requests_per_minute == rate_limiting.requests_per_minute,
        r.rate_limiting.requests_per_hour == rate_limiting.requests_per_hour,
        r.rate_limiting.burst_limit == rate_limiting.burst_limit,
        r.rate_limiting.enable_adaptive_rate_limiting == rate_limiting.enable_adaptive_rate_limiting,
{
    let distance_metric = distance_metric_from_name(vector_database.distance_metric.as_str());
    IntegrationConfig {
        hugging_face,
        vector_database: VectorDatabaseConfig {
            host: vector_database.host.clone(),
            port: vector_database.port,
            collection_name: vector_database.collection_name.clone(),
            vector_size: vector_database.vector_size,
            distance_metric,
            timeout_seconds: vector_database.timeout_seconds,
            max_retries: vector_database.max_retries,
            batch_size: vector_database.batch_size,
        },
        cache: CacheConfig {
            enable_query_cache: cache.enable_query_cache,
            enable_response_cache: cache.enable_response_cache,
            enable_embedding_cache: cache.enable_embedding_cache,
            query_cache_ttl_seconds: cache.query_cache_ttl_seconds,
            response_cache_ttl_seconds: cache.response_cache_ttl_seconds,
            embedding_cache_ttl_seconds: cache.embedding_cache_ttl_seconds,
            max_cache_size: cache.max_cache_size,
            redis_url: match &cache.redis {
                Some(redis) => Some(redis.url.clone()),
                None => None,
            },
        },
        fallback: FallbackConfig {
            enable_fallback: fallback.enable_fallback,
            fallback_models: copy_string_list(&fallback.fallback_models),
            max_fallback_attempts: fallback.max_fallback_attempts,
            fallback_delay_seconds: fallback.fallback_delay_seconds,
            enable_offline_mode: fallback.enable_offline_mode,
            offline_responses: fallback.offline_responses.clone(),
        },
        rate_limiting: RateLimitConfig {
            requests_per_minute: rate_limiting.requests_per_minute,
            requests_per_hour: rate_limiting.requests_per_hour,
            burst_limit: rate_limiting.burst_limit,
            enable_adaptive_rate_limiting: rate_limiting.enable_adaptive_rate_limiting,
        },
    }
}

// ---------------------------------------------------------------------------
// The filter of a request
// ---------------------------------------------------------------------------

/// A copy of a list of strings.
fn copy_string_list(v: &Vec<String>) -> (r: Vec<String>)
    ensures
        string_views(r@) == string_views(v@),
{
    let mut r: Vec<String> = Vec::new();
    let mut i: usize = 0;
    while i < v.len()
        invariant
            i <= v.len(),
            string_views(r@) == string_views(v@).take(i as int),
        decreases v.len() - i,
    {
        let ghost before = string_views(r@);
        r.push(v[i].clone());
        assert(string_views(r@) =~= before.push(v@[i as int]@));
        assert(string_views(v@).take(i + 1) =~= string_views(v@).take(i as int).push(v@[i as int]@));
        i = i + 1;
    }
    assert(string_views(v@).take(v.len() as int) =~= string_views(v@));
    r
}

/// The models to try for an answer, in order: the default model, then the
/// fall-back models where fall-back is on.
pub open spec fn model_order_spec(default_model: Seq<char>, enable_fallback: bool, fallback_models: Seq<Seq<char>>) -> Seq<Seq<char>> {
    seq![default_model] + if enable_fallback { fallback_models } else { Seq::empty() }
}

/// The models to try for an answer (see `model_order_spec`).
pub fn model_order(default_model: &String, fallback: &FallbackConfig) -> (r: Vec<String>)
    ensures
        string_views(r@) == model_order_spec(default_model@, fallback.enable_fallback, string_views(fallback.fallback_models@)),
{
    let mut r: Vec<String> = Vec::new();
    r.push(default_model.clone());
    if fallback.enable_fallback {
        let mut i: usize = 0;
        while i < fallback.fallback_models.len()
            invariant
                i <= fallback.fallback_models.len(),
                string_views(r@) == seq![default_model@] + string_views(fallback.fallback_models@).take(i as int),
            decreases fallback.fallback_models.len() - i,
        {
            let ghost before = string_views(r@);
            r.push(fallback.fallback_models[i].clone());
            assert(string_views(r@) =~= before.push(fallback.fallback_models@[i as int]@));
            assert(string_views(fallback.fallback_models@).take(i + 1)
                =~= string_views(fallback.fallback_models@).take(i as int).push(fallback.fallback_models@[i as int]@));
            i = i + 1;
        }
        assert(string_views(fallback.fallback_models@).take(fallback.fallback_models.len() as int)
            =~= string_views(fallback.fallback_models@));
    } else {
        assert(string_views(r@) =~= seq![default_model@] + Seq::<Seq<char>>::empty());
    }
    r
}

/// The search filter of a request: its preferred source types and its
/// language; no filter where it names neither.
pub fn build_vector_filter(preferred_source_types: &Option<Vec<String>>, language: &Option<String>) -> (r: Option<VectorFilter>)
    ensures
        (preferred_source_types is None && language is None) <==> r is None,
        r matches Some(f) ==> {
            &&& f.sources is None && f.authors is None && f.authenticity_levels is None
            &&& f.date_range is None && f.metadata_filters is None
            &&& match (*preferred_source_types, f.content_types) {
                (Some(p), Some(c)) => string_views(c@) == string_views(p@),
                (None, None) => true,
                _ => false,
            }
            &&& match (*language, f.languages) {
                (Some(l), Some(ls)) => string_views(ls@) == seq![l@],
                (None, None) => true,
                _ => false,
            }
        },
{
    let content_types = match preferred_source_types {
        Some(p) => Some(copy_string_list(p)),
        None => None,
    };
    let languages = match language {
        Some(l) => {
            let mut v: Vec<String> = Vec::new();
            v.push(l.clone());
            assert(string_views(v@) =~= seq![l@]);
            Some(v)
        },
        None => None,
    };
    if content_types.is_some() || languages.is_some() {
        Some(VectorFilter {
            content_types,
            sources: None,
            authors: None,
            languages,
            authenticity_levels: None,
            date_range: None,
            metadata_filters: None,
        })
    } else {
        None
    }
}

// ---------------------------------------------------------------------------
// The context given to the model
// ---------------------------------------------------------------------------

/// What the context shows of a retrieved source.
#[derive(Debug, Clone)]
pub struct SourceSummary {
    pub reference: String,
    pub text: String,
    pub author: Option<String>,
    pub authenticity: String,
    pub source_type: String,
}

/// The lines of the source at position `k` (counted from zero): its number,
/// reference and text, its author where known, its authenticity and its type.
pub open spec fn summary_lines(k: nat, s: SourceSummary) -> Seq<char> {
    decimal(k + 1) + ". "@ + s.reference@ + " - "@ + s.text@ + "\n"@
        + match s.author {
            Some(a) => "   المؤلف: "@ + a@ + "\n"@,
            None => Seq::empty(),
        }
        + "   درجة الموثوقية: "@ + s.authenticity@ + "\n"@
        + "   نوع المصدر: "@ + s.source_type@ + "\n"@ + "\n"@
}

/// The lines of the sources, in order.
pub open spec fn summaries_block(ss: Seq<SourceSummary>) -> Seq<char>
    decreases ss.len(),
{
    if ss.len() == 0 {
        Seq::empty()
    } else {
        summaries_block(ss.drop_last()) + summary_lines((ss.len() - 1) as nat, ss.last())
    }
}

/// The context given to the model: the system line, the asker's context where
/// given, the sources where there are any, the instructions, and the question.
pub open spec fn generation_context_spec(question: Seq<char>, context: Option<Seq<char>>, sources: Seq<SourceSummary>) -> Seq<char> {
    "أنت مساعد ذكي متخصص في الشؤون الإسلامية. أجب على الأسئلة بناءً على المصادر الإسلامية الموثوقة المرفقة فقط.\n\n"@
        + match context {
            Some(c) => "السياق:\n"@ + c + "\n\n"@,
            None => Seq::empty(),
        }
        + (if sources.len() > 0 { "المصادر الموثوقة:\n"@ + summaries_block(sources) } else { Seq::empty() })
        + "تعليمات مهمة:\n"@ + "- أجب بناءً على المصادر المرفقة فقط\n"@ + "- لا تختلق آيات أو أحاديث\n"@
        + "- إذا لم تجد إجابة في المصادر، قل ذلك صراحة\n"@ + "- اذكر المصادر في نهاية الإجابة\n"@
        + "- استخدم لغة واضحة ومفهومة\n\n"@
        + "السؤال: "@ + question + "\n\nالإجابة: "@
}

/// Appends the lines of one source (see `summary_lines`).
fn push_summary_lines(v: &mut Vec<char>, k: usize, s: &SourceSummary)
    requires
        k < usize::MAX,
    ensures
        final(v)@ == old(v)@ + summary_lines(k as nat, *s),
{
    push_decimal(v, k + 1);
    push_str(v, ". ");
    push_str(v, s.reference.as_str());
    push_str(v, " - ");
    push_str(v, s.text.as_str());
    push_str(v, "\n");
    let ghost mid = v@;
    match &s.author {
        Some(a) => {
            push_str(v, "   المؤلف: ");
            push_str(v, a.as_str());
            push_str(v, "\n");
        },
        None => {},
    }
    assert(v@ =~= mid + match s.author {
        Some(a) => "   المؤلف: "@ + a@ + "\n"@,
        None => Seq::<char>::empty(),
    });
    push_str(v, "   درجة الموثوقية: ");
    push_str(v, s.authenticity.as_str());
    push_str(v, "\n");
    push_str(v, "   نوع المصدر: ");
    push_str(v, s.source_type.as_str());
    push_str(v, "\n");
    push_str(v, "\n");
    assert(v@ =~= old(v)@ + summary_lines(k as nat, *s));
}

/// The context given to the model (see `generation_context_spec`).
pub fn build_context_for_generation(question: &str, context: &Option<String>, sources: &Vec<SourceSummary>) -> (r: String)
    ensures
        r@ == generation_context_spec(
            question@,
            match *context {
                Some(c) => Some(c@),
                None => None,
            },
            sources@,
        ),
{
    let mut v: Vec<char> = Vec::new();
    push_str(&mut v, "أنت مساعد ذكي متخصص في الشؤون الإسلامية. أجب على الأسئلة بناءً على المصادر الإسلامية الموثوقة المرفقة فقط.\n\n");
    match context {
        Some(c) => {
            push_str(&mut v, "السياق:\n");
            push_str(&mut v, c.as_str());
            push_str(&mut v, "\n\n");
        },
        None => {},
    }
    let ghost a = v@;
    let ghost ss = sources@;
    if sources.len() > 0 {
        push_str(&mut v, "المصادر الموثوقة:\n");
        let ghost start = v@;
        let mut i: usize = 0;
        while i < sources.len()
            invariant
                i <= sources.len(),
                ss == sources@,
                v@ == start + summaries_block(ss.take(i as int)),
            decreases sources.len() - i,
        {
            proof {
                assert(ss.take(i + 1).drop_last() =~= ss.take(i as int));
                assert(ss.take(i + 1).last() == ss[i as int]);
            }
            push_summary_lines(&mut v, i, &sources[i]);
            assert(v@ =~= start + summaries_block(ss.take(i + 1)));
            i = i + 1;
        }
        assert(ss.take(sources.len() as int) =~= ss);
    }
    let ghost b = v@;
    assert(b =~= a + (if ss.len() > 0 { "المصادر الموثوقة:\n"@ + summaries_block(ss) } else { Seq::empty() }));
    push_str(&mut v, "تعليمات مهمة:\n");
    push_str(&mut v, "- أجب بناءً على المصادر المرفقة فقط\n");
    push_str(&mut v, "- لا تختلق آيات أو أحاديث\n");
    push_str(&mut v, "- إذا لم تجد إجابة في المصادر، قل ذلك صراحة\n");
    push_str(&mut v, "- اذكر المصادر في نهاية الإجابة\n");
    push_str(&mut v, "- استخدم لغة واضحة ومفهومة\n\n");
    push_str(&mut v, "السؤال: ");
    push_str(&mut v, question);
    push_str(&mut v, "\n\nالإجابة: ");
    string_from_chars(&v)
}

// ---------------------------------------------------------------------------
// Fallback after repeated failures
// ---------------------------------------------------------------------------

/// The failures after which a service is passed over for its fallback.
pub const FALLBACK_AFTER_FAILURES: u32 = 3;

/// Counts the failures of each service and turns to a fallback after three.
pub struct FallbackHandler {
    pub config: FallbackConfig,
    /// For each service that failed, its failures; no service occurs twice.
    pub failure_counts: Vec<(String, u32)>,
    /// For each service that failed, when it last failed.
    pub last_failure_times: Vec<(String, std::time::Instant)>,
}

/// The failures recorded for `service`: those of its entry, or none.
pub open spec fn failures_of(counts: Seq<(String, u32)>, service: Seq<char>) -> nat {
    if exists|i: int| 0 <= i < counts.len() && counts[i].0@ == service {
        counts[choose|i: int| 0 <= i < counts.len() && counts[i].0@ == service].1 as nat
    } else {
        0
    }
}

/// No service has two entries.
pub open spec fn distinct_services<T>(counts: Seq<(String, T)>) -> bool {
    forall|i: int, j: int| 0 <= i < j < counts.len() ==> (#[trigger] counts[i]).0@ != (#[trigger] counts[j]).0@
}

/// With distinct services, the failures of a service are those of its entry.
proof fn lemma_failures_at(counts: Seq<(String, u32)>, i: int)
    requires
        distinct_services(counts),
        0 <= i < counts.len(),
    ensures
        failures_of(counts, counts[i].0@) == counts[i].1 as nat,
{
    let s = counts[i].0@;
    let j = choose|j: int| 0 <= j < counts.len() && counts[j].0@ == s;
    if j != i {
        if j < i {
            assert(counts[j].0@ != counts[i].0@);
        } else {
            assert(counts[i].0@ != counts[j].0@);
        }
    }
}

/// The position of `service` in a table of services.
fn find_service<T>(table: &Vec<(String, T)>, service: &str) -> (r: Option<usize>)
    ensures
        match r {
            Some(i) => i < table@.len() && table@[i as int].0@ == service@,
            None => forall|i: int| 0 <= i < table@.len() ==> table@[i].0@ != service@,
        },
{
    let sc = chars_of(service);
    let mut i: usize = 0;
    while i < table.len()
        invariant
            i <= table.len(),
            sc@ == service@,
            forall|k: int| 0 <= k < i ==> table@[k].0@ != service@,
        decreases table.len() - i,
    {
        let ec = chars_of(table[i].0.as_str());
        if vec_eq(&ec, &sc) {
            return Some(i);
        }
        i = i + 1;
    }
    None
}

impl FallbackHandler {
    /// The tables have distinct services.
    pub open spec fn wf(&self) -> bool {
        distinct_services(self.failure_counts@) && distinct_services(self.last_failure_times@)
    }

    /// The failures recorded for `service`.
    pub open spec fn failures(&self, service: Seq<char>) -> nat {
        failures_of(self.failure_counts@, service)
    }

    /// A handler with no failure recorded.
    pub fn new(config: FallbackConfig) -> (r: Self)
        ensures
            r.wf(),
            r.config == config,
            r.failure_counts@.len() == 0,
            r.last_failure_times@.len() == 0,
            forall|s: Seq<char>| r.failures(s) == 0,
    {
        FallbackHandler { config, failure_counts: Vec::new(), last_failure_times: Vec::new() }
    }

    /// Records one more failure of `service`, at the present time.
    pub fn record_failure(&mut self, service: &str)
        requires
            old(self).wf(),
            old(self).failures(service@) < u32::MAX,
        ensures
            final(self).wf(),
            final(self).failures(service@) == old(self).failures(service@) + 1,
            forall|s: Seq<char>| s != service@ ==> final(self).failures(s) == old(self).failures(s),
    {
        let ghost old_counts = self.failure_counts@;
        match find_service(&self.failure_counts, service) {
            Some(i) => {
                proof {
                    lemma_failures_at(old_counts, i as int);
                }
                let count = self.failure_counts[i].1;
                let name = self.failure_counts[i].0.clone();
                self.failure_counts.set(i, (name, count + 1));
                proof {
                    let nc = self.failure_counts@;
                    assert(nc =~= old_counts.update(i as int, (old_counts[i as int].0, (count + 1) as u32)));
                    assert(distinct_services(nc)) by {
                        assert forall|a: int, b: int| 0 <= a < b < nc.len() implies (#[trigger] nc[a]).0@ != (#[trigger] nc[b]).0@ by {
                            assert(old_counts[a].0@ != old_counts[b].0@);
                        }
                    }
                    lemma_failures_at(nc, i as int);
                    assert forall|s: Seq<char>| s != service@ implies failures_of(nc, s) == failures_of(old_counts, s) by {
                        if exists|k: int| 0 <= k < old_counts.len() && old_counts[k].0@ == s {
                            let k = choose|k: int| 0 <= k < old_counts.len() && old_counts[k].0@ == s;
                            lemma_failures_at(old_counts, k);
                            assert(nc[k].0@ == s);
                            lemma_failures_at(nc, k);
                        } else {
                            assert forall|k: int| 0 <= k < nc.len() implies nc[k].0@ != s by {
                                assert(old_counts[k].0@ != s);
                            }
                        }
                    }
                }
            },
            None => {
                self.failure_counts.push((crate::text::to_string(service), 1));
                proof {
                    let nc = self.failure_counts@;
                    let n = old_counts.len() as int;
                    assert(nc =~= old_counts.push(nc[n]));
                    assert(distinct_services(nc)) by {
                        assert forall|a: int, b: int| 0 <= a < b < nc.len() implies (#[trigger] nc[a]).0@ != (#[trigger] nc[b]).0@ by {
                            if b < n {
                                assert(old_counts[a].0@ != old_counts[b].0@);
                            }
                        }
                    }
                    lemma_failures_at(nc, n);
                    assert(!(exists|k: int| 0 <= k < old_counts.len() && old_counts[k].0@ == service@));
                    assert forall|s: Seq<char>| s != service@ implies failures_of(nc, s) == failures_of(old_counts, s) by {
                        if exists|k: int| 0 <= k < old_counts.len() && old_counts[k].0@ == s {
                            let k = choose|k: int| 0 <= k < old_counts.len() && old_counts[k].0@ == s;
                            lemma_failures_at(old_counts, k);
                            assert(nc[k].0@ == s);
                            lemma_failures_at(nc, k);
                        } else {
                            assert forall|k: int| 0 <= k < nc.len() implies nc[k].0@ != s by {
                                if k < n {
                                    assert(old_counts[k].0@ != s);
                                }
                            }
                        }
                    }
                }
            },
        }
        self.record_failure_time(service);
    }

    /// Records the present time as the last failure of `service`.
    fn record_failure_time(&mut self, service: &str)
        requires
            distinct_services(old(self).last_failure_times@),
        ensures
            distinct_services(final(self).last_failure_times@),
            final(self).failure_counts@ == old(self).failure_counts@,
            final(self).config == old(self).config,
            exists|i: int| 0 <= i < final(self).last_failure_times@.len()
                && #[trigger] final(self).last_failure_times@[i].0@ == service@,
            old(self).last_failure_times@.len() <= final(self).last_failure_times@.len()
                <= old(self).last_failure_times@.len() + 1,
            forall|k: int| 0 <= k < old(self).last_failure_times@.len() ==> {
                &&& (#[trigger] final(self).last_failure_times@[k]).0@ == old(self).last_failure_times@[k].0@
                &&& old(self).last_failure_times@[k].0@ != service@ ==> final(self).last_failure_times@[k]
                    == old(self).last_failure_times@[k]
            },
            forall|k: int| old(self).last_failure_times@.len() <= k < final(self).last_failure_times@.len()
                ==> (#[trigger] final(self).last_failure_times@[k]).0@ == service@,
    {
        let now = instant_now();
        let ghost old_times = self.last_failure_times@;
        match find_service(&self.last_failure_times, service) {
            Some(i) => {
                let name = self.last_failure_times[i].0.clone();
                self.last_failure_times.set(i, (name, now));
                proof {
                    let nt = self.last_failure_times@;
                    assert forall|a: int, b: int| 0 <= a < b < nt.len() implies (#[trigger] nt[a]).0@ != (#[trigger] nt[b]).0@ by {
                        assert(old_times[a].0@ != old_times[b].0@);
                    }
                    assert(nt[i as int].0@ == service@);
                }
            },
            None => {
                self.last_failure_times.push((crate::text::to_string(service), now));
                proof {
                    let nt = self.last_failure_times@;
                    let n = old_times.len() as int;
                    assert forall|a: int, b: int| 0 <= a < b < nt.len() implies (#[trigger] nt[a]).0@ != (#[trigger] nt[b]).0@ by {
                        if b < n {
                            assert(old_times[a].0@ != old_times[b].0@);
                        }
                    }
                    assert(nt[n].0@ == service@);
                }
            },
        }
    }

    /// Whether `service` is passed over for its fallback: after three
    /// failures.
    pub fn should_use_fallback(&self, service: &str) -> (r: bool)
        requires
            self.wf(),
        ensures
            r == (self.failures(service@) >= FALLBACK_AFTER_FAILURES),
    {
        match find_service(&self.failure_counts, service) {
            Some(i) => {
                proof {
                    lemma_failures_at(self.failure_counts@, i as int);
                }
                self.failure_counts[i].1 >= FALLBACK_AFTER_FAILURES
            },
            None => false,
        }
    }
}


// ---------------------------------------------------------------------------
// The steps of answering a request
// ---------------------------------------------------------------------------

/// Where the answering of a request stands.
#[derive(Debug, Clone, Copy, PartialEq, Eq, Structural)]
pub enum RagStage {
    Start,
    AwaitCache,
    AwaitEmbedding,
    AwaitSearch,
    AwaitAnswer,
    Done,
}

/// What the last outside step gave.
#[derive(Debug, Clone, Copy, PartialEq, Eq, Structural)]
pub enum RagEvent {
    Begin,
    CacheHit,
    CacheMiss,
    EmbeddingReady,
    EmbeddingFailed,
    SearchDone,
    SearchFailed,
    AnswerReady,
    AnswerFailed,
}

/// What to do next: look the answer up in the cache, embed the question,
/// search the database, generate the answer (noting that the search failed,
/// so that the answer goes without sources and with a warning), serve the
/// cached answer, serve the offline answer, fail with the error of the last
/// step, deliver the answer (keeping it in the cache or not), or nothing for
/// an event that does not belong to the stage.
#[derive(Debug, Clone, Copy, PartialEq, Eq, Structural)]
pub enum RagAction {
    LookUpCache,
    Embed,
    Search,
    Generate { search_failed: bool },
    ServeCached,
    ServeOffline,
    Fail,
    Deliver { cache_answer: bool },
    Ignore,
}

/// The step after `event` at `stage`: the cache is consulted first where
/// answers are cached; a failure to embed the question or to generate the
/// answer gives the offline answer where offline mode is on and the error
/// otherwise; a failed search lets the answer go on without sources; a
/// generated answer is delivered, and kept where answers are cached.
pub open spec fn rag_next_spec(stage: RagStage, event: RagEvent, response_cache: bool, offline_mode: bool) -> (RagStage, RagAction) {
    let failed = if offline_mode { RagAction::ServeOffline } else { RagAction::Fail };
    match (stage, event) {
        (RagStage::Start, RagEvent::Begin) => if response_cache {
            (RagStage::AwaitCache, RagAction::LookUpCache)
        } else {
            (RagStage::AwaitEmbedding, RagAction::Embed)
        },
        (RagStage::AwaitCache, RagEvent::CacheHit) => (RagStage::Done, RagAction::ServeCached),
        (RagStage::AwaitCache, RagEvent::CacheMiss) => (RagStage::AwaitEmbedding, RagAction::Embed),
        (RagStage::AwaitEmbedding, RagEvent::EmbeddingReady) => (RagStage::AwaitSearch, RagAction::Search),
        (RagStage::AwaitEmbedding, RagEvent::EmbeddingFailed) => (RagStage::Done, failed),
        (RagStage::AwaitSearch, RagEvent::SearchDone) => (RagStage::AwaitAnswer, RagAction::Generate { search_failed: false }),
        (RagStage::AwaitSearch, RagEvent::SearchFailed) => (RagStage::AwaitAnswer, RagAction::Generate { search_failed: true }),
        (RagStage::AwaitAnswer, RagEvent::AnswerReady) => (RagStage::Done, RagAction::Deliver { cache_answer: response_cache }),
        (RagStage::AwaitAnswer, RagEvent::AnswerFailed) => (RagStage::Done, failed),
        _ => (stage, RagAction::Ignore),
    }
}

/// The step after `event` at `stage` (see `rag_next_spec`).
pub fn rag_next(stage: RagStage, event: RagEvent, response_cache: bool, offline_mode: bool) -> (r: (RagStage, RagAction))
    ensures
        r == rag_next_spec(stage, event, response_cache, offline_mode),
{
    let failed = if offline_mode { RagAction::ServeOffline } else { RagAction::Fail };
    match (stage, event) {
        (RagStage::Start, RagEvent::Begin) => if response_cache {
            (RagStage::AwaitCache, RagAction::LookUpCache)
        } else {
            (RagStage::AwaitEmbedding, RagAction::Embed)
        },
        (RagStage::AwaitCache, RagEvent::CacheHit) => (RagStage::Done, RagAction::ServeCached),
        (RagStage::AwaitCache, RagEvent::CacheMiss) => (RagStage::AwaitEmbedding, RagAction::Embed),
        (RagStage::AwaitEmbedding, RagEvent::EmbeddingReady) => (RagStage::AwaitSearch, RagAction::Search),
        (RagStage::AwaitEmbedding, RagEvent::EmbeddingFailed) => (RagStage::Done, failed),
        (RagStage::AwaitSearch, RagEvent::SearchDone) => (RagStage::AwaitAnswer, RagAction::Generate { search_failed: false }),
        (RagStage::AwaitSearch, RagEvent::SearchFailed) => (RagStage::AwaitAnswer, RagAction::Generate { search_failed: true }),
        (RagStage::AwaitAnswer, RagEvent::AnswerReady) => (RagStage::Done, RagAction::Deliver { cache_answer: response_cache }),
        (RagStage::AwaitAnswer, RagEvent::AnswerFailed) => (RagStage::Done, failed),
        _ => (stage, RagAction::Ignore),
    }
}

/// How many outside steps at most are left from a stage.
pub open spec fn stage_rank(stage: RagStage) -> nat {
    match stage {
        RagStage::Start => 5,
        RagStage::AwaitCache => 4,
        RagStage::AwaitEmbedding => 3,
        RagStage::AwaitSearch => 2,
        RagStage::AwaitAnswer => 1,
        RagStage::Done => 0,
    }
}

/// The warning of an answer made without the database's sources.
pub open spec fn search_failed_warning() -> Seq<char> {
    "Vector search failed, using fallback"@
}

/// The warnings of an answer: one when the search failed.
pub fn answer_warnings(search_failed: bool) -> (r: Vec<String>)
    ensures
        string_views(r@) == if search_failed { seq![search_failed_warning()] } else { Seq::<Seq<char>>::empty() },
{
    let mut r: Vec<String> = Vec::new();
    if search_failed {
        push_text(&mut r, "Vector search failed, using fallback");
    }
    assert(string_views(r@) =~= if search_failed { seq![search_failed_warning()] } else { Seq::<Seq<char>>::empty() });
    r
}

// ---------------------------------------------------------------------------
// Health report
// ---------------------------------------------------------------------------

/// The health of the outside services as the integration service reports it.
/// Each status is one of "healthy", "degraded", "loading", "unhealthy" and
/// "unknown"; `last_check` is in Unix seconds.
#[derive(Debug, Clone)]
pub struct ServiceHealthStatus {
    pub overall_status: String,
    pub hugging_face_status: String,
    pub vector_db_status: String,
    pub cache_status: String,
    pub last_check: i64,
    pub error_details: Vec<String>,
}

/// The model's status: healthy when it is ready, loading when it is not yet,
/// unhealthy when the status could not be had.
pub open spec fn model_status_text(model_ready: Result<bool, String>) -> Seq<char> {
    match model_ready {
        Ok(true) => "healthy"@,
        Ok(false) => "loading"@,
        Err(_) => "unhealthy"@,
    }
}

/// The database's status: healthy when its statistics could be read.
pub open spec fn database_status_text(vector_db: Result<(), String>) -> Seq<char> {
    match vector_db {
        Ok(_) => "healthy"@,
        Err(_) => "unhealthy"@,
    }
}

/// The cache's status: healthy or degraded.
pub open spec fn cache_status_text(cache_healthy: bool) -> Seq<char> {
    if cache_healthy { "healthy"@ } else { "degraded"@ }
}

/// The overall status: unhealthy when the model or the database is, else
/// degraded when the model is loading or the cache degraded, else healthy.
pub open spec fn overall_status_text(model: Seq<char>, database: Seq<char>, cache: Seq<char>) -> Seq<char> {
    if model == "unhealthy"@ || database == "unhealthy"@ {
        "unhealthy"@
    } else if model == "loading"@ || cache == "degraded"@ {
        "degraded"@
    } else {
        "healthy"@
    }
}

/// The errors reported: the model's first, then the database's, each named.
pub open spec fn health_errors(model_ready: Result<bool, String>, vector_db: Result<(), String>) -> Seq<Seq<char>> {
    let model_errors = match model_ready {
        Err(e) => seq!["Hugging Face: "@ + e@],
        Ok(_) => Seq::empty(),
    };
    let database_errors = match vector_db {
        Err(e) => seq!["Vector DB: "@ + e@],
        Ok(_) => Seq::empty(),
    };
    model_errors + database_errors
}

/// `label` followed by `detail`, as a `String`.
fn labelled(label: &str, detail: &String) -> (r: String)
    ensures
        r@ == label@ + detail@,
{
    let mut v: Vec<char> = Vec::new();
    push_str(&mut v, label);
    push_str(&mut v, detail.as_str());
    string_from_chars(&v)
}

/// The health report made from what the checks of the model (ready or not, or
/// the error), of the database (reachable, or the error) and of the cache gave.
pub fn assemble_health_status(
    model_ready: Result<bool, String>,
    vector_db: Result<(), String>,
    cache_healthy: bool,
    now: i64,
) -> (r: ServiceHealthStatus)
    ensures
        r.hugging_face_status@ == model_status_text(model_ready),
        r.vector_db_status@ == database_status_text(vector_db),
        r.cache_status@ == cache_status_text(cache_healthy),
        r.overall_status@ == overall_status_text(
            model_status_text(model_ready),
            database_status_text(vector_db),
            cache_status_text(cache_healthy),
        ),
        r.last_check == now,
        string_views(r.error_details@) == health_errors(model_ready, vector_db),
{
    let mut error_details: Vec<String> = Vec::new();
    let model_unhealthy: bool;
    let model_loading: bool;
    let hugging_face_status = match &model_ready {
        Ok(true) => {
            model_unhealthy = false;
            model_loading = false;
            to_string("healthy")
        },
        Ok(false) => {
            model_unhealthy = false;
            model_loading = true;
            to_string("loading")
        },
        Err(e) => {
            model_unhealthy = true;
            model_loading = false;
            error_details.push(labelled("Hugging Face: ", e));
            to_string("unhealthy")
        },
    };
    let database_unhealthy: bool;
    let vector_db_status = match &vector_db {
        Ok(_) => {
            database_unhealthy = false;
            to_string("healthy")
        },
        Err(e) => {
            database_unhealthy = true;
            error_details.push(labelled("Vector DB: ", e));
            to_string("unhealthy")
        },
    };
    let cache_status = if cache_healthy {
        to_string("healthy")
    } else {
        to_string("degraded")
    };
    proof {
        reveal_strlit("healthy");
        reveal_strlit("loading");
        reveal_strlit("unhealthy");
        reveal_strlit("degraded");
        assert(string_views(error_details@) =~= health_errors(model_ready, vector_db));
        assert("healthy"@.len() != "unhealthy"@.len());
        assert("loading"@.len() != "unhealthy"@.len());
        assert("healthy"@[0] != "loading"@[0]);
        assert("healthy"@.len() != "degraded"@.len());
    }
    let overall_status = if model_unhealthy || database_unhealthy {
        to_string("unhealthy")
    } else if model_loading || !cache_healthy {
        to_string("degraded")
    } else {
        to_string("healthy")
    };
    ServiceHealthStatus {
        overall_status,
        hugging_face_status,
        vector_db_status,
        cache_status,
        last_check: now,
        error_details,
    }
}

} // verus!
