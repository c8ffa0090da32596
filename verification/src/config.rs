//! Configuration of the AI service: vector database, caches, fall-back,
//! circuit breaker, rate limits and monitoring.
use vstd::prelude::*;
use std::collections::HashMap;
use crate::text::to_string;

verus! {

/// What a model is specialised in.
#[derive(Debug, Clone, Copy, PartialEq, Eq, Structural)]
pub enum ModelSpecialization {
    General,
    Quran,
    Hadith,
    Fiqh,
    Tafsir,
    Arabic,
}

/// Vector database settings.
#[derive(Debug, Clone)]
pub struct VectorDatabaseConfig {
    pub host: String,
    pub port: u16,
    pub collection_name: String,
    pub vector_size: usize,
    pub distance_metric: String,
    pub timeout_seconds: u64,
    pub max_retries: u32,
    pub batch_size: usize,
    pub index_settings: IndexSettings,
}

/// Index settings of the vector database.
#[derive(Debug, Clone, Copy)]
pub struct IndexSettings {
    pub hnsw_ef_construct: u32,
    pub hnsw_m: u32,
    pub quantization_enabled: bool,
    pub on_disk_payload: bool,
}

/// Cache settings.
#[derive(Debug, Clone)]
pub struct CacheConfig {
    pub enable_query_cache: bool,
    pub enable_response_cache: bool,
    pub enable_embedding_cache: bool,
    pub query_cache_ttl_seconds: u64,
    pub response_cache_ttl_seconds: u64,
    pub embedding_cache_ttl_seconds: u64,
    pub max_cache_size: usize,
    pub redis: Option<RedisConfig>,
    pub local_cache: LocalCacheConfig,
}

/// Redis settings.
#[derive(Debug, Clone)]
pub struct RedisConfig {
    pub url: String,
    pub pool_size: u32,
    pub timeout_seconds: u64,
    pub cluster_mode: bool,
    pub cluster_nodes: Vec<String>,
}

/// Local cache settings.
#[derive(Debug, Clone)]
pub struct LocalCacheConfig {
    pub max_memory_mb: usize,
    pub eviction_policy: String,
    pub compression_enabled: bool,
}

/// Fall-back settings.
#[derive(Debug, Clone)]
pub struct FallbackConfig {
    pub enable_fallback: bool,
    pub fallback_models: Vec<String>,
    pub max_fallback_attempts: u32,
    pub fallback_delay_seconds: u64,
    pub enable_offline_mode: bool,
    pub offline_responses: HashMap<String, String>,
    pub circuit_breaker: CircuitBreakerConfig,
}

/// Circuit breaker settings.
#[derive(Debug, Clone, Copy)]
pub struct CircuitBreakerConfig {
    pub failure_threshold: u32,
    pub recovery_timeout_seconds: u64,
    pub half_open_max_calls: u32,
}

/// Rate limit settings.
#[derive(Debug, Clone)]
pub struct RateLimitConfig {
    pub requests_per_minute: u32,
    pub requests_per_hour: u32,
    pub burst_limit: u32,
    pub enable_adaptive_rate_limiting: bool,
    pub per_user_limits: HashMap<String, UserRateLimit>,
}

/// Rate limits of one user.
#[derive(Debug, Clone, Copy)]
pub struct UserRateLimit {
    pub requests_per_minute: u32,
    pub requests_per_hour: u32,
    pub priority: u8,
}

/// Monitoring settings.
#[derive(Debug, Clone)]
pub struct MonitoringConfig {
    pub enable_metrics: bool,
    pub enable_tracing: bool,
    pub metrics_endpoint: String,
    pub log_level: String,
    pub health_check_interval_seconds: u64,
}

impl Default for VectorDatabaseConfig {
    fn default() -> (r: Self)
        ensures
            r.host@ == "localhost"@,
            r.port == 6333,
            r.collection_name@ == "islamic_sources"@,
            r.vector_size == 384,
            r.distance_metric@ == "Cosine"@,
            r.timeout_seconds == 30,
            r.max_retries == 3,
            r.batch_size == 100,
            r.index_settings.hnsw_ef_construct == 200,
            r.index_settings.hnsw_m == 16,
            !r.index_settings.quantization_enabled,
            r.index_settings.on_disk_payload,
    {
        VectorDatabaseConfig {
            host: to_string("localhost"),
            port: 6333,
            collection_name: to_string("islamic_sources"),
            vector_size: 384,
            distance_metric: to_string("Cosine"),
            timeout_seconds: 30,
            max_retries: 3,
            batch_size: 100,
            index_settings: IndexSettings {
                hnsw_ef_construct: 200,
                hnsw_m: 16,
                quantization_enabled: false,
                on_disk_payload: true,
            },
        }
    }
}

impl Default for CacheConfig {
    fn default() -> (r: Self)
        ensures
            r.enable_query_cache,
            r.enable_response_cache,
            r.enable_embedding_cache,
            r.query_cache_ttl_seconds == 3600,
            r.response_cache_ttl_seconds == 1800,
            r.embedding_cache_ttl_seconds == 7200,
            r.max_cache_size == 10000,
            r.redis is None,
            r.local_cache.max_memory_mb == 512,
            r.local_cache.eviction_policy@ == "LRU"@,
            r.local_cache.compression_enabled,
    {
        CacheConfig {
            enable_query_cache: true,
            enable_response_cache: true,
            enable_embedding_cache: true,
            query_cache_ttl_seconds: 3600,
            response_cache_ttl_seconds: 1800,
            embedding_cache_ttl_seconds: 7200,
            max_cache_size: 10000,
            redis: None,
            local_cache: LocalCacheConfig {
                max_memory_mb: 512,
                eviction_policy: to_string("LRU"),
                compression_enabled: true,
            },
        }
    }
}

impl Default for FallbackConfig {
    /// The default fall-back settings; the offline replies for "default",
    /// "network_error" and "service_unavailable" are inserted into a `HashMap`
    /// with `String` keys, of whose contents nothing is stated.
    fn default() -> (r: Self)
        ensures
            r.enable_fallback,
            r.fallback_models@.len() == 2,
            r.fallback_models@[0]@ == "aubmindlab/bert-base-arabertv02"@,
            r.fallback_models@[1]@ == "CAMeL-Lab/bert-base-arabic-camelbert-mix"@,
            r.max_fallback_attempts == 3,
            r.fallback_delay_seconds == 2,
            r.enable_offline_mode,
            r.circuit_breaker.failure_threshold == 5,
            r.circuit_breaker.recovery_timeout_seconds == 60,
            r.circuit_breaker.half_open_max_calls == 3,
    {
        let mut offline_responses: HashMap<String, String> = HashMap::new();
        offline_responses.insert(
            to_string("default"),
            to_string("عذراً، الخدمة غير متاحة حالياً. يرجى المحاولة لاحقاً أو استشارة العلماء المختصين."),
        );
        offline_responses.insert(
            to_string("network_error"),
            to_string("حدث خطأ في الاتصال بالشبكة. يرجى التحقق من اتصالك بالإنترنت والمحاولة مرة أخرى."),
        );
        offline_responses.insert(
            to_string("service_unavailable"),
            to_string("الخدمة غير متاحة مؤقتاً. نعمل على حل المشكلة. يرجى المحاولة لاحقاً."),
        );
        FallbackConfig {
            enable_fallback: true,
            fallback_models: vec![
                to_string("aubmindlab/bert-base-arabertv02"),
                to_string("CAMeL-Lab/bert-base-arabic-camelbert-mix"),
            ],
            max_fallback_attempts: 3,
            fallback_delay_seconds: 2,
            enable_offline_mode: true,
            offline_responses,
            circuit_breaker: CircuitBreakerConfig {
                failure_threshold: 5,
                recovery_timeout_seconds: 60,
                half_open_max_calls: 3,
            },
        }
    }
}

impl Default for RateLimitConfig {
    fn default() -> (r: Self)
        ensures
            r.requests_per_minute == 60,
            r.requests_per_hour == 1000,
            r.burst_limit == 10,
            r.enable_adaptive_rate_limiting,
            r.per_user_limits@ == Map::<String, UserRateLimit>::empty(),
    {
        RateLimitConfig {
            requests_per_minute: 60,
            requests_per_hour: 1000,
            burst_limit: 10,
            enable_adaptive_rate_limiting: true,
            per_user_limits: HashMap::new(),
        }
    }
}

impl Default for MonitoringConfig {
    fn default() -> (r: Self)
        ensures
            r.enable_metrics,
            r.enable_tracing,
            r.metrics_endpoint@ == "/metrics"@,
            r.log_level@ == "INFO"@,
            r.health_check_interval_seconds == 30,
    {
        MonitoringConfig {
            enable_metrics: true,
            enable_tracing: true,
            metrics_endpoint: to_string("/metrics"),
            log_level: to_string("INFO"),
            health_check_interval_seconds: 30,
        }
    }
}

/// The reason a configuration is refused, for these settings: a missing
/// Hugging Face key, then a missing vector database host, then a zero vector
/// size, then a zero rate limit; none when all are present.
pub open spec fn config_problem(api_key: Seq<char>, host: Seq<char>, vector_size: usize, requests_per_minute: u32) -> Option<Seq<char>> {
    if api_key.len() == 0 {
        Some("Hugging Face API key is required"@)
    } else if host.len() == 0 {
        Some("Vector database host is required"@)
    } else if vector_size == 0 {
        Some("Vector size must be greater than 0"@)
    } else if requests_per_minute == 0 {
        Some("Rate limit must be greater than 0"@)
    } else {
        None
    }
}

/// Checks the settings that a configuration needs (see `config_problem`).
pub fn validate_settings(api_key: &str, host: &str, vector_size: usize, requests_per_minute: u32) -> (r: Result<(), String>)
    ensures
        match r {
            Ok(()) => config_problem(api_key@, host@, vector_size, requests_per_minute) is None,
            Err(e) => config_problem(api_key@, host@, vector_size, requests_per_minute) == Some(e@),
        },
{
    if api_key.is_empty() {
        return Err(to_string("Hugging Face API key is required"));
    }
    if host.is_empty() {
        return Err(to_string("Vector database host is required"));
    }
    if vector_size == 0 {
        return Err(to_string("Vector size must be greater than 0"));
    }
    if requests_per_minute == 0 {
        return Err(to_string("Rate limit must be greater than 0"));
    }
    Ok(())
}

/// A model of specialisation `s` serves a request for `wanted`: it has that
/// specialisation, or it is a general model.
pub open spec fn serves(s: ModelSpecialization, wanted: ModelSpecialization) -> bool {
    s == wanted || s == ModelSpecialization::General
}

/// `i` is the first position, among the models (specialisation, priority)
/// that serve `wanted`, of a least priority.
pub open spec fn first_least_serving(models: Seq<(ModelSpecialization, u8)>, wanted: ModelSpecialization, i: int) -> bool {
    &&& 0 <= i < models.len()
    &&& serves(models[i].0, wanted)
    &&& forall|j: int| 0 <= j < models.len() && serves(models[j].0, wanted) ==> models[i].1 <= models[j].1
    &&& forall|j: int| 0 <= j < i && serves(models[j].0, wanted) ==> models[j].1 > models[i].1
}

/// The position of the model to use for a request for `wanted`, among models
/// given by specialisation and priority: of the models of that specialisation
/// or general ones, the first of least priority (a lower number is preferred);
/// none where no model serves the request.
pub fn best_model_index(models: &Vec<(ModelSpecialization, u8)>, wanted: ModelSpecialization) -> (r: Option<usize>)
    ensures
        match r {
            Some(i) => first_least_serving(models@, wanted, i as int),
            None => forall|j: int| 0 <= j < models@.len() ==> !serves(#[trigger] models@[j].0, wanted),
        },
{
    let mut best: Option<usize> = None;
    let mut i: usize = 0;
    while i < models.len()
        invariant
            i <= models.len(),
            match best {
                Some(b) => b < i && first_least_serving(models@.take(i as int), wanted, b as int),
                None => forall|j: int| 0 <= j < i ==> !serves(#[trigger] models@[j].0, wanted),
            },
        decreases models.len() - i,
    {
        let (s, p) = models[i];
        if s == wanted || s == ModelSpecialization::General {
            match best {
                Some(b) => {
                    if p < models[b].1 {
                        best = Some(i);
                    }
                },
                None => {
                    best = Some(i);
                },
            }
        }
        proof {
            let t = models@.take(i + 1);
            assert(t[i as int] == models@[i as int]);
            assert forall|j: int| 0 <= j < i implies #[trigger] t[j] == models@[j] by {}
        }
        i = i + 1;
    }
    proof {
        assert(models@.take(models.len() as int) =~= models@);
    }
    best
}

} // verus!
