//! Classification of errors, retry and fall-back policies, and per-service
//! circuit breakers.
use vstd::prelude::*;
use crate::clock::{elapsed_nanos, instant_now};
use crate::string_map::StringMap;
use crate::text::{chars_of, seq_contains, str_contains, str_eq, to_string};
use crate::types::AIServiceError;

verus! {

/// Settings of the error handler; delays are in milliseconds.
#[derive(Debug, Clone, Copy)]
pub struct ErrorHandlerConfig {
    pub max_retry_attempts: u32,
    pub base_retry_delay_ms: u64,
    pub max_retry_delay_ms: u64,
    pub circuit_breaker_threshold: u32,
    pub circuit_breaker_timeout_ms: u64,
    pub enable_fallback: bool,
    pub enable_metrics: bool,
}

impl Default for ErrorHandlerConfig {
    fn default() -> (r: Self)
        ensures
            r.max_retry_attempts == 3,
            r.base_retry_delay_ms == 1000,
            r.max_retry_delay_ms == 60000,
            r.circuit_breaker_threshold == 5,
            r.circuit_breaker_timeout_ms == 60000,
            r.enable_fallback,
            r.enable_metrics,
    {
        ErrorHandlerConfig {
            max_retry_attempts: 3,
            base_retry_delay_ms: 1000,
            max_retry_delay_ms: 60000,
            circuit_breaker_threshold: 5,
            circuit_breaker_timeout_ms: 60000,
            enable_fallback: true,
            enable_metrics: true,
        }
    }
}

/// Kinds of error.
#[derive(Debug, Clone, Copy, PartialEq, Eq, Hash, Structural)]
pub enum ErrorType {
    NetworkError,
    AuthenticationError,
    RateLimitError,
    ModelLoadingError,
    VectorDatabaseError,
    CacheError,
    ConfigurationError,
    ValidationError,
    TimeoutError,
    ServiceUnavailableError,
    UnknownError,
}

/// How to retry an error: attempts, delays in milliseconds, the backoff
/// multiplier in halves (4 stands for 2.0, 3 for 1.5), and whether to add jitter.
#[derive(Debug, Clone, Copy, PartialEq, Eq, Structural)]
pub struct RetryPolicy {
    pub max_attempts: u32,
    pub base_delay_ms: u64,
    pub max_delay_ms: u64,
    pub backoff_multiplier_halves: u32,
    pub jitter: bool,
}

/// States of a service's circuit breaker.
#[derive(Debug, Clone, Copy, PartialEq, Eq, Structural)]
pub enum CircuitBreakerState {
    Closed,
    Open,
    HalfOpen,
}

/// The circuit breaker of one service.
#[derive(Debug, Clone)]
pub struct CircuitBreaker {
    pub state: CircuitBreakerState,
    pub failure_count: u32,
    pub success_count: u32,
    pub last_failure_time: Option<std::time::Instant>,
    pub last_success_time: Option<std::time::Instant>,
}

impl CircuitBreaker {
    /// A closed breaker without results.
    pub fn new() -> (r: Self)
        ensures
            r.state == CircuitBreakerState::Closed,
            r.failure_count == 0,
            r.success_count == 0,
            r.last_failure_time is None,
            r.last_success_time is None,
    {
        CircuitBreaker {
            state: CircuitBreakerState::Closed,
            failure_count: 0,
            success_count: 0,
            last_failure_time: None,
            last_success_time: None,
        }
    }
}

/// Fall-back strategies.
#[derive(Debug, Clone, Copy, PartialEq, Eq, Structural)]
pub enum FallbackStrategy {
    RetryWithDifferentModel,
    UseCache,
    UseOfflineResponse,
    DegradeService,
    FailGracefully,
}

/// What to do after an error; delays are in milliseconds.
#[derive(Debug, Clone, PartialEq, Eq)]
pub enum RecoveryAction {
    Retry { delay_ms: u64, attempt: u32 },
    Fallback { strategy: FallbackStrategy },
    Fail { reason: String },
    CircuitBreak { service: String, duration_ms: u64 },
}

/// Counters of the errors seen.
#[derive(Debug, Clone)]
pub struct ErrorMetrics {
    pub total_errors: u64,
    pub errors_by_type: Vec<(ErrorType, u64)>,
    pub retry_attempts: u64,
    pub successful_retries: u64,
    pub fallback_activations: u64,
    pub circuit_breaker_trips: u64,
}

impl ErrorMetrics {
    /// No kind of error has two counters.
    pub open spec fn wf(&self) -> bool {
        forall|i: int, j: int| 0 <= i < j < self.errors_by_type@.len()
            ==> (#[trigger] self.errors_by_type@[i]).0 != (#[trigger] self.errors_by_type@[j]).0
    }

    /// The errors counted of kind `t`.
    pub open spec fn errors_of(&self, t: ErrorType) -> nat {
        if exists|i: int| 0 <= i < self.errors_by_type@.len() && self.errors_by_type@[i].0 == t {
            self.errors_by_type@[choose|i: int| 0 <= i < self.errors_by_type@.len() && self.errors_by_type@[i].0 == t].1 as nat
        } else {
            0
        }
    }

    /// One more error of kind `t`.
    pub fn count_error(&mut self, t: ErrorType)
        requires
            old(self).wf(),
            old(self).total_errors < u64::MAX,
            old(self).errors_of(t) < u64::MAX,
        ensures
            final(self).wf(),
            final(self).total_errors == old(self).total_errors + 1,
            final(self).errors_of(t) == old(self).errors_of(t) + 1,
            forall|u: ErrorType| u != t ==> final(self).errors_of(u) == old(self).errors_of(u),
            final(self).retry_attempts == old(self).retry_attempts,
            final(self).successful_retries == old(self).successful_retries,
            final(self).fallback_activations == old(self).fallback_activations,
            final(self).circuit_breaker_trips == old(self).circuit_breaker_trips,
    {
        self.total_errors = self.total_errors + 1;
        let ghost old_v = self.errors_by_type@;
        let mut i: usize = 0;
        while i < self.errors_by_type.len()
            invariant
                i <= self.errors_by_type.len(),
                self.errors_by_type@ == old_v,
                old_v == old(self).errors_by_type@,
                old(self).wf(),
                old(self).errors_of(t) < u64::MAX,
                self.total_errors == old(self).total_errors + 1,
                self.retry_attempts == old(self).retry_attempts,
                self.successful_retries == old(self).successful_retries,
                self.fallback_activations == old(self).fallback_activations,
                self.circuit_breaker_trips == old(self).circuit_breaker_trips,
                forall|k: int| 0 <= k < i ==> old_v[k].0 != t,
            decreases self.errors_by_type.len() - i,
        {
            if self.errors_by_type[i].0 == t {
                let n = self.errors_by_type[i].1;
                proof {
                    assert(old_v[i as int].0 == t);
                    let c = choose|c: int| 0 <= c < old_v.len() && old_v[c].0 == t;
                    if c != i as int {
                        if c < i {
                        } else {
                            assert(old_v[i as int].0 != old_v[c].0);
                        }
                    }
                    assert(n == old(self).errors_of(t));
                }
                self.errors_by_type.set(i, (t, n + 1));
                proof {
                    let nv = self.errors_by_type@;
                    assert(nv =~= old_v.update(i as int, (t, (n + 1) as u64)));
                    assert forall|a: int, b: int| 0 <= a < b < nv.len() implies (#[trigger] nv[a]).0 != (#[trigger] nv[b]).0 by {
                        assert(old_v[a].0 != old_v[b].0);
                    }
                    let c2 = choose|c: int| 0 <= c < nv.len() && nv[c].0 == t;
                    if c2 != i as int {
                        if c2 < i {
                            assert(nv[c2].0 != nv[i as int].0);
                        } else {
                            assert(nv[i as int].0 != nv[c2].0);
                        }
                    }
                    assert forall|u: ErrorType| u != t implies self.errors_of(u) == old(self).errors_of(u) by {
                        if exists|k: int| 0 <= k < old_v.len() && old_v[k].0 == u {
                            let k = choose|k: int| 0 <= k < old_v.len() && old_v[k].0 == u;
                            assert(nv[k].0 == u);
                            let k2 = choose|k2: int| 0 <= k2 < nv.len() && nv[k2].0 == u;
                            if k2 != k {
                                if k2 < k {
                                    assert(nv[k2].0 != nv[k].0);
                                } else {
                                    assert(nv[k].0 != nv[k2].0);
                                }
                            }
                        } else {
                            assert forall|k: int| 0 <= k < nv.len() implies nv[k].0 != u by {
                                assert(old_v[k].0 != u);
                            }
                        }
                    }
                }
                return;
            }
            i = i + 1;
        }
        self.errors_by_type.push((t, 1));
        proof {
            let nv = self.errors_by_type@;
            let n = old_v.len() as int;
            assert(nv =~= old_v.push((t, 1u64)));
            assert forall|a: int, b: int| 0 <= a < b < nv.len() implies (#[trigger] nv[a]).0 != (#[trigger] nv[b]).0 by {
                if b < n {
                    assert(old_v[a].0 != old_v[b].0);
                }
            }
            assert(nv[n].0 == t);
            let c2 = choose|c: int| 0 <= c < nv.len() && nv[c].0 == t;
            if c2 != n {
                assert(old_v[c2].0 != t);
            }
            assert forall|u: ErrorType| u != t implies self.errors_of(u) == old(self).errors_of(u) by {
                if exists|k: int| 0 <= k < old_v.len() && old_v[k].0 == u {
                    let k = choose|k: int| 0 <= k < old_v.len() && old_v[k].0 == u;
                    assert(nv[k].0 == u);
                    let k2 = choose|k2: int| 0 <= k2 < nv.len() && nv[k2].0 == u;
                    if k2 != k {
                        if k2 < k {
                            assert(nv[k2].0 != nv[k].0);
                        } else {
                            assert(nv[k].0 != nv[k2].0);
                        }
                    }
                } else {
                    assert forall|k: int| 0 <= k < nv.len() implies nv[k].0 != u by {
                        if k < n {
                            assert(old_v[k].0 != u);
                        }
                    }
                }
            }
        }
    }

    /// All counters at zero.
    pub fn new() -> (r: Self)
        ensures
            r.total_errors == 0,
            r.errors_by_type@.len() == 0,
            r.retry_attempts == 0,
            r.successful_retries == 0,
            r.fallback_activations == 0,
            r.circuit_breaker_trips == 0,
    {
        ErrorMetrics {
            total_errors: 0,
            errors_by_type: Vec::new(),
            retry_attempts: 0,
            successful_retries: 0,
            fallback_activations: 0,
            circuit_breaker_trips: 0,
        }
    }
}

/// Where and for whom an error happened.
#[derive(Debug)]
pub struct ErrorContext {
    pub operation: String,
    pub service: String,
    pub user_id: Option<String>,
    pub request_id: String,
    pub timestamp: std::time::Instant,
    pub metadata: StringMap,
}

/// Calls `uuid::Uuid::new_v4` and formats it with `to_string`; the identifier is
/// random, so nothing is stated of it.
#[verifier::external_body]
fn new_request_id() -> (r: String) {
    uuid::Uuid::new_v4().to_string()
}

impl ErrorContext {
    /// A context for `operation` on `service`, with a fresh random request id,
    /// the current time, no user and no metadata.
    pub fn new(operation: String, service: String) -> (r: Self)
        ensures
            r.operation == operation,
            r.service == service,
            r.user_id is None,
            r.metadata.wf(),
            r.metadata.view() == Map::<Seq<char>, Seq<char>>::empty(),
    {
        ErrorContext {
            operation,
            service,
            user_id: None,
            request_id: new_request_id(),
            timestamp: instant_now(),
            metadata: StringMap::new(),
        }
    }

    /// The same context for `user_id`.
    pub fn with_user_id(self, user_id: String) -> (r: Self)
        ensures
            r.user_id == Some(user_id),
            r.operation == self.operation,
            r.service == self.service,
            r.request_id == self.request_id,
            r.timestamp == self.timestamp,
            r.metadata == self.metadata,
    {
        let mut s = self;
        s.user_id = Some(user_id);
        s
    }

    /// The same context with `value` stored under `key` in its metadata.
    pub fn with_metadata(self, key: String, value: String) -> (r: Self)
        requires
            self.metadata.wf(),
        ensures
            r.metadata.wf(),
            r.metadata.view() == self.metadata.view().insert(key@, value@),
            r.operation == self.operation,
            r.service == self.service,
            r.user_id == self.user_id,
            r.request_id == self.request_id,
            r.timestamp == self.timestamp,
    {
        let mut s = self;
        s.metadata.insert(key, value);
        s
    }
}

/// The kind of an error: outside API errors by their message (rate limit or
/// 429; timeout; authentication, 401 or 403; 503 or service unavailable; model
/// loading; otherwise network), and the other errors by their variant.
pub open spec fn classify_spec(e: AIServiceError) -> ErrorType {
    match e {
        AIServiceError::ExternalAPIError(msg) => {
            let m = msg@;
            if seq_contains(m, "rate limit"@) || seq_contains(m, "429"@) {
                ErrorType::RateLimitError
            } else if seq_contains(m, "timeout"@) {
                ErrorType::TimeoutError
            } else if seq_contains(m, "authentication"@) || seq_contains(m, "401"@) || seq_contains(m, "403"@) {
                ErrorType::AuthenticationError
            } else if seq_contains(m, "503"@) || seq_contains(m, "service unavailable"@) {
                ErrorType::ServiceUnavailableError
            } else if seq_contains(m, "model"@) && seq_contains(m, "loading"@) {
                ErrorType::ModelLoadingError
            } else {
                ErrorType::NetworkError
            }
        },
        AIServiceError::DatabaseError(_) => ErrorType::VectorDatabaseError,
        AIServiceError::CacheError(_) => ErrorType::CacheError,
        AIServiceError::ConfigurationError(_) => ErrorType::ConfigurationError,
        AIServiceError::QuestionProcessingError(_) => ErrorType::ValidationError,
        AIServiceError::RateLimitExceeded(_) => ErrorType::RateLimitError,
        AIServiceError::ServiceUnavailable(_) => ErrorType::ServiceUnavailableError,
        _ => ErrorType::UnknownError,
    }
}

/// The retry policy of each kind of error, where it has one: network errors
/// three attempts from one second up to thirty with doubling and jitter; rate
/// limits five from a minute up to five with factor 1.5 and jitter; model
/// loading three from ten seconds up to two minutes with doubling; vector
/// database three from half a second up to ten with doubling and jitter;
/// timeouts two from one second up to five with doubling.
pub open spec fn retry_policy_spec(t: ErrorType) -> Option<RetryPolicy> {
    match t {
        ErrorType::NetworkError => Some(RetryPolicy { max_attempts: 3, base_delay_ms: 1000, max_delay_ms: 30000, backoff_multiplier_halves: 4, jitter: true }),
        ErrorType::RateLimitError => Some(RetryPolicy { max_attempts: 5, base_delay_ms: 60000, max_delay_ms: 300000, backoff_multiplier_halves: 3, jitter: true }),
        ErrorType::ModelLoadingError => Some(RetryPolicy { max_attempts: 3, base_delay_ms: 10000, max_delay_ms: 120000, backoff_multiplier_halves: 4, jitter: false }),
        ErrorType::VectorDatabaseError => Some(RetryPolicy { max_attempts: 3, base_delay_ms: 500, max_delay_ms: 10000, backoff_multiplier_halves: 4, jitter: true }),
        ErrorType::TimeoutError => Some(RetryPolicy { max_attempts: 2, base_delay_ms: 1000, max_delay_ms: 5000, backoff_multiplier_halves: 4, jitter: false }),
        _ => None,
    }
}

/// The fall-back strategy of each kind of error, where it has one.
pub open spec fn fallback_spec(t: ErrorType) -> Option<FallbackStrategy> {
    match t {
        ErrorType::ModelLoadingError => Some(FallbackStrategy::RetryWithDifferentModel),
        ErrorType::NetworkError => Some(FallbackStrategy::UseCache),
        ErrorType::ServiceUnavailableError => Some(FallbackStrategy::UseOfflineResponse),
        ErrorType::RateLimitError => Some(FallbackStrategy::DegradeService),
        ErrorType::AuthenticationError => Some(FallbackStrategy::FailGracefully),
        _ => None,
    }
}

/// The `Debug` name of an error type.
pub open spec fn error_type_name(t: ErrorType) -> Seq<char> {
    match t {
        ErrorType::NetworkError => "NetworkError"@,
        ErrorType::AuthenticationError => "AuthenticationError"@,
        ErrorType::RateLimitError => "RateLimitError"@,
        ErrorType::ModelLoadingError => "ModelLoadingError"@,
        ErrorType::VectorDatabaseError => "VectorDatabaseError"@,
        ErrorType::CacheError => "CacheError"@,
        ErrorType::ConfigurationError => "ConfigurationError"@,
        ErrorType::ValidationError => "ValidationError"@,
        ErrorType::TimeoutError => "TimeoutError"@,
        ErrorType::ServiceUnavailableError => "ServiceUnavailableError"@,
        ErrorType::UnknownError => "UnknownError"@,
    }
}

impl ErrorType {
    /// The variant's name, as `{:?}` prints it.
    pub fn debug_name(&self) -> (s: &'static str)
        ensures
            s@ == error_type_name(*self),
    {
        match self {
            ErrorType::NetworkError => "NetworkError",
            ErrorType::AuthenticationError => "AuthenticationError",
            ErrorType::RateLimitError => "RateLimitError",
            ErrorType::ModelLoadingError => "ModelLoadingError",
            ErrorType::VectorDatabaseError => "VectorDatabaseError",
            ErrorType::CacheError => "CacheError",
            ErrorType::ConfigurationError => "ConfigurationError",
            ErrorType::ValidationError => "ValidationError",
            ErrorType::TimeoutError => "TimeoutError",
            ErrorType::ServiceUnavailableError => "ServiceUnavailableError",
            ErrorType::UnknownError => "UnknownError",
        }
    }
}

/// The reason given when no retry or fall-back remains.
pub open spec fn exhausted_reason(t: ErrorType) -> Seq<char> {
    "Max retries exceeded for error type: "@ + error_type_name(t)
}

/// The recovery after an error of kind `t` at attempt `attempt`: a retry after
/// `delay_ms` while the policy allows more attempts; else the fall-back, when
/// fall-back is enabled and the kind has one; else failure.
pub open spec fn recovery_spec(t: ErrorType, attempt: u32, delay_ms: u64, enable_fallback: bool) -> RecoveryAction {
    if retry_policy_spec(t) is Some && attempt < retry_policy_spec(t).unwrap().max_attempts {
        RecoveryAction::Retry { delay_ms, attempt: (attempt + 1) as u32 }
    } else if enable_fallback && fallback_spec(t) is Some {
        RecoveryAction::Fallback { strategy: fallback_spec(t).unwrap() }
    } else {
        RecoveryAction::Fail { reason: arbitrary() }
    }
}

/// The handler of errors of the AI service.
pub struct ErrorHandler {
    pub config: ErrorHandlerConfig,
    pub circuit_breakers: Vec<(String, CircuitBreaker)>,
    pub error_metrics: ErrorMetrics,
}

/// `r` is the recovery for an error of kind `t` at `attempt` (see
/// `recovery_spec`), where a failure gives the reason why the retries of the
/// kind are exhausted.
pub open spec fn recovery_matches(r: RecoveryAction, t: ErrorType, attempt: u32, delay_ms: u64, enable_fallback: bool) -> bool {
    match recovery_spec(t, attempt, delay_ms, enable_fallback) {
        RecoveryAction::Fail { .. } => r matches RecoveryAction::Fail { reason } && reason@ == exhausted_reason(t),
        other => r == other,
    }
}

/// The number of breakers of `v` that belong to `service`.
pub open spec fn breaker_names(v: Seq<(String, CircuitBreaker)>) -> Seq<Seq<char>> {
    v.map_values(|e: (String, CircuitBreaker)| e.0@)
}

impl ErrorHandler {
    /// No service has two breakers.
    pub open spec fn wf(&self) -> bool {
        &&& forall|i: int, j: int| 0 <= i < j < self.circuit_breakers@.len()
            ==> breaker_names(self.circuit_breakers@)[i] != breaker_names(self.circuit_breakers@)[j]
        &&& self.error_metrics.wf()
    }

    /// The position of the breaker of `service`.
    pub open spec fn breaker_at(&self, service: Seq<char>, i: int) -> bool {
        0 <= i < self.circuit_breakers@.len() && self.circuit_breakers@[i].0@ == service
    }

    /// A handler with no breakers and zero counters.
    pub fn new(config: ErrorHandlerConfig) -> (r: Self)
        ensures
            r.wf(),
            r.config == config,
            r.circuit_breakers@.len() == 0,
            r.error_metrics.total_errors == 0,
            r.error_metrics.circuit_breaker_trips == 0,
    {
        ErrorHandler { config, circuit_breakers: Vec::new(), error_metrics: ErrorMetrics::new() }
    }

    /// The kind of an error (see `classify_spec`).
    pub fn classify_error(&self, error: &AIServiceError) -> (r: ErrorType)
        ensures
            r == classify_spec(*error),
    {
        match error {
            AIServiceError::ExternalAPIError(msg) => {
                let m = msg.as_str();
                if str_contains(m, "rate limit") || str_contains(m, "429") {
                    ErrorType::RateLimitError
                } else if str_contains(m, "timeout") {
                    ErrorType::TimeoutError
                } else if str_contains(m, "authentication") || str_contains(m, "401") || str_contains(m, "403") {
                    ErrorType::AuthenticationError
                } else if str_contains(m, "503") || str_contains(m, "service unavailable") {
                    ErrorType::ServiceUnavailableError
                } else if str_contains(m, "model") && str_contains(m, "loading") {
                    ErrorType::ModelLoadingError
                } else {
                    ErrorType::NetworkError
                }
            },
            AIServiceError::DatabaseError(_) => ErrorType::VectorDatabaseError,
            AIServiceError::CacheError(_) => ErrorType::CacheError,
            AIServiceError::ConfigurationError(_) => ErrorType::ConfigurationError,
            AIServiceError::QuestionProcessingError(_) => ErrorType::ValidationError,
            AIServiceError::RateLimitExceeded(_) => ErrorType::RateLimitError,
            AIServiceError::ServiceUnavailable(_) => ErrorType::ServiceUnavailableError,
            _ => ErrorType::UnknownError,
        }
    }

    /// The retry policy of a kind of error (see `retry_policy_spec`).
    pub fn retry_policy(error_type: &ErrorType) -> (r: Option<RetryPolicy>)
        ensures
            r == retry_policy_spec(*error_type),
    {
        match error_type {
            ErrorType::NetworkError => Some(RetryPolicy { max_attempts: 3, base_delay_ms: 1000, max_delay_ms: 30000, backoff_multiplier_halves: 4, jitter: true }),
            ErrorType::RateLimitError => Some(RetryPolicy { max_attempts: 5, base_delay_ms: 60000, max_delay_ms: 300000, backoff_multiplier_halves: 3, jitter: true }),
            ErrorType::ModelLoadingError => Some(RetryPolicy { max_attempts: 3, base_delay_ms: 10000, max_delay_ms: 120000, backoff_multiplier_halves: 4, jitter: false }),
            ErrorType::VectorDatabaseError => Some(RetryPolicy { max_attempts: 3, base_delay_ms: 500, max_delay_ms: 10000, backoff_multiplier_halves: 4, jitter: true }),
            ErrorType::TimeoutError => Some(RetryPolicy { max_attempts: 2, base_delay_ms: 1000, max_delay_ms: 5000, backoff_multiplier_halves: 4, jitter: false }),
            _ => None,
        }
    }

    /// The fall-back strategy of a kind of error (see `fallback_spec`).
    pub fn fallback_strategy(error_type: &ErrorType) -> (r: Option<FallbackStrategy>)
        ensures
            r == fallback_spec(*error_type),
    {
        match error_type {
            ErrorType::ModelLoadingError => Some(FallbackStrategy::RetryWithDifferentModel),
            ErrorType::NetworkError => Some(FallbackStrategy::UseCache),
            ErrorType::ServiceUnavailableError => Some(FallbackStrategy::UseOfflineResponse),
            ErrorType::RateLimitError => Some(FallbackStrategy::DegradeService),
            ErrorType::AuthenticationError => Some(FallbackStrategy::FailGracefully),
            _ => None,
        }
    }

    /// The recovery after an error (see `recovery_spec`); `delay_ms` is the
    /// backoff delay of the kind's retry policy for this attempt, and a failure
    /// gives `exhausted_reason` as its reason.
    pub fn determine_recovery_action(&self, error_type: &ErrorType, attempt: u32, delay_ms: u64) -> (r: RecoveryAction)
        ensures
            match recovery_spec(*error_type, attempt, delay_ms, self.config.enable_fallback) {
                RecoveryAction::Fail { .. } => r matches RecoveryAction::Fail { reason } && reason@ == exhausted_reason(*error_type),
                other => r == other,
            },
    {
        match Self::retry_policy(error_type) {
            Some(policy) => {
                if attempt < policy.max_attempts {
                    return RecoveryAction::Retry { delay_ms, attempt: attempt + 1 };
                }
            },
            None => {},
        }
        if self.config.enable_fallback {
            match Self::fallback_strategy(error_type) {
                Some(strategy) => {
                    return RecoveryAction::Fallback { strategy };
                },
                None => {},
            }
        }
        let mut v = chars_of("Max retries exceeded for error type: ");
        crate::text::push_str(&mut v, error_type.debug_name());
        RecoveryAction::Fail { reason: crate::text::string_from_chars(&v) }
    }

    /// The position of the breaker of `service`, if it has one.
    fn find_breaker(&self, service: &str) -> (r: Option<usize>)
        ensures
            match r {
                Some(i) => self.breaker_at(service@, i as int),
                None => forall|i: int| !self.breaker_at(service@, i),
            },
    {
        let mut i: usize = 0;
        while i < self.circuit_breakers.len()
            invariant
                i <= self.circuit_breakers.len(),
                forall|k: int| 0 <= k < i ==> !self.breaker_at(service@, k),
            decreases self.circuit_breakers.len() - i,
        {
            if str_eq(self.circuit_breakers[i].0.as_str(), service) {
                return Some(i);
            }
            i = i + 1;
        }
        None
    }

    /// The position of the breaker of `service`, adding a closed one if it has
    /// none.
    fn breaker_index(&mut self, service: &str) -> (r: usize)
        requires
            old(self).wf(),
        ensures
            final(self).wf(),
            final(self).breaker_at(service@, r as int),
            final(self).config == old(self).config,
            final(self).error_metrics == old(self).error_metrics,
            forall|i: int| #![trigger final(self).circuit_breakers@[i]] 0 <= i < old(self).circuit_breakers@.len() ==> final(self).circuit_breakers@[i] == old(self).circuit_breakers@[i],
            old(self).circuit_breakers@.len() <= final(self).circuit_breakers@.len() <= old(self).circuit_breakers@.len() + 1,
            final(self).circuit_breakers@.len() == old(self).circuit_breakers@.len() + 1 ==> {
                &&& r == old(self).circuit_breakers@.len()
                &&& final(self).circuit_breakers@[r as int].1.state == CircuitBreakerState::Closed
                &&& final(self).circuit_breakers@[r as int].1.failure_count == 0
                &&& final(self).circuit_breakers@[r as int].1.success_count == 0
                &&& final(self).circuit_breakers@[r as int].1.last_failure_time is None
                &&& final(self).circuit_breakers@[r as int].1.last_success_time is None
                &&& forall|i: int| !old(self).breaker_at(service@, i)
            },
            final(self).circuit_breakers@.len() == old(self).circuit_breakers@.len() ==> old(self).breaker_at(service@, r as int),
    {
        match self.find_breaker(service) {
            Some(i) => i,
            None => {
                let name = to_string(service);
                let ghost old_names = breaker_names(self.circuit_breakers@);
                self.circuit_breakers.push((name, CircuitBreaker::new()));
                proof {
                    let nn = breaker_names(self.circuit_breakers@);
                    assert(nn =~= old_names.push(service@));
                    assert forall|a: int, b: int| 0 <= a < b < nn.len() implies nn[a] != nn[b] by {
                        if b == old_names.len() {
                            assert(!old(self).breaker_at(service@, a));
                        } else {
                            assert(old_names[a] != old_names[b]);
                        }
                    }
                }
                self.circuit_breakers.len() - 1
            },
        }
    }

    /// Records the result of a call to `service` in its breaker (adding a
    /// closed breaker first if it has none): a success counts one more success,
    /// and closes a half-open breaker (clearing its failures) once three have
    /// been counted, or clears the failures of a breaker in any other state; a
    /// failure counts one more failure, and at the threshold opens the breaker
    /// and counts one more trip.
    pub fn record_result(&mut self, service: &str, success: bool)
        requires
            old(self).wf(),
            forall|i: int| old(self).breaker_at(service@, i) ==> {
                &&& old(self).circuit_breakers@[i].1.success_count < u32::MAX
                &&& old(self).circuit_breakers@[i].1.failure_count < u32::MAX
            },
            old(self).error_metrics.circuit_breaker_trips < u64::MAX,
        ensures
            final(self).wf(),
            exists|i: int| #![trigger final(self).circuit_breakers@[i]] final(self).breaker_at(service@, i) && {
                let before = if old(self).breaker_at(service@, i) {
                    old(self).circuit_breakers@[i].1
                } else {
                    CircuitBreaker { state: CircuitBreakerState::Closed, failure_count: 0, success_count: 0, last_failure_time: None, last_success_time: None }
                };
                let after = final(self).circuit_breakers@[i].1;
                if success {
                    &&& after.success_count == before.success_count + 1
                    &&& after.state == if before.state == CircuitBreakerState::HalfOpen && before.success_count + 1 >= 3 {
                        CircuitBreakerState::Closed
                    } else {
                        before.state
                    }
                    &&& after.failure_count == if before.state == CircuitBreakerState::HalfOpen && before.success_count + 1 < 3 {
                        before.failure_count
                    } else {
                        0
                    }
                    &&& final(self).error_metrics.circuit_breaker_trips == old(self).error_metrics.circuit_breaker_trips
                } else {
                    &&& after.failure_count == before.failure_count + 1
                    &&& after.success_count == before.success_count
                    &&& after.state == if before.failure_count + 1 >= old(self).config.circuit_breaker_threshold {
                        CircuitBreakerState::Open
                    } else {
                        before.state
                    }
                    &&& final(self).error_metrics.circuit_breaker_trips == old(self).error_metrics.circuit_breaker_trips
                        + if before.failure_count + 1 >= old(self).config.circuit_breaker_threshold { 1int } else { 0int }
                }
            },
            final(self).config == old(self).config,
            old(self).circuit_breakers@.len() <= final(self).circuit_breakers@.len() <= old(self).circuit_breakers@.len() + 1,
            forall|j: int| #![trigger final(self).circuit_breakers@[j]]
                0 <= j < old(self).circuit_breakers@.len() && old(self).circuit_breakers@[j].0@ != service@
                ==> final(self).circuit_breakers@[j] == old(self).circuit_breakers@[j],
            forall|j: int| old(self).circuit_breakers@.len() <= j < final(self).circuit_breakers@.len()
                ==> (#[trigger] final(self).circuit_breakers@[j]).0@ == service@,
            final(self).error_metrics.total_errors == old(self).error_metrics.total_errors,
            final(self).error_metrics.errors_by_type@ == old(self).error_metrics.errors_by_type@,
            final(self).error_metrics.retry_attempts == old(self).error_metrics.retry_attempts,
            final(self).error_metrics.successful_retries == old(self).error_metrics.successful_retries,
            final(self).error_metrics.fallback_activations == old(self).error_metrics.fallback_activations,
    {
        let idx = self.breaker_index(service);
        let ghost mid = self.circuit_breakers@;
        let now = instant_now();
        let threshold = self.config.circuit_breaker_threshold;
        let (name, mut cb) = self.circuit_breakers.remove(idx);
        let ghost before = cb;
        let mut tripped = false;
        if success {
            cb.success_count = cb.success_count + 1;
            cb.last_success_time = Some(now);
            match cb.state {
                CircuitBreakerState::HalfOpen => {
                    if cb.success_count >= 3 {
                        cb.state = CircuitBreakerState::Closed;
                        cb.failure_count = 0;
                    }
                },
                _ => {
                    cb.failure_count = 0;
                },
            }
        } else {
            cb.failure_count = cb.failure_count + 1;
            cb.last_failure_time = Some(now);
            if cb.failure_count >= threshold {
                cb.state = CircuitBreakerState::Open;
                tripped = true;
            }
        }
        self.circuit_breakers.insert(idx, (name, cb));
        if tripped {
            self.error_metrics.circuit_breaker_trips = self.error_metrics.circuit_breaker_trips + 1;
        }
        proof {
            let nv = self.circuit_breakers@;
            assert(nv =~= mid.update(idx as int, (name, cb)));
            assert(breaker_names(nv) =~= breaker_names(mid));
            assert(self.breaker_at(service@, idx as int));
            assert forall|j: int| #![trigger nv[j]]
                0 <= j < old(self).circuit_breakers@.len() && old(self).circuit_breakers@[j].0@ != service@
                implies nv[j] == old(self).circuit_breakers@[j] by {
                assert(mid[j] == old(self).circuit_breakers@[j]);
            }
            assert forall|j: int| old(self).circuit_breakers@.len() <= j < nv.len() implies (#[trigger] nv[j]).0@ == service@ by {
                assert(j == idx);
            }
        }
    }

    /// The decision of a breaker checked `elapsed` nanoseconds after its last
    /// failure: an open breaker whose timeout has passed becomes half-open with
    /// no successes counted and lets the call through; an open breaker within
    /// its timeout keeps the call back for the rest of the timeout (in whole
    /// milliseconds); an open breaker with no failure time, and a breaker in
    /// any other state, let the call through unchanged.
    pub open spec fn check_spec(
        before: CircuitBreaker,
        after: CircuitBreaker,
        elapsed: u128,
        timeout_ms: u64,
        service: Seq<char>,
        r: Option<RecoveryAction>,
    ) -> bool {
        let timeout_ns = timeout_ms as int * 1_000_000;
        if before.state == CircuitBreakerState::Open && before.last_failure_time is Some {
            if elapsed > timeout_ns {
                &&& after == CircuitBreaker { state: CircuitBreakerState::HalfOpen, success_count: 0, ..before }
                &&& r is None
            } else {
                &&& after == before
                &&& r matches Some(RecoveryAction::CircuitBreak { service: s, duration_ms })
                &&& s@ == service
                &&& duration_ms == (timeout_ns - elapsed) / 1_000_000
            }
        } else {
            after == before && r is None
        }
    }

    /// The breaker of `service` stands at `i` after the check, and was checked
    /// from the breaker before it (a fresh closed one where it had none) as
    /// `check_spec` says, `elapsed` nanoseconds after its last failure.
    pub open spec fn checked_at(
        before_handler: Self,
        after_handler: Self,
        service: Seq<char>,
        r: Option<RecoveryAction>,
        i: int,
        elapsed: u128,
    ) -> bool {
        after_handler.breaker_at(service, i) && {
            let before = if before_handler.breaker_at(service, i) {
                before_handler.circuit_breakers@[i].1
            } else {
                CircuitBreaker { state: CircuitBreakerState::Closed, failure_count: 0, success_count: 0, last_failure_time: None, last_success_time: None }
            };
            Self::check_spec(before, after_handler.circuit_breakers@[i].1, elapsed, before_handler.config.circuit_breaker_timeout_ms, service, r)
        }
    }

    /// Checks the breaker of `service` (adding a closed breaker first if it
    /// has none) against the time since its last failure, read from the clock
    /// (see `check_spec`).
    pub fn check_circuit_breaker(&mut self, service: &str) -> (r: Option<RecoveryAction>)
        requires
            old(self).wf(),
        ensures
            final(self).wf(),
            final(self).config == old(self).config,
            final(self).error_metrics == old(self).error_metrics,
            exists|i: int, elapsed: u128| #[trigger] Self::checked_at(*old(self), *final(self), service@, r, i, elapsed),
    {
        let idx = self.breaker_index(service);
        let ghost mid = self.circuit_breakers@;
        let (name, mut cb) = self.circuit_breakers.remove(idx);
        let ghost before = cb;
        let timeout_ns: u128 = (self.config.circuit_breaker_timeout_ms as u128) * 1_000_000;
        let mut elapsed: u128 = 0;
        let mut action: Option<RecoveryAction> = None;
        match cb.state {
            CircuitBreakerState::Open => {
                match &cb.last_failure_time {
                    Some(t) => {
                        elapsed = elapsed_nanos(t);
                        if elapsed > timeout_ns {
                            cb.state = CircuitBreakerState::HalfOpen;
                            cb.success_count = 0;
                        } else {
                            let remaining: u128 = (timeout_ns - elapsed) / 1_000_000;
                            action = Some(RecoveryAction::CircuitBreak {
                                service: to_string(service),
                                duration_ms: remaining as u64,
                            });
                        }
                    },
                    None => {},
                }
            },
            _ => {},
        }
        self.circuit_breakers.insert(idx, (name, cb));
        proof {
            let nv = self.circuit_breakers@;
            assert(nv =~= mid.update(idx as int, (name, cb)));
            assert(breaker_names(nv) =~= breaker_names(mid));
            assert(self.breaker_at(service@, idx as int));
            assert(Self::check_spec(before, cb, elapsed, self.config.circuit_breaker_timeout_ms, service@, action));
            assert(Self::checked_at(*old(self), *self, service@, action, idx as int, elapsed));
        }
        action
    }

    /// Counts one more error of kind `error_type`.
    pub fn update_error_metrics(&mut self, error_type: ErrorType)
        requires
            old(self).wf(),
            old(self).error_metrics.total_errors < u64::MAX,
            old(self).error_metrics.errors_of(error_type) < u64::MAX,
        ensures
            final(self).wf(),
            final(self).config == old(self).config,
            final(self).circuit_breakers@ == old(self).circuit_breakers@,
            final(self).error_metrics.total_errors == old(self).error_metrics.total_errors + 1,
            final(self).error_metrics.errors_of(error_type) == old(self).error_metrics.errors_of(error_type) + 1,
            forall|u: ErrorType| u != error_type ==> final(self).error_metrics.errors_of(u) == old(self).error_metrics.errors_of(u),
            final(self).error_metrics.circuit_breaker_trips == old(self).error_metrics.circuit_breaker_trips,
            final(self).error_metrics.retry_attempts == old(self).error_metrics.retry_attempts,
            final(self).error_metrics.fallback_activations == old(self).error_metrics.fallback_activations,
    {
        self.error_metrics.count_error(error_type);
    }

    /// What a fall-back strategy gives: a marker for another model, the cache
    /// or a degraded service, the offline answer, or, to fail gracefully, an
    /// unavailable service.
    pub open spec fn fallback_outcome(strategy: FallbackStrategy) -> Result<Seq<char>, Seq<char>> {
        match strategy {
            FallbackStrategy::RetryWithDifferentModel => Ok("retry_different_model"@),
            FallbackStrategy::UseCache => Ok("use_cache"@),
            FallbackStrategy::UseOfflineResponse => Ok(
                "عذراً، الخدمة غير متاحة حالياً. يرجى المحاولة لاحقاً أو استشارة العلماء المختصين."@,
            ),
            FallbackStrategy::DegradeService => Ok("service_degraded"@),
            FallbackStrategy::FailGracefully => Err("Service is temporarily unavailable"@),
        }
    }

    /// Carries out a fall-back strategy (see `fallback_outcome`).
    pub fn execute_fallback_strategy(&self, strategy: FallbackStrategy) -> (r: Result<Option<String>, AIServiceError>)
        ensures
            match Self::fallback_outcome(strategy) {
                Ok(m) => r matches Ok(Some(x)) && x@ == m,
                Err(m) => r matches Err(AIServiceError::ServiceUnavailable(x)) && x@ == m,
            },
    {
        match strategy {
            FallbackStrategy::RetryWithDifferentModel => Ok(Some(to_string("retry_different_model"))),
            FallbackStrategy::UseCache => Ok(Some(to_string("use_cache"))),
            FallbackStrategy::UseOfflineResponse => Ok(Some(to_string(
                "عذراً، الخدمة غير متاحة حالياً. يرجى المحاولة لاحقاً أو استشارة العلماء المختصين.",
            ))),
            FallbackStrategy::DegradeService => Ok(Some(to_string("service_degraded"))),
            FallbackStrategy::FailGracefully => Err(AIServiceError::ServiceUnavailable(to_string(
                "Service is temporarily unavailable",
            ))),
        }
    }

    /// The message of a call kept back by an open breaker.
    pub open spec fn unavailable_message(service: Seq<char>) -> Seq<char> {
        "Service "@ + service + " is temporarily unavailable"@
    }

    /// Carries out a recovery action, once any pause it asks for is over: a
    /// retry counts one more retry and gives nothing; a fall-back counts one
    /// more activation and gives what its strategy gives; a failure is an
    /// unavailable service with its reason; an open breaker is an unavailable
    /// service.
    pub fn execute_recovery_action(&mut self, action: RecoveryAction) -> (r: Result<Option<String>, AIServiceError>)
        requires
            old(self).error_metrics.retry_attempts < u64::MAX,
            old(self).error_metrics.fallback_activations < u64::MAX,
        ensures
            final(self).config == old(self).config,
            final(self).circuit_breakers@ == old(self).circuit_breakers@,
            final(self).error_metrics.total_errors == old(self).error_metrics.total_errors,
            final(self).error_metrics.errors_by_type@ == old(self).error_metrics.errors_by_type@,
            final(self).error_metrics.circuit_breaker_trips == old(self).error_metrics.circuit_breaker_trips,
            match action {
                RecoveryAction::Retry { .. } => {
                    &&& r matches Ok(None)
                    &&& final(self).error_metrics.retry_attempts == old(self).error_metrics.retry_attempts + 1
                    &&& final(self).error_metrics.fallback_activations == old(self).error_metrics.fallback_activations
                },
                RecoveryAction::Fallback { strategy } => {
                    &&& match Self::fallback_outcome(strategy) {
                        Ok(m) => r matches Ok(Some(x)) && x@ == m,
                        Err(m) => r matches Err(AIServiceError::ServiceUnavailable(x)) && x@ == m,
                    }
                    &&& final(self).error_metrics.fallback_activations == old(self).error_metrics.fallback_activations + 1
                    &&& final(self).error_metrics.retry_attempts == old(self).error_metrics.retry_attempts
                },
                RecoveryAction::Fail { reason } => {
                    &&& r matches Err(AIServiceError::ServiceUnavailable(x)) && x@ == reason@
                    &&& final(self).error_metrics == old(self).error_metrics
                },
                RecoveryAction::CircuitBreak { service, .. } => {
                    &&& r matches Err(AIServiceError::ServiceUnavailable(x)) && x@ == Self::unavailable_message(service@)
                    &&& final(self).error_metrics == old(self).error_metrics
                },
            },
    {
        match action {
            RecoveryAction::Retry { .. } => {
                self.error_metrics.retry_attempts = self.error_metrics.retry_attempts + 1;
                Ok(None)
            },
            RecoveryAction::Fallback { strategy } => {
                self.error_metrics.fallback_activations = self.error_metrics.fallback_activations + 1;
                self.execute_fallback_strategy(strategy)
            },
            RecoveryAction::Fail { reason } => Err(AIServiceError::ServiceUnavailable(reason)),
            RecoveryAction::CircuitBreak { service, .. } => {
                let mut v: Vec<char> = Vec::new();
                crate::text::push_str(&mut v, "Service ");
                crate::text::push_str(&mut v, service.as_str());
                crate::text::push_str(&mut v, " is temporarily unavailable");
                Err(AIServiceError::ServiceUnavailable(crate::text::string_from_chars(&v)))
            },
        }
    }

    /// Handles an error: counts it by kind, checks the breaker of the
    /// context's service (see `check_circuit_breaker`), and where the breaker
    /// keeps the call back gives its action, else the recovery for the kind
    /// and attempt (see `determine_recovery_action`, with `delay_ms` the
    /// backoff delay for this attempt).
    pub fn handle_error(&mut self, error: &AIServiceError, context: &ErrorContext, attempt: u32, delay_ms: u64) -> (r: RecoveryAction)
        requires
            old(self).wf(),
            old(self).error_metrics.total_errors < u64::MAX,
            old(self).error_metrics.errors_of(classify_spec(*error)) < u64::MAX,
        ensures
            final(self).wf(),
            final(self).config == old(self).config,
            final(self).error_metrics.total_errors == old(self).error_metrics.total_errors + 1,
            final(self).error_metrics.errors_of(classify_spec(*error)) == old(self).error_metrics.errors_of(classify_spec(*error)) + 1,
            exists|c: Option<RecoveryAction>, i: int, elapsed: u128| {
                &&& #[trigger] Self::checked_at(*old(self), *final(self), context.service@, c, i, elapsed)
                &&& match c {
                    Some(a) => r == a,
                    None => recovery_matches(r, classify_spec(*error), attempt, delay_ms, old(self).config.enable_fallback),
                }
            },
    {
        let error_type = self.classify_error(error);
        self.update_error_metrics(error_type);
        let ghost mid = *self;
        let checked = self.check_circuit_breaker(context.service.as_str());
        let ghost (i, elapsed) = choose|i: int, elapsed: u128| #[trigger] Self::checked_at(mid, *self, context.service@, checked, i, elapsed);
        assert(mid.circuit_breakers@ == old(self).circuit_breakers@);
        assert(mid.config == old(self).config);
        assert(Self::checked_at(*old(self), *self, context.service@, checked, i, elapsed));
        match checked {
            Some(action) => action,
            None => self.determine_recovery_action(&error_type, attempt, delay_ms),
        }
    }

    /// The counters of errors.
    pub fn get_metrics(&self) -> (r: &ErrorMetrics)
        ensures
            *r == self.error_metrics,
    {
        &self.error_metrics
    }

    /// Sets every counter of errors back to zero.
    pub fn reset_metrics(&mut self)
        requires
            old(self).wf(),
        ensures
            final(self).wf(),
            final(self).config == old(self).config,
            final(self).circuit_breakers@ == old(self).circuit_breakers@,
            final(self).error_metrics.total_errors == 0,
            final(self).error_metrics.errors_by_type@.len() == 0,
            final(self).error_metrics.retry_attempts == 0,
            final(self).error_metrics.successful_retries == 0,
            final(self).error_metrics.fallback_activations == 0,
            final(self).error_metrics.circuit_breaker_trips == 0,
    {
        self.error_metrics = ErrorMetrics::new();
    }

    /// The breaker of `service`, if it has one.
    pub fn get_circuit_breaker_status(&self, service: &str) -> (r: Option<&CircuitBreaker>)
        ensures
            match r {
                Some(cb) => exists|i: int| self.breaker_at(service@, i) && self.circuit_breakers@[i].1 == *cb,
                None => forall|i: int| !self.breaker_at(service@, i),
            },
    {
        match self.find_breaker(service) {
            Some(i) => Some(&self.circuit_breakers[i].1),
            None => None,
        }
    }
}

} // verus!
