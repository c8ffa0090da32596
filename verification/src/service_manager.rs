//! Health, initialisation results and the circuit breaker that guards the
//! outside services.
use vstd::prelude::*;
use crate::config::CircuitBreakerConfig;
use crate::clock::{elapsed_nanos, instant_now};
use crate::integration::ServiceHealthStatus;
use crate::text::{push_str, str_eq, string_from_chars, string_views};

verus! {

/// Health of a service.
#[derive(Debug, Clone, Copy, PartialEq, Eq, Structural)]
pub enum HealthStatus {
    Healthy,
    Degraded,
    Unhealthy,
    Unknown,
}

/// States of the circuit breaker.
#[derive(Debug, Clone, Copy, PartialEq, Eq, Structural)]
pub enum CircuitBreakerState {
    Closed,
    Open,
    HalfOpen,
}

/// The outcome of initialising the services.
#[derive(Debug)]
pub struct InitializationResult {
    pub success: bool,
    pub services_initialized: Vec<String>,
    pub services_failed: Vec<String>,
    pub warnings: Vec<String>,
    pub initialization_time_ms: u64,
}

/// Circuit breaker for the outside services.
#[derive(Debug, Clone)]
pub struct CircuitBreaker {
    pub state: CircuitBreakerState,
    pub failure_count: u32,
    pub last_failure_time: Option<std::time::Instant>,
    pub half_open_calls: u32,
}

/// The part of a circuit breaker that its decisions read.
pub struct BreakerModel {
    pub state: CircuitBreakerState,
    pub failure_count: nat,
    pub has_failure_time: bool,
    pub half_open_calls: nat,
}

impl CircuitBreaker {
    /// The decision-relevant part of the breaker.
    pub open spec fn model(&self) -> BreakerModel {
        BreakerModel {
            state: self.state,
            failure_count: self.failure_count as nat,
            has_failure_time: self.last_failure_time is Some,
            half_open_calls: self.half_open_calls as nat,
        }
    }
}

/// The breaker after recording a result: when closed, a success clears the
/// failures and a failure counts one more and opens the breaker at the
/// threshold; when half-open, a success closes it and clears the counters and a
/// failure reopens it; when open, nothing changes.
pub open spec fn record_spec(m: BreakerModel, success: bool, threshold: nat) -> BreakerModel {
    match m.state {
        CircuitBreakerState::Closed => if success {
            BreakerModel { failure_count: 0, ..m }
        } else {
            BreakerModel {
                state: if m.failure_count + 1 >= threshold { CircuitBreakerState::Open } else { CircuitBreakerState::Closed },
                failure_count: m.failure_count + 1,
                has_failure_time: true,
                ..m
            }
        },
        CircuitBreakerState::HalfOpen => if success {
            BreakerModel { state: CircuitBreakerState::Closed, failure_count: 0, half_open_calls: 0, ..m }
        } else {
            BreakerModel {
                state: CircuitBreakerState::Open,
                failure_count: m.failure_count + 1,
                has_failure_time: true,
                ..m
            }
        },
        CircuitBreakerState::Open => m,
    }
}

/// Whether a request may pass, given the time since the last failure: always
/// when closed; when open only once the recovery timeout has passed; when
/// half-open while fewer trial calls than allowed have been made.
pub open spec fn allow_spec(m: BreakerModel, elapsed: Option<u128>, config: CircuitBreakerConfig) -> bool {
    match m.state {
        CircuitBreakerState::Closed => true,
        CircuitBreakerState::Open => match elapsed {
            Some(e) => e > config.recovery_timeout_seconds as int * 1_000_000_000,
            None => false,
        },
        CircuitBreakerState::HalfOpen => m.half_open_calls < config.half_open_max_calls,
    }
}

/// The breaker after asking whether a request may pass: an open breaker whose
/// recovery timeout has passed becomes half-open with no trial calls; otherwise
/// nothing changes.
pub open spec fn after_allow_spec(m: BreakerModel, elapsed: Option<u128>, config: CircuitBreakerConfig) -> BreakerModel {
    match m.state {
        CircuitBreakerState::Open => match elapsed {
            Some(e) => if e > config.recovery_timeout_seconds as int * 1_000_000_000 {
                BreakerModel { state: CircuitBreakerState::HalfOpen, half_open_calls: 0, ..m }
            } else {
                m
            },
            None => m,
        },
        _ => m,
    }
}

/// The breaker that `new` builds.
pub open spec fn fresh_breaker() -> BreakerModel {
    BreakerModel {
        state: CircuitBreakerState::Closed,
        failure_count: 0,
        has_failure_time: false,
        half_open_calls: 0,
    }
}

/// The breaker after `n` failures in a row.
pub open spec fn after_failures(m: BreakerModel, n: nat, threshold: nat) -> BreakerModel
    decreases n,
{
    if n == 0 {
        m
    } else {
        record_spec(after_failures(m, (n - 1) as nat, threshold), false, threshold)
    }
}

impl CircuitBreaker {
    /// A closed breaker with no failures.
    pub fn new() -> (r: Self)
        ensures
            r.model() == fresh_breaker(),
    {
        CircuitBreaker {
            state: CircuitBreakerState::Closed,
            failure_count: 0,
            last_failure_time: None,
            half_open_calls: 0,
        }
    }

    /// Whether a request may pass now; reads the time since the last failure
    /// from the clock (see `allow_spec` and `after_allow_spec`, which hold for
    /// whatever time the clock reports).
    pub fn should_allow_request(&mut self, config: &CircuitBreakerConfig) -> (r: bool)
        ensures
            exists|e: Option<u128>|
                (e is Some <==> old(self).last_failure_time is Some) && r == allow_spec(old(self).model(), e, *config)
                    && final(self).model() == after_allow_spec(old(self).model(), e, *config),
            final(self).last_failure_time == old(self).last_failure_time,
    {
        let elapsed = match &self.last_failure_time {
            Some(t) => Some(elapsed_nanos(t)),
            None => None,
        };
        self.should_allow_request_after(config, elapsed)
    }

    /// Whether a request may pass when `elapsed` nanoseconds have gone by since
    /// the last failure (`None` when there was none).
    pub fn should_allow_request_after(&mut self, config: &CircuitBreakerConfig, elapsed: Option<u128>) -> (r: bool)
        ensures
            r == allow_spec(old(self).model(), elapsed, *config),
            final(self).model() == after_allow_spec(old(self).model(), elapsed, *config),
            final(self).last_failure_time == old(self).last_failure_time,
    {
        match self.state {
            CircuitBreakerState::Closed => true,
            CircuitBreakerState::Open => match elapsed {
                Some(e) => {
                    if e > config.recovery_timeout_seconds as u128 * 1_000_000_000 {
                        self.state = CircuitBreakerState::HalfOpen;
                        self.half_open_calls = 0;
                        true
                    } else {
                        false
                    }
                },
                None => false,
            },
            CircuitBreakerState::HalfOpen => self.half_open_calls < config.half_open_max_calls,
        }
    }

    /// Records the result of a request; a failure is stamped with the current
    /// time (see `record_spec`).
    pub fn record_result(&mut self, success: bool, config: &CircuitBreakerConfig)
        requires
            old(self).failure_count < u32::MAX,
        ensures
            final(self).model() == record_spec(old(self).model(), success, config.failure_threshold as nat),
            success || old(self).state == CircuitBreakerState::Open
                ==> final(self).last_failure_time == old(self).last_failure_time,
            old(self).state == CircuitBreakerState::Open ==> *final(self) == *old(self),
    {
        let now = instant_now();
        match self.state {
            CircuitBreakerState::Closed => {
                if success {
                    self.failure_count = 0;
                } else {
                    self.failure_count = self.failure_count + 1;
                    self.last_failure_time = Some(now);
                    if self.failure_count >= config.failure_threshold {
                        self.state = CircuitBreakerState::Open;
                    }
                }
            },
            CircuitBreakerState::HalfOpen => {
                if success {
                    self.state = CircuitBreakerState::Closed;
                    self.failure_count = 0;
                    self.half_open_calls = 0;
                } else {
                    self.state = CircuitBreakerState::Open;
                    self.failure_count = self.failure_count + 1;
                    self.last_failure_time = Some(now);
                }
            },
            CircuitBreakerState::Open => {},
        }
    }
}

/// Law: a fresh breaker opens after as many failures in a row as the failure
/// threshold (when the threshold is at least one), and its failure count is
/// then the threshold.
pub proof fn law_breaker_opens_at_threshold(threshold: nat)
    requires
        threshold >= 1,
    ensures
        after_failures(fresh_breaker(), threshold, threshold).state == CircuitBreakerState::Open,
        after_failures(fresh_breaker(), threshold, threshold).failure_count == threshold,
{
    lemma_failures_below_threshold(threshold, (threshold - 1) as nat);
}

/// Fewer failures than the threshold leave a fresh breaker closed, counting them.
pub proof fn lemma_failures_below_threshold(threshold: nat, n: nat)
    requires
        n < threshold,
    ensures
        after_failures(fresh_breaker(), n, threshold).state == CircuitBreakerState::Closed,
        after_failures(fresh_breaker(), n, threshold).failure_count == n,
        after_failures(fresh_breaker(), n, threshold).half_open_calls == 0,
    decreases n,
{
    if n > 0 {
        lemma_failures_below_threshold(threshold, (n - 1) as nat);
    }
}

/// Law: an open breaker ignores results until it is allowed to try again.
pub proof fn law_open_breaker_ignores_results(m: BreakerModel, success: bool, threshold: nat)
    requires
        m.state == CircuitBreakerState::Open,
    ensures
        record_spec(m, success, threshold) == m,
{
}

/// Law: an open breaker lets no request through before its recovery timeout,
/// and stays open.
pub proof fn law_open_breaker_rejects_before_timeout(m: BreakerModel, elapsed: u128, config: CircuitBreakerConfig)
    requires
        m.state == CircuitBreakerState::Open,
        elapsed <= config.recovery_timeout_seconds as int * 1_000_000_000,
    ensures
        !allow_spec(m, Some(elapsed), config),
        after_allow_spec(m, Some(elapsed), config) == m,
{
}

/// What every breaker keeps true: a closed breaker has fewer failures than the
/// threshold, and a breaker that is not closed has a time of last failure.
pub open spec fn breaker_inv(m: BreakerModel, threshold: nat) -> bool {
    &&& m.state == CircuitBreakerState::Closed ==> m.failure_count < threshold
    &&& m.state != CircuitBreakerState::Closed ==> m.has_failure_time
}

/// Law: a fresh breaker meets the invariant (for a threshold of at least one),
/// and recording a result or asking whether a request may pass keeps it.
pub proof fn law_breaker_invariant(m: BreakerModel, success: bool, elapsed: Option<u128>, config: CircuitBreakerConfig)
    requires
        config.failure_threshold >= 1,
        breaker_inv(m, config.failure_threshold as nat),
    ensures
        breaker_inv(fresh_breaker(), config.failure_threshold as nat),
        breaker_inv(record_spec(m, success, config.failure_threshold as nat), config.failure_threshold as nat),
        breaker_inv(after_allow_spec(m, elapsed, config), config.failure_threshold as nat),
{
}

/// A call on a breaker: recording a result, or asking whether a request may
/// pass when the given time has gone by since the last failure.
pub enum BreakerCall {
    Record(bool),
    Allow(Option<u128>),
}

/// The breaker after one call.
pub open spec fn after_call(m: BreakerModel, call: BreakerCall, config: CircuitBreakerConfig) -> BreakerModel {
    match call {
        BreakerCall::Record(success) => record_spec(m, success, config.failure_threshold as nat),
        BreakerCall::Allow(elapsed) => after_allow_spec(m, elapsed, config),
    }
}

/// The breaker after the calls, in order.
pub open spec fn after_calls(m: BreakerModel, calls: Seq<BreakerCall>, config: CircuitBreakerConfig) -> BreakerModel
    decreases calls.len(),
{
    if calls.len() == 0 {
        m
    } else {
        after_call(after_calls(m, calls.drop_last(), config), calls.last(), config)
    }
}

/// Law: for a threshold of at least one, every breaker that a fresh one
/// becomes through any sequence of calls with one configuration meets the
/// invariant: while closed it has fewer failures than the threshold, and
/// otherwise it has a time of last failure.
pub proof fn law_breaker_invariant_always(calls: Seq<BreakerCall>, config: CircuitBreakerConfig)
    requires
        config.failure_threshold >= 1,
    ensures
        breaker_inv(after_calls(fresh_breaker(), calls, config), config.failure_threshold as nat),
    decreases calls.len(),
{
    if calls.len() > 0 {
        law_breaker_invariant_always(calls.drop_last(), config);
        let m = after_calls(fresh_breaker(), calls.drop_last(), config);
        match calls.last() {
            BreakerCall::Record(success) => law_breaker_invariant(m, success, None, config),
            BreakerCall::Allow(elapsed) => law_breaker_invariant(m, true, elapsed, config),
        }
    }
}

/// Law: a success while half-open closes the breaker and clears its counters.
pub proof fn law_half_open_success_closes(m: BreakerModel, threshold: nat)
    requires
        m.state == CircuitBreakerState::HalfOpen,
    ensures
        record_spec(m, true, threshold).state == CircuitBreakerState::Closed,
        record_spec(m, true, threshold).failure_count == 0,
        record_spec(m, true, threshold).half_open_calls == 0,
{
}


// ---------------------------------------------------------------------------
// Health of the services
// ---------------------------------------------------------------------------

/// The health named in a report: "healthy", "degraded" and "unhealthy" name
/// themselves, "loading" counts as degraded where `loading_is_degraded`, and
/// any other name is unknown.
pub open spec fn reported_health_spec(report: Seq<char>, loading_is_degraded: bool) -> HealthStatus {
    if report == "healthy"@ {
        HealthStatus::Healthy
    } else if report == "degraded"@ || (loading_is_degraded && report == "loading"@) {
        HealthStatus::Degraded
    } else if report == "unhealthy"@ {
        HealthStatus::Unhealthy
    } else {
        HealthStatus::Unknown
    }
}

/// The health named in a report (see `reported_health_spec`).
pub fn reported_health(report: &str, loading_is_degraded: bool) -> (r: HealthStatus)
    ensures
        r == reported_health_spec(report@, loading_is_degraded),
{
    if str_eq(report, "healthy") {
        HealthStatus::Healthy
    } else if str_eq(report, "degraded") || (loading_is_degraded && str_eq(report, "loading")) {
        HealthStatus::Degraded
    } else if str_eq(report, "unhealthy") {
        HealthStatus::Unhealthy
    } else {
        HealthStatus::Unknown
    }
}

/// The overall health: healthy when the model, the database and the cache
/// all are; else unhealthy when the model or the database is; else degraded.
pub open spec fn overall_health_spec(model: HealthStatus, database: HealthStatus, cache: HealthStatus) -> HealthStatus {
    if model == HealthStatus::Healthy && database == HealthStatus::Healthy && cache == HealthStatus::Healthy {
        HealthStatus::Healthy
    } else if model == HealthStatus::Unhealthy || database == HealthStatus::Unhealthy {
        HealthStatus::Unhealthy
    } else {
        HealthStatus::Degraded
    }
}

/// The overall health (see `overall_health_spec`).
pub fn overall_health(model: HealthStatus, database: HealthStatus, cache: HealthStatus) -> (r: HealthStatus)
    ensures
        r == overall_health_spec(model, database, cache),
{
    if model == HealthStatus::Healthy && database == HealthStatus::Healthy && cache == HealthStatus::Healthy {
        HealthStatus::Healthy
    } else if model == HealthStatus::Unhealthy || database == HealthStatus::Unhealthy {
        HealthStatus::Unhealthy
    } else {
        HealthStatus::Degraded
    }
}

/// The health after initialisation: healthy when it succeeded, degraded when
/// some service came up, unhealthy when none did.
pub open spec fn initialization_health_spec(success: bool, any_initialized: bool) -> HealthStatus {
    if success {
        HealthStatus::Healthy
    } else if any_initialized {
        HealthStatus::Degraded
    } else {
        HealthStatus::Unhealthy
    }
}

/// The health of the services as the manager keeps it; `last_check` is in
/// Unix seconds.
#[derive(Debug, Clone)]
pub struct ServiceHealth {
    pub overall_status: HealthStatus,
    pub hugging_face_status: HealthStatus,
    pub vector_db_status: HealthStatus,
    pub cache_status: HealthStatus,
    pub last_check: i64,
    pub uptime_seconds: u64,
    pub error_details: Vec<String>,
}

impl ServiceHealth {
    /// Nothing known yet: every status unknown, no uptime, no errors.
    pub fn new(now: i64) -> (r: Self)
        ensures
            r.overall_status == HealthStatus::Unknown,
            r.hugging_face_status == HealthStatus::Unknown,
            r.vector_db_status == HealthStatus::Unknown,
            r.cache_status == HealthStatus::Unknown,
            r.last_check == now,
            r.uptime_seconds == 0,
            r.error_details@.len() == 0,
    {
        ServiceHealth {
            overall_status: HealthStatus::Unknown,
            hugging_face_status: HealthStatus::Unknown,
            vector_db_status: HealthStatus::Unknown,
            cache_status: HealthStatus::Unknown,
            last_check: now,
            uptime_seconds: 0,
            error_details: Vec::new(),
        }
    }

    /// Records the outcome of initialisation: whether it succeeded and
    /// whether any service came up.
    pub fn record_initialization(&mut self, success: bool, services_initialized: &Vec<String>, now: i64)
        ensures
            final(self).overall_status == initialization_health_spec(success, services_initialized@.len() > 0),
            final(self).last_check == now,
            final(self).hugging_face_status == old(self).hugging_face_status,
            final(self).vector_db_status == old(self).vector_db_status,
            final(self).cache_status == old(self).cache_status,
            final(self).uptime_seconds == old(self).uptime_seconds,
            final(self).error_details@ == old(self).error_details@,
    {
        self.overall_status = if success {
            HealthStatus::Healthy
        } else if services_initialized.len() > 0 {
            HealthStatus::Degraded
        } else {
            HealthStatus::Unhealthy
        };
        self.last_check = now;
    }

    /// Takes in a report of the integration service: each component's
    /// health by its name (a loading model counts as degraded), the overall
    /// health from those, and the report's time and errors.
    pub fn apply_report(&mut self, report: ServiceHealthStatus)
        ensures
            final(self).hugging_face_status == reported_health_spec(report.hugging_face_status@, true),
            final(self).vector_db_status == reported_health_spec(report.vector_db_status@, false),
            final(self).cache_status == reported_health_spec(report.cache_status@, false),
            final(self).overall_status == overall_health_spec(
                final(self).hugging_face_status,
                final(self).vector_db_status,
                final(self).cache_status,
            ),
            final(self).last_check == report.last_check,
            final(self).error_details@ == report.error_details@,
            final(self).uptime_seconds == old(self).uptime_seconds,
    {
        self.hugging_face_status = reported_health(report.hugging_face_status.as_str(), true);
        self.vector_db_status = reported_health(report.vector_db_status.as_str(), false);
        self.cache_status = reported_health(report.cache_status.as_str(), false);
        self.overall_status = overall_health(self.hugging_face_status, self.vector_db_status, self.cache_status);
        self.last_check = report.last_check;
        self.error_details = report.error_details;
    }

    /// Records a health check that failed with `message`: the services count
    /// as unhealthy and the message is the one error kept.
    pub fn record_check_failure(&mut self, message: &str)
        ensures
            final(self).overall_status == HealthStatus::Unhealthy,
            string_views(final(self).error_details@) == seq!["Health check error: "@ + message@],
            final(self).hugging_face_status == old(self).hugging_face_status,
            final(self).vector_db_status == old(self).vector_db_status,
            final(self).cache_status == old(self).cache_status,
            final(self).last_check == old(self).last_check,
            final(self).uptime_seconds == old(self).uptime_seconds,
    {
        let mut v: Vec<char> = Vec::new();
        push_str(&mut v, "Health check error: ");
        push_str(&mut v, message);
        let mut errors: Vec<String> = Vec::new();
        errors.push(string_from_chars(&v));
        proof {
            assert(string_views(errors@) =~= seq!["Health check error: "@ + message@]);
        }
        self.overall_status = HealthStatus::Unhealthy;
        self.error_details = errors;
    }

    /// Records that the services were shut down.
    pub fn mark_shutdown(&mut self, now: i64)
        ensures
            final(self).overall_status == HealthStatus::Unhealthy,
            final(self).last_check == now,
            final(self).hugging_face_status == old(self).hugging_face_status,
            final(self).vector_db_status == old(self).vector_db_status,
            final(self).cache_status == old(self).cache_status,
            final(self).uptime_seconds == old(self).uptime_seconds,
            final(self).error_details@ == old(self).error_details@,
    {
        self.overall_status = HealthStatus::Unhealthy;
        self.last_check = now;
    }
}


// ---------------------------------------------------------------------------
// Initialisation
// ---------------------------------------------------------------------------

/// `name`, a colon and `detail`.
pub open spec fn named_failure(name: Seq<char>, detail: Seq<char>) -> Seq<char> {
    name + ": "@ + detail
}

/// The warning given when the integration service is not started.
pub open spec fn integration_skipped_warning() -> Seq<char> {
    "Integration Service not initialized due to dependency failures"@
}

impl InitializationResult {
    /// Nothing tried yet.
    pub fn new() -> (r: Self)
        ensures
            !r.success,
            r.services_initialized@.len() == 0,
            r.services_failed@.len() == 0,
            r.warnings@.len() == 0,
            r.initialization_time_ms == 0,
    {
        InitializationResult {
            success: false,
            services_initialized: Vec::new(),
            services_failed: Vec::new(),
            warnings: Vec::new(),
            initialization_time_ms: 0,
        }
    }

    /// Records the outcome of starting the service `name`: its name among
    /// those started, or its name and the error among those that failed.
    pub fn record_service(&mut self, name: &str, outcome: Result<(), String>)
        ensures
            final(self).success == old(self).success,
            final(self).warnings@ == old(self).warnings@,
            final(self).initialization_time_ms == old(self).initialization_time_ms,
            match outcome {
                Ok(_) => {
                    &&& string_views(final(self).services_initialized@) == string_views(old(self).services_initialized@).push(name@)
                    &&& final(self).services_failed@ == old(self).services_failed@
                },
                Err(e) => {
                    &&& final(self).services_initialized@ == old(self).services_initialized@
                    &&& string_views(final(self).services_failed@)
                        == string_views(old(self).services_failed@).push(named_failure(name@, e@))
                },
            },
    {
        match outcome {
            Ok(_) => {
                let t = crate::text::to_string(name);
                self.services_initialized.push(t);
                proof {
                    assert(string_views(self.services_initialized@)
                        =~= string_views(old(self).services_initialized@).push(name@));
                }
            },
            Err(e) => {
                let mut v: Vec<char> = Vec::new();
                push_str(&mut v, name);
                push_str(&mut v, ": ");
                push_str(&mut v, e.as_str());
                self.services_failed.push(string_from_chars(&v));
                proof {
                    assert(string_views(self.services_failed@)
                        =~= string_views(old(self).services_failed@).push(named_failure(name@, e@)));
                }
            },
        }
    }

    /// Whether the integration service may be started: when no service has
    /// failed.
    pub fn may_start_integration(&self) -> (r: bool)
        ensures
            r == (self.services_failed@.len() == 0),
    {
        self.services_failed.len() == 0
    }

    /// Records the outcome of starting the integration service; when it
    /// started, initialisation has succeeded.
    pub fn record_integration(&mut self, outcome: Result<(), String>)
        ensures
            final(self).success == (old(self).success || outcome is Ok),
            final(self).warnings@ == old(self).warnings@,
            final(self).initialization_time_ms == old(self).initialization_time_ms,
            match outcome {
                Ok(_) => {
                    &&& string_views(final(self).services_initialized@)
                        == string_views(old(self).services_initialized@).push("Integration Service"@)
                    &&& final(self).services_failed@ == old(self).services_failed@
                },
                Err(e) => {
                    &&& final(self).services_initialized@ == old(self).services_initialized@
                    &&& string_views(final(self).services_failed@)
                        == string_views(old(self).services_failed@).push(named_failure("Integration Service"@, e@))
                },
            },
    {
        let ok = outcome.is_ok();
        self.record_service("Integration Service", outcome);
        if ok {
            self.success = true;
        }
    }

    /// Records that the integration service was not started because a
    /// service it needs failed.
    pub fn skip_integration(&mut self)
        ensures
            final(self).success == old(self).success,
            final(self).services_initialized@ == old(self).services_initialized@,
            final(self).services_failed@ == old(self).services_failed@,
            string_views(final(self).warnings@) == string_views(old(self).warnings@).push(integration_skipped_warning()),
            final(self).initialization_time_ms == old(self).initialization_time_ms,
    {
        let t = crate::text::to_string("Integration Service not initialized due to dependency failures");
        self.warnings.push(t);
        proof {
            assert(string_views(self.warnings@) =~= string_views(old(self).warnings@).push(integration_skipped_warning()));
        }
    }

    /// Records that health monitoring was started.
    pub fn record_monitoring_started(&mut self)
        ensures
            final(self).success == old(self).success,
            string_views(final(self).services_initialized@)
                == string_views(old(self).services_initialized@).push("Health Monitoring"@),
            final(self).services_failed@ == old(self).services_failed@,
            final(self).warnings@ == old(self).warnings@,
            final(self).initialization_time_ms == old(self).initialization_time_ms,
    {
        let t = crate::text::to_string("Health Monitoring");
        self.services_initialized.push(t);
        proof {
            assert(string_views(self.services_initialized@)
                =~= string_views(old(self).services_initialized@).push("Health Monitoring"@));
        }
    }
}

} // verus!
