use sanad_ai::config::CircuitBreakerConfig;
use sanad_ai::service_manager::{CircuitBreaker, CircuitBreakerState};

#[test]
fn service_manager_test_circuit_breaker() {
    let config = CircuitBreakerConfig {
        failure_threshold: 3,
        recovery_timeout_seconds: 60,
        half_open_max_calls: 2,
    };

    let mut circuit_breaker = CircuitBreaker::new();

    assert!(circuit_breaker.should_allow_request(&config));

    circuit_breaker.record_result(false, &config);
    circuit_breaker.record_result(false, &config);
    circuit_breaker.record_result(false, &config);

    assert_eq!(circuit_breaker.state, CircuitBreakerState::Open);
    assert!(!circuit_breaker.should_allow_request(&config));
}

#[test]
fn breaker_success_clears_failures() {
    let config = CircuitBreakerConfig { failure_threshold: 3, recovery_timeout_seconds: 60, half_open_max_calls: 2 };
    let mut cb = CircuitBreaker::new();
    cb.record_result(false, &config);
    cb.record_result(false, &config);
    cb.record_result(true, &config);
    assert_eq!(cb.failure_count, 0);
    assert_eq!(cb.state, CircuitBreakerState::Closed);
}

#[test]
fn breaker_invariant_holds_along_a_run_of_calls() {
    let config = CircuitBreakerConfig { failure_threshold: 2, recovery_timeout_seconds: 0, half_open_max_calls: 1 };
    let mut cb = CircuitBreaker::new();
    let check = |cb: &CircuitBreaker| {
        if cb.state == CircuitBreakerState::Closed {
            assert!(cb.failure_count < config.failure_threshold);
        } else {
            assert!(cb.last_failure_time.is_some());
        }
    };
    check(&cb);
    for success in [false, true, false, false, true, false, false] {
        cb.should_allow_request(&config);
        check(&cb);
        cb.record_result(success, &config);
        check(&cb);
    }
    // with no recovery time, the breaker lets a trial through as soon as the
    // clock has moved past the last failure
    let mut allowed = false;
    for _ in 0..1_000_000 {
        if cb.should_allow_request(&config) {
            allowed = true;
            break;
        }
    }
    assert!(allowed);
    assert_eq!(cb.state, CircuitBreakerState::HalfOpen);
    check(&cb);
    cb.record_result(true, &config);
    assert_eq!(cb.state, CircuitBreakerState::Closed);
    check(&cb);
}
