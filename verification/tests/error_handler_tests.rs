use sanad_ai::error_handler::{
    CircuitBreakerState, ErrorContext, ErrorHandler, ErrorHandlerConfig, ErrorType, FallbackStrategy, RecoveryAction,
};
use sanad_ai::types::AIServiceError;

#[test]
fn test_error_context_creation() {
    let context = ErrorContext::new("test_operation".to_string(), "test_service".to_string())
        .with_user_id("user123".to_string())
        .with_metadata("key".to_string(), "value".to_string());

    assert_eq!(context.operation, "test_operation");
    assert_eq!(context.service, "test_service");
    assert_eq!(context.user_id, Some("user123".to_string()));
    assert_eq!(context.metadata.get("key"), Some(&"value".to_string()));
}

#[test]
fn error_handler_test_circuit_breaker() {
    let mut handler = ErrorHandler::new(ErrorHandlerConfig::default());
    let service = "test_service";

    for _ in 0..5 {
        handler.record_result(service, false);
    }

    let circuit_breaker = handler.get_circuit_breaker_status(service).unwrap();
    assert_eq!(circuit_breaker.state, CircuitBreakerState::Open);
}

#[test]
fn test_error_classification() {
    let handler = ErrorHandler::new(ErrorHandlerConfig::default());

    let rate_limit_error = AIServiceError::ExternalAPIError("rate limit exceeded".to_string());
    assert_eq!(handler.classify_error(&rate_limit_error), ErrorType::RateLimitError);

    let auth_error = AIServiceError::ExternalAPIError("authentication failed".to_string());
    assert_eq!(handler.classify_error(&auth_error), ErrorType::AuthenticationError);

    let db_error = AIServiceError::DatabaseError("connection failed".to_string());
    assert_eq!(handler.classify_error(&db_error), ErrorType::VectorDatabaseError);
}

#[test]
fn breaker_stays_closed_below_threshold() {
    let mut handler = ErrorHandler::new(ErrorHandlerConfig::default());
    let threshold = handler.config.circuit_breaker_threshold;
    for _ in 0..(threshold - 1) {
        handler.record_result("svc", false);
    }
    assert_eq!(handler.get_circuit_breaker_status("svc").unwrap().state, CircuitBreakerState::Closed);
    handler.record_result("svc", false);
    assert_eq!(handler.get_circuit_breaker_status("svc").unwrap().state, CircuitBreakerState::Open);
    assert_eq!(handler.error_metrics.circuit_breaker_trips, 1);
}

#[test]
fn open_breaker_keeps_calls_back_within_timeout() {
    let mut handler = ErrorHandler::new(ErrorHandlerConfig::default());
    for _ in 0..5 {
        handler.record_result("svc", false);
    }
    match handler.check_circuit_breaker("svc") {
        Some(RecoveryAction::CircuitBreak { service, duration_ms }) => {
            assert_eq!(service, "svc");
            assert!(duration_ms <= handler.config.circuit_breaker_timeout_ms);
        }
        other => panic!("expected a circuit break, got {:?}", other),
    }
}

#[test]
fn closed_breaker_lets_calls_through() {
    let mut handler = ErrorHandler::new(ErrorHandlerConfig::default());
    assert!(handler.check_circuit_breaker("fresh").is_none());
    assert_eq!(handler.get_circuit_breaker_status("fresh").unwrap().state, CircuitBreakerState::Closed);
}

#[test]
fn fallback_strategies_give_their_outcomes() {
    let handler = ErrorHandler::new(ErrorHandlerConfig::default());
    assert_eq!(
        handler.execute_fallback_strategy(FallbackStrategy::UseCache).unwrap(),
        Some("use_cache".to_string())
    );
    assert_eq!(
        handler.execute_fallback_strategy(FallbackStrategy::RetryWithDifferentModel).unwrap(),
        Some("retry_different_model".to_string())
    );
    assert_eq!(
        handler.execute_fallback_strategy(FallbackStrategy::DegradeService).unwrap(),
        Some("service_degraded".to_string())
    );
    assert!(handler
        .execute_fallback_strategy(FallbackStrategy::UseOfflineResponse)
        .unwrap()
        .unwrap()
        .contains("الخدمة غير متاحة"));
    assert_eq!(
        handler.execute_fallback_strategy(FallbackStrategy::FailGracefully).unwrap_err(),
        AIServiceError::ServiceUnavailable("Service is temporarily unavailable".to_string())
    );
}

#[test]
fn recovery_actions_update_counters() {
    let mut handler = ErrorHandler::new(ErrorHandlerConfig::default());
    let r = handler.execute_recovery_action(RecoveryAction::Retry { delay_ms: 10, attempt: 1 });
    assert_eq!(r.unwrap(), None);
    assert_eq!(handler.error_metrics.retry_attempts, 1);
    let r = handler.execute_recovery_action(RecoveryAction::Fallback { strategy: FallbackStrategy::UseCache });
    assert_eq!(r.unwrap(), Some("use_cache".to_string()));
    assert_eq!(handler.error_metrics.fallback_activations, 1);
    let r = handler.execute_recovery_action(RecoveryAction::CircuitBreak { service: "db".to_string(), duration_ms: 5 });
    assert_eq!(
        r.unwrap_err(),
        AIServiceError::ServiceUnavailable("Service db is temporarily unavailable".to_string())
    );
    let r = handler.execute_recovery_action(RecoveryAction::Fail { reason: "gone".to_string() });
    assert_eq!(r.unwrap_err(), AIServiceError::ServiceUnavailable("gone".to_string()));
}

#[test]
fn handling_an_error_counts_it() {
    let mut handler = ErrorHandler::new(ErrorHandlerConfig::default());
    let context = ErrorContext::new("ask".to_string(), "model".to_string());
    let error = AIServiceError::ExternalAPIError("rate limit exceeded".to_string());
    let action = handler.handle_error(&error, &context, 0, 1000);
    assert_eq!(handler.error_metrics.total_errors, 1);
    assert!(matches!(action, RecoveryAction::Retry { delay_ms: 1000, attempt: 1 }));
    handler.reset_metrics();
    assert_eq!(handler.get_metrics().total_errors, 0);
}
