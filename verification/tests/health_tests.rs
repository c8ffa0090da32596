use sanad_ai::integration::assemble_health_status;
use sanad_ai::service_manager::{
    overall_health, reported_health, HealthStatus, InitializationResult, ServiceHealth,
};

#[test]
fn all_checks_passing_is_healthy() {
    let r = assemble_health_status(Ok(true), Ok(()), true, 42);
    assert_eq!(r.overall_status, "healthy");
    assert_eq!(r.hugging_face_status, "healthy");
    assert_eq!(r.vector_db_status, "healthy");
    assert_eq!(r.cache_status, "healthy");
    assert_eq!(r.last_check, 42);
    assert!(r.error_details.is_empty());
}

#[test]
fn loading_model_or_weak_cache_is_degraded() {
    let r = assemble_health_status(Ok(false), Ok(()), true, 0);
    assert_eq!(r.hugging_face_status, "loading");
    assert_eq!(r.overall_status, "degraded");
    let r = assemble_health_status(Ok(true), Ok(()), false, 0);
    assert_eq!(r.cache_status, "degraded");
    assert_eq!(r.overall_status, "degraded");
}

#[test]
fn failed_checks_are_unhealthy_with_their_errors() {
    let r = assemble_health_status(Err("timeout".to_string()), Err("refused".to_string()), true, 0);
    assert_eq!(r.overall_status, "unhealthy");
    assert_eq!(r.hugging_face_status, "unhealthy");
    assert_eq!(r.vector_db_status, "unhealthy");
    assert_eq!(r.error_details, vec!["Hugging Face: timeout".to_string(), "Vector DB: refused".to_string()]);
}

#[test]
fn reported_names_map_to_health() {
    assert_eq!(reported_health("healthy", false), HealthStatus::Healthy);
    assert_eq!(reported_health("loading", true), HealthStatus::Degraded);
    assert_eq!(reported_health("loading", false), HealthStatus::Unknown);
    assert_eq!(reported_health("unhealthy", false), HealthStatus::Unhealthy);
    assert_eq!(reported_health("other", true), HealthStatus::Unknown);
    assert_eq!(overall_health(HealthStatus::Healthy, HealthStatus::Healthy, HealthStatus::Unknown), HealthStatus::Degraded);
    assert_eq!(overall_health(HealthStatus::Healthy, HealthStatus::Unhealthy, HealthStatus::Healthy), HealthStatus::Unhealthy);
}

#[test]
fn manager_health_follows_the_report() {
    let mut health = ServiceHealth::new(1);
    assert_eq!(health.overall_status, HealthStatus::Unknown);
    health.apply_report(assemble_health_status(Ok(false), Ok(()), true, 9));
    assert_eq!(health.hugging_face_status, HealthStatus::Degraded);
    assert_eq!(health.vector_db_status, HealthStatus::Healthy);
    assert_eq!(health.overall_status, HealthStatus::Degraded);
    assert_eq!(health.last_check, 9);
    health.record_check_failure("boom");
    assert_eq!(health.overall_status, HealthStatus::Unhealthy);
    assert_eq!(health.error_details, vec!["Health check error: boom".to_string()]);
    health.mark_shutdown(20);
    assert_eq!(health.overall_status, HealthStatus::Unhealthy);
    assert_eq!(health.last_check, 20);
}

#[test]
fn initialization_succeeds_only_when_every_service_starts() {
    let mut r = InitializationResult::new();
    r.record_service("Hugging Face", Ok(()));
    r.record_service("Vector Database", Ok(()));
    assert!(r.may_start_integration());
    r.record_integration(Ok(()));
    assert!(r.success);
    r.record_monitoring_started();
    assert_eq!(
        r.services_initialized,
        vec!["Hugging Face".to_string(), "Vector Database".to_string(), "Integration Service".to_string(), "Health Monitoring".to_string()]
    );

    let mut r = InitializationResult::new();
    r.record_service("Hugging Face", Err("no key".to_string()));
    r.record_service("Vector Database", Ok(()));
    assert!(!r.may_start_integration());
    r.skip_integration();
    assert!(!r.success);
    assert_eq!(r.services_failed, vec!["Hugging Face: no key".to_string()]);
    assert_eq!(r.warnings, vec!["Integration Service not initialized due to dependency failures".to_string()]);
    let mut health = ServiceHealth::new(0);
    health.record_initialization(r.success, &r.services_initialized, 3);
    assert_eq!(health.overall_status, HealthStatus::Degraded);
}
