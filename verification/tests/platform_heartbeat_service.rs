use pos_terminal::services::platform_heartbeat_service::{determine_status, ErrorLog, HeartbeatStatus, MAX_RECENT_ERRORS};

/// The load thresholds the heartbeat applies to the machine's measurements.
fn under_pressure(cpu: f64, memory: f64, disk: f64) -> bool {
    cpu > 90.0 || memory > 90.0 || disk > 95.0
}

#[test]
fn test_record_error() {
    let mut log = ErrorLog::new();
    log.record_error("Test error 1");
    log.record_error("Test error 2");
    assert_eq!(log.error_count(), 2);
    assert_eq!(log.reported_errors().unwrap().len(), 2);
}

#[test]
fn test_clear_errors() {
    let mut log = ErrorLog::new();
    log.record_error("Test error");
    assert_eq!(log.error_count(), 1);

    log.clear();
    assert_eq!(log.error_count(), 0);
    assert!(log.reported_errors().is_none());
}

#[test]
fn test_determine_status_healthy() {
    let status = determine_status(0, under_pressure(30.0, 50.0, 60.0));
    assert_eq!(status, HeartbeatStatus::Healthy);
}

#[test]
fn test_determine_status_degraded_high_cpu() {
    let status = determine_status(0, under_pressure(95.0, 50.0, 60.0));
    assert_eq!(status, HeartbeatStatus::Degraded);
}

#[test]
fn test_determine_status_with_errors() {
    let mut log = ErrorLog::new();
    log.record_error("Error 1");
    log.record_error("Error 2");
    let status = determine_status(log.error_count(), under_pressure(0.0, 0.0, 0.0));
    assert_eq!(status, HeartbeatStatus::Degraded);
}

#[test]
fn test_determine_status_error() {
    let mut log = ErrorLog::new();
    for i in 0..10 {
        log.record_error(&format!("Error {}", i));
    }
    let status = determine_status(log.error_count(), under_pressure(0.0, 0.0, 0.0));
    assert_eq!(status, HeartbeatStatus::Error);
}

#[test]
fn test_max_recent_errors() {
    let mut log = ErrorLog::new();
    for i in 0..15 {
        log.record_error(&format!("Error {}", i));
    }
    let errors = log.reported_errors().unwrap();
    assert_eq!(errors.len(), MAX_RECENT_ERRORS);
    assert!(!errors[0].contains("Error 0"));
    assert_eq!(errors[0], "Error 5");
    assert_eq!(log.reported_count(), Some(15));
}
