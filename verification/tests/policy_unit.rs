//! Unit tests of the policy engine, one per behaviour of the library.

use agent_error_recovery::{ErrorClass, RecoveryAction, RecoveryPolicy};


#[test]
fn default_rate_limit_is_backoff() {
    let p = RecoveryPolicy::default();
    assert_eq!(
        p.recommend(ErrorClass::RateLimit),
        RecoveryAction::RetryWithBackoff
    );
}

#[test]
fn default_auth_is_escalate() {
    let p = RecoveryPolicy::default();
    assert_eq!(
        p.recommend(ErrorClass::AuthFailure),
        RecoveryAction::Escalate
    );
}

#[test]
fn default_invalid_input_is_abort() {
    let p = RecoveryPolicy::default();
    assert_eq!(p.recommend(ErrorClass::InvalidInput), RecoveryAction::Abort);
}

#[test]
fn default_not_found_is_skip() {
    let p = RecoveryPolicy::default();
    assert_eq!(p.recommend(ErrorClass::NotFound), RecoveryAction::Skip);
}

#[test]
fn override_policy() {
    let mut p = RecoveryPolicy::default();
    p.set(ErrorClass::InvalidInput, RecoveryAction::Skip);
    assert_eq!(p.recommend(ErrorClass::InvalidInput), RecoveryAction::Skip);
}

#[test]
fn record_under_max() {
    let mut p = RecoveryPolicy::new(3);
    let action = p.record("tool_a", ErrorClass::RateLimit, 1);
    assert_eq!(action, RecoveryAction::RetryWithBackoff);
}

#[test]
fn record_at_max_escalates() {
    let mut p = RecoveryPolicy::new(3);
    let action = p.record("tool_a", ErrorClass::RateLimit, 3);
    assert_eq!(action, RecoveryAction::Escalate);
}

#[test]
fn events_logged() {
    let mut p = RecoveryPolicy::default();
    p.record("my_tool", ErrorClass::ServerError, 1);
    p.record("my_tool", ErrorClass::ServerError, 2);
    assert_eq!(p.events().len(), 2);
}

#[test]
fn event_count_for_tool() {
    let mut p = RecoveryPolicy::default();
    p.record("a", ErrorClass::RateLimit, 0);
    p.record("b", ErrorClass::RateLimit, 0);
    p.record("a", ErrorClass::NetworkTimeout, 1);
    assert_eq!(p.event_count_for("a"), 2);
    assert_eq!(p.event_count_for("b"), 1);
}

#[test]
fn clear_events() {
    let mut p = RecoveryPolicy::default();
    p.record("x", ErrorClass::Unknown, 0);
    p.clear_events();
    assert!(p.events().is_empty());
}

#[test]
fn error_class_display() {
    assert_eq!(ErrorClass::RateLimit.to_string(), "rate_limit");
    assert_eq!(ErrorClass::AuthFailure.to_string(), "auth_failure");
}

#[test]
fn recovery_action_display() {
    assert_eq!(
        RecoveryAction::RetryWithBackoff.to_string(),
        "retry_with_backoff"
    );
    assert_eq!(RecoveryAction::Abort.to_string(), "abort");
}

#[test]
fn max_attempts_getter() {
    let p = RecoveryPolicy::new(5);
    assert_eq!(p.max_attempts(), 5);
}

#[test]
fn new_preserves_default_mappings() {
    let p = RecoveryPolicy::new(7);
    assert_eq!(p.max_attempts(), 7);
    // Mappings from Default must survive the custom constructor.
    assert_eq!(
        p.recommend(ErrorClass::RateLimit),
        RecoveryAction::RetryWithBackoff
    );
    assert_eq!(
        p.recommend(ErrorClass::AuthFailure),
        RecoveryAction::Escalate
    );
}

#[test]
fn from_status_maps_known_codes() {
    assert_eq!(ErrorClass::from_status(429), Some(ErrorClass::RateLimit));
    assert_eq!(
        ErrorClass::from_status(408),
        Some(ErrorClass::NetworkTimeout)
    );
    assert_eq!(ErrorClass::from_status(401), Some(ErrorClass::AuthFailure));
    assert_eq!(ErrorClass::from_status(403), Some(ErrorClass::AuthFailure));
    assert_eq!(ErrorClass::from_status(404), Some(ErrorClass::NotFound));
    assert_eq!(ErrorClass::from_status(400), Some(ErrorClass::InvalidInput));
    assert_eq!(ErrorClass::from_status(422), Some(ErrorClass::InvalidInput));
    assert_eq!(ErrorClass::from_status(500), Some(ErrorClass::ServerError));
    assert_eq!(ErrorClass::from_status(503), Some(ErrorClass::ServerError));
}

#[test]
fn from_status_success_is_none() {
    assert_eq!(ErrorClass::from_status(200), None);
    assert_eq!(ErrorClass::from_status(204), None);
    assert_eq!(ErrorClass::from_status(301), None);
}

#[test]
fn from_status_out_of_range_is_unknown() {
    assert_eq!(ErrorClass::from_status(600), Some(ErrorClass::Unknown));
    assert_eq!(ErrorClass::from_status(999), Some(ErrorClass::Unknown));
}

#[test]
fn transient_classification() {
    assert!(ErrorClass::RateLimit.is_transient());
    assert!(ErrorClass::NetworkTimeout.is_transient());
    assert!(ErrorClass::ServerError.is_transient());
    assert!(!ErrorClass::AuthFailure.is_transient());
    assert!(!ErrorClass::InvalidInput.is_transient());
    assert!(!ErrorClass::NotFound.is_transient());
}

#[test]
fn all_classes_constant_is_complete() {
    // Every class must have a default mapping and a Display string.
    let p = RecoveryPolicy::default();
    for class in ErrorClass::ALL {
        // recommend must not panic and Display must be non-empty.
        let _ = p.recommend(class);
        assert!(!class.to_string().is_empty());
    }
    assert_eq!(ErrorClass::ALL.len(), 7);
}

#[test]
fn action_is_retry() {
    assert!(RecoveryAction::RetryImmediate.is_retry());
    assert!(RecoveryAction::RetryWithBackoff.is_retry());
    assert!(!RecoveryAction::Abort.is_retry());
    assert!(!RecoveryAction::Skip.is_retry());
    assert!(!RecoveryAction::Escalate.is_retry());
}

#[test]
fn backoff_grows_exponentially() {
    assert_eq!(RecoveryPolicy::backoff_ms(0, 100, 10_000), 100);
    assert_eq!(RecoveryPolicy::backoff_ms(1, 100, 10_000), 200);
    assert_eq!(RecoveryPolicy::backoff_ms(2, 100, 10_000), 400);
    assert_eq!(RecoveryPolicy::backoff_ms(3, 100, 10_000), 800);
}

#[test]
fn backoff_is_clamped_and_overflow_safe() {
    // Clamped to max once the doubling exceeds it.
    assert_eq!(RecoveryPolicy::backoff_ms(10, 100, 10_000), 10_000);
    // A huge attempt index must not panic or overflow.
    assert_eq!(RecoveryPolicy::backoff_ms(1000, 100, 10_000), 10_000);
    assert_eq!(RecoveryPolicy::backoff_ms(64, 1, u64::MAX), u64::MAX);
}

#[test]
fn set_overrides_take_effect() {
    let mut p = RecoveryPolicy::default();
    assert_eq!(p.recommend(ErrorClass::Unknown), RecoveryAction::Abort);
    p.set(ErrorClass::Unknown, RecoveryAction::Skip);
    assert_eq!(p.recommend(ErrorClass::Unknown), RecoveryAction::Skip);
}
