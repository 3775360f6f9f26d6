use maknae_kernel::blocking_guard::{
    BlockingBreaker, BreakerAdmission, BreakerTransition, BLOCKING_BREAKER_MAX_IN_FLIGHT,
    BLOCKING_BREAKER_REFUSAL_LOG_EVERY_MS, BLOCKING_BREAKER_RESET_AFTER_MS,
    BLOCKING_BREAKER_TRIP_AFTER, BLOCKING_OPERATION_TIMEOUT_MS,
};

/// A fixed instant, in milliseconds of a monotonic clock.
const NOW: u64 = 1_000_000;

#[test]
fn threshold_and_timeout_values_are_pinned() {
    assert_eq!(BLOCKING_BREAKER_TRIP_AFTER, 3);
    assert_ne!(BLOCKING_BREAKER_TRIP_AFTER, 0);
    assert_eq!(BLOCKING_BREAKER_MAX_IN_FLIGHT, 32);
    assert_eq!(BLOCKING_OPERATION_TIMEOUT_MS, 5_000);
    assert_ne!(BLOCKING_OPERATION_TIMEOUT_MS, 0);
    assert_eq!(BLOCKING_BREAKER_RESET_AFTER_MS, 30_000);
    assert_ne!(BLOCKING_BREAKER_RESET_AFTER_MS, 0);
    assert_eq!(BLOCKING_BREAKER_REFUSAL_LOG_EVERY_MS, 30_000);
    assert_ne!(BLOCKING_BREAKER_REFUSAL_LOG_EVERY_MS, 0);
}

#[test]
fn breaker_reserves_before_spawning_and_caps_concurrent_work_without_opening() {
    let mut breaker = BlockingBreaker::default();
    let now = NOW;
    for _ in 0..BLOCKING_BREAKER_MAX_IN_FLIGHT {
        assert_eq!(breaker.begin_attempt_at(now), BreakerAdmission::Admit);
    }
    assert_eq!(
        breaker.begin_attempt_at(now),
        BreakerAdmission::RefuseAtCapacity
    );
    assert!(!breaker.is_open_at(now));
}

#[test]
fn success_resets_accumulated_timeouts() {
    let mut breaker = BlockingBreaker::default();
    let now = NOW;
    assert_eq!(breaker.begin_attempt_at(now), BreakerAdmission::Admit);
    assert_eq!(
        breaker.record_timeout_at(now),
        BreakerTransition::RemainsClosed
    );
    assert_eq!(breaker.begin_attempt_at(now), BreakerAdmission::Admit);
    assert_eq!(
        breaker.record_timeout_at(now),
        BreakerTransition::RemainsClosed
    );
    assert_eq!(breaker.begin_attempt_at(now), BreakerAdmission::Admit);
    breaker.record_success();
    assert!(!breaker.is_open_at(now));
    assert_eq!(breaker.begin_attempt_at(now), BreakerAdmission::Admit);
    assert_eq!(
        breaker.record_timeout_at(now),
        BreakerTransition::RemainsClosed
    );
    assert_eq!(breaker.begin_attempt_at(now), BreakerAdmission::Admit);
    assert_eq!(
        breaker.record_timeout_at(now),
        BreakerTransition::RemainsClosed
    );
    assert_eq!(breaker.begin_attempt_at(now), BreakerAdmission::Admit);
    assert_eq!(breaker.record_timeout_at(now), BreakerTransition::Tripped);
}

#[test]
fn zero_threshold_is_open_without_observation() {
    let mut breaker = BlockingBreaker::new(0);
    assert_eq!(breaker.begin_attempt_at(NOW), BreakerAdmission::RefuseOpen);
}

#[test]
fn tripped_breaker_half_opens_for_one_probe_after_cooldown() {
    let mut breaker = BlockingBreaker::default();
    let now = NOW;
    for _ in 0..3 {
        assert_eq!(breaker.begin_attempt_at(now), BreakerAdmission::Admit);
        breaker.record_timeout_at(now);
    }
    assert!(breaker.is_open_at(now));
    assert_eq!(
        breaker.begin_attempt_at(now + BLOCKING_BREAKER_RESET_AFTER_MS),
        BreakerAdmission::Admit
    );
    assert_eq!(
        breaker.begin_attempt_at(now + BLOCKING_BREAKER_RESET_AFTER_MS),
        BreakerAdmission::RefuseOpen
    );
    breaker.record_success();
    assert_eq!(
        breaker.begin_attempt_at(now + BLOCKING_BREAKER_RESET_AFTER_MS),
        BreakerAdmission::Admit
    );
}

#[test]
fn refusal_logging_is_rate_limited_per_breaker() {
    let mut breaker = BlockingBreaker::default();
    let now = NOW;
    assert!(breaker.should_log_refusal_at(now));
    assert!(!breaker.should_log_refusal_at(now));
    assert!(!breaker.should_log_refusal_at(now + BLOCKING_BREAKER_REFUSAL_LOG_EVERY_MS - 1));
    assert!(breaker.should_log_refusal_at(now + BLOCKING_BREAKER_REFUSAL_LOG_EVERY_MS));
}

#[test]
fn an_open_breaker_refuses_until_the_cooldown_and_closes_after_a_success() {
    let mut breaker = BlockingBreaker::new(1);
    assert_eq!(breaker.begin_attempt_at(NOW), BreakerAdmission::Admit);
    assert_eq!(breaker.record_timeout_at(NOW), BreakerTransition::Tripped);
    assert!(breaker.is_open_at(NOW + BLOCKING_BREAKER_RESET_AFTER_MS - 1));
    assert_eq!(
        breaker.begin_attempt_at(NOW + BLOCKING_BREAKER_RESET_AFTER_MS - 1),
        BreakerAdmission::RefuseOpen
    );
    assert!(!breaker.is_open_at(NOW + BLOCKING_BREAKER_RESET_AFTER_MS));
    assert_eq!(
        breaker.begin_attempt_at(NOW + BLOCKING_BREAKER_RESET_AFTER_MS),
        BreakerAdmission::Admit
    );
    breaker.record_success();
    assert!(!breaker.is_open_at(NOW + BLOCKING_BREAKER_RESET_AFTER_MS));
}

#[test]
fn a_clock_that_steps_back_keeps_an_open_breaker_open() {
    let mut breaker = BlockingBreaker::new(1);
    assert_eq!(breaker.begin_attempt_at(NOW), BreakerAdmission::Admit);
    assert_eq!(breaker.record_timeout_at(NOW), BreakerTransition::Tripped);
    assert!(breaker.is_open_at(NOW - 10));
}

#[test]
fn zero_threshold_reports_open_from_construction_at_every_instant() {
    let mut breaker = BlockingBreaker::new(0);
    assert!(breaker.is_open_at(0));
    assert!(breaker.is_open_at(NOW));
    assert!(breaker.is_open_at(NOW + 10 * BLOCKING_BREAKER_RESET_AFTER_MS));
    breaker.record_success();
    assert!(breaker.is_open_at(NOW));
}

#[test]
fn a_cloned_breaker_carries_the_same_state() {
    let mut breaker = BlockingBreaker::new(1);
    assert_eq!(breaker.begin_attempt_at(NOW), BreakerAdmission::Admit);
    breaker.record_timeout_at(NOW);
    let copy = breaker.clone();
    assert_eq!(copy, breaker);
    assert!(copy.is_open_at(NOW));
}

#[test]
fn interleaved_history_trips_at_the_threshold_and_opens_from_the_latest_trip() {
    let mut b = BlockingBreaker::new(2);
    assert_eq!(b.begin_attempt_at(NOW), BreakerAdmission::Admit);
    assert_eq!(b.begin_attempt_at(NOW + 1), BreakerAdmission::Admit);
    assert_eq!(b.record_timeout_at(NOW + 2), BreakerTransition::RemainsClosed);
    assert!(!b.is_open_at(NOW + 2));
    assert_eq!(b.begin_attempt_at(NOW + 3), BreakerAdmission::Admit);
    assert_eq!(b.record_timeout_at(NOW + 5), BreakerTransition::Tripped);
    assert!(b.is_open_at(NOW + 5 + BLOCKING_BREAKER_RESET_AFTER_MS - 1));
    assert!(!b.is_open_at(NOW + 5 + BLOCKING_BREAKER_RESET_AFTER_MS));
    assert_eq!(b.record_timeout_at(NOW + 9), BreakerTransition::Tripped);
    assert!(b.is_open_at(NOW + 9 + BLOCKING_BREAKER_RESET_AFTER_MS - 1));
    b.record_success();
    assert!(!b.is_open_at(NOW + 10));
    assert_eq!(b.record_timeout_at(NOW + 11), BreakerTransition::RemainsClosed);
}
