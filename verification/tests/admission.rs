use weavelit_server::admission::{body_deadline, default_processing_deadline, request_deadlines, BodyBudget};
use weavelit_server::admission::{
    admit_connection, capped_deadline, check_listener_address, is_trusted_loopback_peer,
    ConnectionAdmission, ConnectionSlots, RateLimiter, SourceAddress, MAX_NORMAL_CONNECTIONS,
    RATE_LIMIT_BURST, RATE_LIMIT_REQUESTS_PER_MINUTE,
};
use weavelit_server::lifecycle_gate::{quiescence_overrun, LifecycleTransitionGate, ShutdownSignal};
use weavelit_server::startup::StartupError;

const LOCALHOST_V4: SourceAddress = SourceAddress::V4(0x7f00_0001);
const LOCALHOST_V6: SourceAddress = SourceAddress::V6(1);

#[test]
fn rate_limiter_allows_the_configured_burst_then_refills_at_the_sustained_rate() {
    let mut limiter = RateLimiter::new();
    let source = LOCALHOST_V4;
    let now: u64 = 5_000_000_000_000;
    for _ in 0..RATE_LIMIT_BURST {
        assert!(limiter.allows(source, now));
    }
    assert!(!limiter.allows(source, now));
    let refill = 60_000_000_000 / RATE_LIMIT_REQUESTS_PER_MINUTE;
    assert!(limiter.allows(source, now + refill));
}

#[test]
fn a_refill_shorter_than_one_request_is_not_enough() {
    let mut limiter = RateLimiter::new();
    let now: u64 = 42;
    for _ in 0..RATE_LIMIT_BURST {
        assert!(limiter.allows(LOCALHOST_V6, now));
    }
    assert!(!limiter.allows(LOCALHOST_V6, now + 2_999_999_999));
    // The refused request still recorded its replenishment, so one more
    // nanosecond completes the allowance.
    assert!(limiter.allows(LOCALHOST_V6, now + 3_000_000_000));
}

#[test]
fn rate_limits_are_kept_per_source() {
    let mut limiter = RateLimiter::new();
    for _ in 0..RATE_LIMIT_BURST {
        assert!(limiter.allows(LOCALHOST_V4, 0));
    }
    assert!(!limiter.allows(LOCALHOST_V4, 0));
    assert!(limiter.allows(LOCALHOST_V6, 0));
    assert!(limiter.allows(SourceAddress::V4(0x7f00_0002), 0));
}

#[test]
fn a_long_idle_source_regains_only_one_burst() {
    let mut limiter = RateLimiter::new();
    assert!(limiter.allows(LOCALHOST_V4, 0));
    let later = 3_600_000_000_000;
    for _ in 0..RATE_LIMIT_BURST {
        assert!(limiter.allows(LOCALHOST_V4, later));
    }
    assert!(!limiter.allows(LOCALHOST_V4, later));
}

#[test]
fn a_clock_reading_before_the_last_update_replenishes_nothing() {
    let mut limiter = RateLimiter::new();
    for _ in 0..RATE_LIMIT_BURST {
        assert!(limiter.allows(LOCALHOST_V4, 10_000_000_000));
    }
    assert!(!limiter.allows(LOCALHOST_V4, 1_000_000_000));
}

#[test]
fn connection_slots_reserve_one_lane_for_rejection() {
    let mut slots = ConnectionSlots::new();
    for _ in 0..15 {
        assert!(slots.try_acquire_normal());
    }
    assert!(slots.try_acquire_rejection());

    assert!(!slots.try_acquire_normal());
    assert!(!slots.try_acquire_rejection());

    slots.release_rejection();
    for _ in 0..15 {
        slots.release_normal();
    }
    assert!(slots.try_acquire_normal());
    assert!(slots.try_acquire_rejection());
}

#[test]
fn a_released_normal_slot_is_available_again() {
    let mut slots = ConnectionSlots::new();
    for _ in 0..MAX_NORMAL_CONNECTIONS {
        assert!(slots.try_acquire_normal());
    }
    assert!(!slots.try_acquire_normal());
    slots.release_normal();
    assert!(slots.try_acquire_normal());
}

#[test]
fn a_closed_transition_gate_refuses_entry_permanently() {
    let mut gate = LifecycleTransitionGate::new();

    assert!(gate.try_enter(), "an open gate must admit a transition");
    assert!(gate.is_occupied());
    gate.leave();
    assert!(!gate.is_occupied());

    gate.begin_stopping();
    assert!(!gate.try_enter());
    assert!(!gate.is_occupied());
    assert!(!gate.try_enter());
}

#[test]
fn an_occupied_gate_admits_no_second_transition_and_holds_off_shutdown() {
    let mut gate = LifecycleTransitionGate::new();
    assert!(gate.try_enter());
    assert!(!gate.try_enter());
    gate.begin_stopping();
    assert!(!gate.try_quiesce());
    gate.leave();
    assert!(gate.try_quiesce());
    assert!(gate.is_occupied());
    assert!(!gate.try_enter());
}

#[test]
fn a_quiescence_overruns_with_no_threshold_or_when_the_threshold_elapses_first() {
    assert!(quiescence_overrun(true, true));
    assert!(quiescence_overrun(false, false));
    assert!(!quiescence_overrun(false, true));
}

#[test]
fn only_exact_loopback_peers_are_trusted() {
    assert!(is_trusted_loopback_peer(LOCALHOST_V4));
    assert!(is_trusted_loopback_peer(LOCALHOST_V6));
    assert!(!is_trusted_loopback_peer(SourceAddress::V4(0x7f00_0002)));
    assert!(!is_trusted_loopback_peer(SourceAddress::V4(0x0a00_0001)));
    assert!(!is_trusted_loopback_peer(SourceAddress::V6(0xffff_7f00_0001)));
}

#[test]
fn accepted_connections_are_served_rejected_or_dropped() {
    assert_eq!(admit_connection(LOCALHOST_V4, true, true), ConnectionAdmission::Serve);
    assert_eq!(admit_connection(LOCALHOST_V6, false, true), ConnectionAdmission::Reject);
    assert_eq!(admit_connection(LOCALHOST_V4, false, false), ConnectionAdmission::Drop);
    assert_eq!(admit_connection(SourceAddress::V4(0x0a00_0001), true, true), ConnectionAdmission::Drop);
}

#[test]
fn the_listener_binds_a_nonzero_loopback_port() {
    assert_eq!(check_listener_address(LOCALHOST_V4, 8443), Ok(()));
    assert_eq!(check_listener_address(SourceAddress::V4(0x7f01_0203), 8443), Ok(()));
    assert_eq!(check_listener_address(LOCALHOST_V6, 443), Ok(()));
    assert_eq!(check_listener_address(LOCALHOST_V4, 0), Err(StartupError::ListenerAddressInvalid));
    assert_eq!(
        check_listener_address(SourceAddress::V4(0xc0a8_0001), 8443),
        Err(StartupError::ListenerAddressInvalid)
    );
    assert_eq!(check_listener_address(SourceAddress::V6(0), 8443), Err(StartupError::ListenerAddressInvalid));
}

#[test]
fn an_inherited_deadline_only_narrows() {
    assert_eq!(capped_deadline(100, None), 100);
    assert_eq!(capped_deadline(100, Some(250)), 100);
    assert_eq!(capped_deadline(100, Some(40)), 40);
}

#[test]
fn a_shutdown_signal_hands_back_its_trigger() {
    let signal = ShutdownSignal::new(7_u8);
    assert_eq!(signal.into_trigger(), 7);
}

#[test]
fn body_and_processing_deadlines_follow_the_budget() {
    assert_eq!(request_deadlines(1_000, 5_000, 10_000), (6_000, 11_000));
    assert_eq!(body_deadline(BodyBudget::Default, 6_000, 2_000, None), 6_000);
    assert_eq!(body_deadline(BodyBudget::Admitted { body_read: 30_000 }, 6_000, 2_000, None), 32_000);
    assert_eq!(body_deadline(BodyBudget::Admitted { body_read: 30_000 }, 6_000, 2_000, Some(9_000)), 9_000);
    assert_eq!(default_processing_deadline(1_000, 10_000, None), 11_000);
    assert_eq!(default_processing_deadline(1_000, 10_000, Some(4_000)), 4_000);
}
