use tweet_broadcast::backoff::{BackoffState, BackoffType};

#[test]
fn idle_asks_for_no_wait() {
    let s = BackoffState::Idle;
    assert_eq!(s.sleep_msecs(), 0);
    assert!(!s.should_backoff());
}

#[test]
fn ratelimit_delays_grow_to_ten_minutes() {
    let expected: [u64; 8] = [60_000, 60_000, 120_000, 240_000, 480_000, 600_000, 600_000, 600_000];
    for (i, want) in expected.iter().enumerate() {
        let s = BackoffState::Ratelimit((i + 1) as u32);
        assert_eq!(s.sleep_msecs(), *want);
    }
}

#[test]
fn server_delays_grow_to_one_minute() {
    let expected: [u64; 8] = [1000, 2000, 4000, 8000, 16_000, 32_000, 60_000, 60_000];
    for (i, want) in expected.iter().enumerate() {
        let s = BackoffState::Server((i + 1) as u32);
        assert_eq!(s.sleep_msecs(), *want);
    }
}

#[test]
fn network_delays_grow_to_thirty_two_seconds() {
    assert_eq!(BackoffState::Network(1).sleep_msecs(), 250);
    assert_eq!(BackoffState::Network(4).sleep_msecs(), 1000);
    assert_eq!(BackoffState::Network(127).sleep_msecs(), 31_750);
    assert_eq!(BackoffState::Network(128).sleep_msecs(), 32_000);
    assert_eq!(BackoffState::Network(1000).sleep_msecs(), 32_000);
}

#[test]
fn backoff_monotonic_within_class() {
    // Repeated failures of one class never shrink the delay.
    let mut s = BackoffState::Idle;
    let mut last = 0u64;
    for _ in 0..200 {
        s.add_network();
        let d = s.sleep_msecs();
        assert!(d >= last);
        last = d;
    }
    let mut s = BackoffState::Idle;
    let mut last = 0u64;
    for _ in 0..10 {
        s.add_ratelimit();
        let d = s.sleep_msecs();
        assert!(d >= last);
        last = d;
    }
}

#[test]
fn backoff_reset_forgets_history() {
    // After a success, the next failure produces the first-attempt delay.
    let mut s = BackoffState::Idle;
    for _ in 0..9 {
        s.add_server();
    }
    assert_eq!(s.sleep_msecs(), 60_000);

    s.reset();
    assert_eq!(s, BackoffState::Idle);
    s.add_server();
    assert_eq!(s, BackoffState::Server(1));
    assert_eq!(s.sleep_msecs(), 1000);
    s.reset();
    s.add_network();
    assert_eq!(s.sleep_msecs(), 250);
    s.reset();
    s.add_ratelimit();
    assert_eq!(s.sleep_msecs(), 60_000);
}

#[test]
fn class_switch_restarts_counter() {
    let mut s = BackoffState::Idle;
    s.add_ratelimit();
    s.add_ratelimit();
    assert_eq!(s, BackoffState::Ratelimit(2));
    s.add_network();
    assert_eq!(s, BackoffState::Network(1));
    assert_eq!(s.sleep_msecs(), 250);
    s.record(BackoffType::Server);
    assert_eq!(s, BackoffState::Server(1));
    s.record(BackoffType::Server);
    assert_eq!(s, BackoffState::Server(2));
}

#[test]
fn counter_saturates_instead_of_wrapping() {
    let mut s = BackoffState::Network(u32::MAX);
    s.add_network();
    assert_eq!(s, BackoffState::Network(u32::MAX));
}
