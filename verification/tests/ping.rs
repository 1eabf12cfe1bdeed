use std::sync::{Arc, RwLock};
use std::time::{Duration, Instant};

use kharbranth::clock::Span;
use kharbranth::connection::ConnectionError;
use kharbranth::ping::PingTracker;

fn wait_millis(millis: u64) {
    let runtime = tokio::runtime::Builder::new_current_thread()
        .enable_time()
        .build()
        .unwrap();
    runtime.block_on(async move {
        tokio::time::sleep(Duration::from_millis(millis)).await;
    });
}

#[test]
fn ping_tracker_timeout_after_stale_state() {
    let timeout_duration = Span::from_millis(10);
    let mut tracker = PingTracker::new(timeout_duration);

    let payload = vec![1, 2, 3];
    tracker.send_ping(payload.clone());

    assert!(tracker.check_timeout().is_ok());

    wait_millis(20);

    assert!(tracker.check_timeout().is_err());

    tracker.handle_pong(payload).unwrap();
    assert!(tracker.check_timeout().is_ok());
}

#[test]
fn ping_tracker_handles_unsolicited_pongs() {
    let mut tracker = PingTracker::new(Span::from_secs(15));

    assert!(tracker.handle_pong(vec![1, 2, 3]).is_ok());

    tracker.send_ping(vec![4, 5, 6]);
    assert!(tracker.handle_pong(vec![1, 2, 3]).is_ok());

    assert!(tracker.handle_pong(vec![4, 5, 6]).is_ok());
    assert!(tracker.should_send_ping());
}

#[test]
fn test_ping_pong_correlation() {
    let mut tracker = PingTracker::new(Span::from_secs(10));

    assert!(tracker.should_send_ping());

    let payload1 = vec![1, 2, 3, 4];
    tracker.send_ping(payload1.clone());
    assert!(!tracker.should_send_ping());
    assert!(tracker.handle_pong(payload1).is_ok());
    assert!(tracker.should_send_ping());

    let payload2 = vec![5, 6, 7, 8];
    let wrong_payload = vec![9, 10, 11, 12];
    tracker.send_ping(payload2.clone());
    assert!(tracker.handle_pong(wrong_payload).is_ok());
    assert!(!tracker.should_send_ping());

    assert!(tracker.handle_pong(payload2).is_ok());
    assert!(tracker.should_send_ping());

    assert!(tracker.handle_pong(vec![13, 14, 15]).is_ok());
    assert!(tracker.should_send_ping());

    for i in 0..5 {
        assert!(tracker.handle_pong(vec![i]).is_ok());
    }
    assert!(tracker.should_send_ping());
}

#[test]
fn test_ping_tracker_edge_cases() {
    let mut tracker = PingTracker::new(Span::from_millis(5));
    tracker.send_ping(vec![1]);
    wait_millis(10);
    assert!(tracker.check_timeout().is_err());

    let mut tracker = PingTracker::new(Span::from_secs(10));
    for i in 0..5 {
        let payload = vec![i];
        tracker.send_ping(payload.clone());
        assert!(tracker.handle_pong(payload).is_ok());
        assert!(tracker.should_send_ping());
    }

    let mut tracker = PingTracker::new(Span::from_secs(10));

    tracker.send_ping(vec![]);
    assert!(tracker.handle_pong(vec![]).is_ok());
    assert!(tracker.should_send_ping());

    let large_payload = vec![42; 1000];
    tracker.send_ping(large_payload.clone());
    assert!(tracker.handle_pong(large_payload).is_ok());
    assert!(tracker.should_send_ping());

    let max_payload = vec![255; 125];
    tracker.send_ping(max_payload.clone());
    assert!(tracker.handle_pong(max_payload).is_ok());
    assert!(tracker.should_send_ping());

    let mut short_timeout_tracker = PingTracker::new(Span::from_millis(5));
    short_timeout_tracker.send_ping(vec![1, 2, 3]);
    wait_millis(10);
    assert!(short_timeout_tracker.check_timeout().is_err());
    assert!(!short_timeout_tracker.should_send_ping());
}

#[test]
fn ping_tracker_resets_on_reconnection() {
    let tracker = Arc::new(RwLock::new(PingTracker::new(Span::from_secs(15))));

    {
        let mut tracker_guard = tracker.write().unwrap();
        tracker_guard.send_ping(vec![1, 2, 3]);
    }

    {
        let tracker_guard = tracker.read().unwrap();
        assert!(tracker_guard.last_ping_sent.is_some());
    }

    {
        let mut tracker_guard = tracker.write().unwrap();
        *tracker_guard = PingTracker::new(Span::from_secs(15));
    }

    {
        let tracker_guard = tracker.read().unwrap();
        assert!(tracker_guard.last_ping_sent.is_none());
        assert!(tracker_guard.should_send_ping());
    }
}

#[test]
fn spans_count_nanoseconds() {
    assert_eq!(Span::from_secs(15).nanos, 15_000_000_000);
    assert_eq!(Span::from_millis(5).nanos, 5_000_000);
    assert_eq!(Span::from_secs(u64::MAX).nanos, u64::MAX as u128 * 1_000_000_000);
}

#[test]
fn a_ping_that_waits_exactly_as_long_as_allowed_is_not_overdue() {
    let tracker = PingTracker::new(Span::from_secs(2));
    assert!(tracker.check_elapsed(None).is_ok());
    assert!(tracker.check_elapsed(Some(2_000_000_000)).is_ok());
    assert!(matches!(
        tracker.check_elapsed(Some(2_000_000_001)),
        Err(ConnectionError::PongReceiveTimeout)
    ));
}

#[test]
fn sending_again_forgets_the_ping_before() {
    let mut tracker = PingTracker::new(Span::from_secs(2));
    let now = Instant::now();
    assert_eq!(tracker.send_ping_at(now, vec![1]), vec![1]);
    assert_eq!(tracker.send_ping(vec![2, 3]), vec![2, 3]);
    assert!(tracker.handle_pong(vec![1]).is_ok());
    assert!(!tracker.should_send_ping());
    let (sent, payload) = tracker.last_ping_sent.clone().unwrap();
    assert!(sent >= now);
    assert_eq!(payload, vec![2, 3]);
    // The same length, another last byte.
    assert!(tracker.handle_pong(vec![2, 4]).is_ok());
    assert!(!tracker.should_send_ping());
    assert!(tracker.handle_pong(vec![2, 3]).is_ok());
    assert!(tracker.should_send_ping());
}
