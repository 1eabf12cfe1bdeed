use std::future::Future;
use std::pin::Pin;
use std::sync::Arc;
use std::task::{Context, Poll, Waker};

use kharbranth::routing::{
    AsyncHandler, AtomicStats, BackpressurePolicy, BackpressureQueue, ConnectionConfig,
    ConnectionRouter, MessageHandler, QueueFull,
};

fn drained(queue: &mut BackpressureQueue) -> Vec<String> {
    let mut all = Vec::new();
    while let Some(message) = queue.recv() {
        all.push(message.to_string());
    }
    all
}

#[test]
fn a_queue_hands_out_in_order() {
    let mut queue = BackpressureQueue::new(3, BackpressurePolicy::FailFast);
    assert!(queue.recv().is_none());
    for text in ["a", "b", "c"] {
        let sent = queue.send(Arc::from(text));
        assert_eq!(sent.outcome, Ok(true));
        assert!(sent.notify);
    }
    assert_eq!(drained(&mut queue), vec!["a", "b", "c"]);
}

#[test]
fn a_full_queue_can_drop_the_oldest() {
    let mut queue = BackpressureQueue::new(2, BackpressurePolicy::DropOldest);
    queue.send(Arc::from("a"));
    queue.send(Arc::from("b"));
    let sent = queue.send(Arc::from("c"));
    assert_eq!(sent.outcome, Ok(false));
    assert!(sent.notify);
    assert_eq!(drained(&mut queue), vec!["b", "c"]);
}

#[test]
fn a_full_queue_can_drop_the_newest() {
    let mut queue = BackpressureQueue::new(2, BackpressurePolicy::DropNewest);
    queue.send(Arc::from("a"));
    queue.send(Arc::from("b"));
    let sent = queue.send(Arc::from("c"));
    assert_eq!(sent.outcome, Ok(false));
    assert!(!sent.notify);
    assert_eq!(drained(&mut queue), vec!["a", "b"]);
}

#[test]
fn a_full_queue_can_refuse() {
    let mut queue = BackpressureQueue::new(1, BackpressurePolicy::FailFast);
    queue.send(Arc::from("a"));
    let sent = queue.send(Arc::from("b"));
    assert_eq!(sent.outcome, Err(QueueFull));
    assert_eq!(sent.outcome.unwrap_err().to_string(), "Queue is full");
    assert!(!sent.notify);
    assert_eq!(drained(&mut queue), vec!["a"]);
}

#[test]
fn a_queue_without_capacity_that_drops_the_oldest_holds_one() {
    let mut queue = BackpressureQueue::new(0, BackpressurePolicy::DropOldest);
    assert_eq!(queue.send(Arc::from("a")).outcome, Ok(false));
    assert_eq!(queue.send(Arc::from("b")).outcome, Ok(false));
    assert_eq!(drained(&mut queue), vec!["b"]);
}

#[test]
fn a_router_starts_with_empty_counts() {
    let config = ConnectionConfig::default();
    assert_eq!(config.backpressure_policy, BackpressurePolicy::DropOldest);
    assert_eq!(config.max_pending_messages, 1000);
    assert_eq!(config.warning_threshold, 800);
    let router = ConnectionRouter::new(config);
    assert_eq!(router.config, config);
    let stats = router.get_stats();
    assert_eq!(stats.pending, 0);
    assert_eq!(stats.total_received, 0);
    assert_eq!(stats.total_dropped, 0);
    assert_eq!(stats.total_processed, 0);
}

#[test]
fn a_snapshot_shows_the_counters() {
    let mut stats = AtomicStats::new();
    stats.pending = 1;
    stats.total_received = 2;
    stats.total_dropped = 3;
    stats.total_processed = 4;
    let snapshot = stats.get_snapshot();
    assert_eq!(snapshot.pending, 1);
    assert_eq!(snapshot.total_received, 2);
    assert_eq!(snapshot.total_dropped, 3);
    assert_eq!(snapshot.total_processed, 4);
}

#[test]
fn an_async_handler_calls_its_function() {
    let seen = Arc::new(std::sync::Mutex::new(Vec::new()));
    let store = Arc::clone(&seen);
    let handler = AsyncHandler::new(move |text: Arc<str>| {
        let store = Arc::clone(&store);
        async move {
            store.lock().unwrap().push(text.to_string());
        }
    });
    let mut pending: Pin<Box<dyn Future<Output = ()>>> =
        Box::pin(handler.handle_text(Arc::from("hello")));
    let mut context = Context::from_waker(Waker::noop());
    assert_eq!(pending.as_mut().poll(&mut context), Poll::Ready(()));
    assert_eq!(*seen.lock().unwrap(), vec!["hello"]);
}
