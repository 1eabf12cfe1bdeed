//! Routing of messages to subscribers: what can be subscribed to, the queues between a connection
//! and its subscribers, and what the queues do when a subscriber is too slow.

use std::collections::VecDeque;
use std::future::Future;
use std::sync::Arc;
use vstd::prelude::*;

verus! {

/// Names a subscription.
pub type SubscriptionId = usize;

/// What can be subscribed to.
#[derive(Debug, Clone, Copy, PartialEq, Eq, Structural, Hash)]
pub enum SubscriptionType {
    TextMessages,
    BinaryMessages,
    ConnectionEvents,
    ErrorEvents,
}

/// A change in where a connection stands.
#[derive(Debug, Clone)]
pub enum ConnectionEvent {
    Connected,
    Disconnected,
    Reconnecting,
    Error(String),
}

/// Something that went wrong on a connection.
#[derive(Debug, Clone)]
pub enum ErrorEvent {
    PingTimeout,
    ReadError(String),
    WriteError(String),
    ConnectionDropped,
}

/// Handles the text messages of a connection. Handling a message is work to be driven to its end,
/// so a handler gives the work, pending.
pub trait MessageHandler: Send + Sync {
    /// The pending work.
    type Pending;

    /// Whether the handler takes this message.
    spec fn takes(&self, message: Arc<str>) -> bool;

    /// Whether this is the work that handling the message may come to.
    spec fn comes_to(&self, message: Arc<str>, pending: Self::Pending) -> bool;

    /// Begins to handle a message.
    fn handle_text(&self, message: Arc<str>) -> (pending: Self::Pending)
        requires
            self.takes(message),
        ensures
            self.comes_to(message, pending),
    ;
}

/// A handler that is a function from messages to futures.
#[verifier::reject_recursive_types(Fut)]
pub struct AsyncHandler<F, Fut> where
    F: Fn(Arc<str>) -> Fut + Send + Sync,
    Fut: Future<Output = ()> + Send,
 {
    pub handler: F,
}

impl<F, Fut> AsyncHandler<F, Fut> where
    F: Fn(Arc<str>) -> Fut + Send + Sync,
    Fut: Future<Output = ()> + Send,
 {
    /// The handler that calls the given function.
    pub fn new(handler: F) -> (made: Self)
        ensures
            made.handler == handler,
    {
        AsyncHandler { handler }
    }
}

impl<F, Fut> MessageHandler for AsyncHandler<F, Fut> where
    F: Fn(Arc<str>) -> Fut + Send + Sync,
    Fut: Future<Output = ()> + Send,
 {
    type Pending = Fut;

    open spec fn takes(&self, message: Arc<str>) -> bool {
        call_requires(self.handler, (message,))
    }

    open spec fn comes_to(&self, message: Arc<str>, pending: Fut) -> bool {
        call_ensures(self.handler, (message,), pending)
    }

    fn handle_text(&self, message: Arc<str>) -> (pending: Fut) {
        (self.handler)(message)
    }
}

/// What a queue does with a message for which it has no room.
#[derive(Debug, Clone, Copy, PartialEq, Eq, Structural)]
pub enum BackpressurePolicy {
    /// Make room by dropping the oldest message.
    DropOldest,
    /// Drop the message.
    DropNewest,
    /// Refuse the message.
    FailFast,
}

/// Counts of a router's messages.
#[derive(Debug, Clone, Copy, PartialEq, Eq, Structural)]
pub struct QueueStats {
    pub pending: usize,
    pub total_received: u64,
    pub total_dropped: u64,
    pub total_processed: u64,
}

/// The counters that a router keeps. They are read all at once, so that a snapshot is
/// consistent in itself.
#[derive(Debug)]
pub struct AtomicStats {
    pub pending: usize,
    pub total_received: u64,
    pub total_dropped: u64,
    pub total_processed: u64,
}

impl AtomicStats {
    /// Counters at zero.
    pub fn new() -> (stats: Self)
        ensures
            stats.pending == 0,
            stats.total_received == 0,
            stats.total_dropped == 0,
            stats.total_processed == 0,
    {
        AtomicStats { pending: 0, total_received: 0, total_dropped: 0, total_processed: 0 }
    }

    /// The counts as they stand.
    pub fn get_snapshot(&self) -> (stats: QueueStats)
        ensures
            stats.pending == self.pending,
            stats.total_received == self.total_received,
            stats.total_dropped == self.total_dropped,
            stats.total_processed == self.total_processed,
    {
        QueueStats {
            pending: self.pending,
            total_received: self.total_received,
            total_dropped: self.total_dropped,
            total_processed: self.total_processed,
        }
    }
}

/// How the messages of a connection are routed.
#[derive(Debug, Clone, Copy, PartialEq, Eq, Structural)]
pub struct ConnectionConfig {
    pub backpressure_policy: BackpressurePolicy,
    pub max_pending_messages: usize,
    pub warning_threshold: usize,
}

impl Default for ConnectionConfig {
    fn default() -> (config: Self)
        ensures
            config.backpressure_policy == BackpressurePolicy::DropOldest,
            config.max_pending_messages == 1000,
            config.warning_threshold == 800,
    {
        ConnectionConfig {
            backpressure_policy: BackpressurePolicy::DropOldest,
            max_pending_messages: 1000,
            warning_threshold: 800,
        }
    }
}

/// A message was refused because the queue is full.
#[derive(Debug, Clone, Copy, PartialEq, Eq, Structural)]
pub struct QueueFull;

impl QueueFull {
    /// The error in words.
    pub fn to_string(&self) -> (text: String)
        ensures
            text@ == "Queue is full"@,
    {
        "Queue is full".to_owned()
    }
}

/// What became of a message that was sent to a queue: `Ok(true)` if it waits with nothing lost,
/// `Ok(false)` if a message was lost, be it this one or another. A receiver is to be woken when
/// `notify` is set.
#[derive(Debug, Clone, Copy, PartialEq, Eq)]
pub struct Sent {
    pub outcome: Result<bool, QueueFull>,
    pub notify: bool,
}

/// A queue of messages with a capacity, and a policy for when it is reached.
#[derive(Debug)]
pub struct BackpressureQueue {
    pub queue: VecDeque<Arc<str>>,
    pub capacity: usize,
    pub policy: BackpressurePolicy,
}

/// The messages that wait after another was sent, given those that waited before.
pub open spec fn after_send<M>(
    waiting: Seq<M>,
    message: M,
    capacity: nat,
    policy: BackpressurePolicy,
) -> Seq<M> {
    if waiting.len() < capacity {
        waiting.push(message)
    } else {
        match policy {
            BackpressurePolicy::DropOldest => if waiting.len() == 0 {
                seq![message]
            } else {
                waiting.drop_first().push(message)
            },
            BackpressurePolicy::DropNewest => waiting,
            BackpressurePolicy::FailFast => waiting,
        }
    }
}

impl BackpressureQueue {
    /// An empty queue.
    pub fn new(capacity: usize, policy: BackpressurePolicy) -> (queue: Self)
        ensures
            queue.queue@ == Seq::<Arc<str>>::empty(),
            queue.capacity == capacity,
            queue.policy == policy,
    {
        BackpressureQueue { queue: VecDeque::new(), capacity, policy }
    }

    /// Sends a message to the queue.
    pub fn send(&mut self, message: Arc<str>) -> (sent: Sent)
        ensures
            final(self).capacity == old(self).capacity,
            final(self).policy == old(self).policy,
            final(self).queue@ == after_send(
                old(self).queue@,
                message,
                old(self).capacity as nat,
                old(self).policy,
            ),
            sent.outcome == (if old(self).queue@.len() < old(self).capacity {
                Ok(true)
            } else if old(self).policy == BackpressurePolicy::FailFast {
                Err(QueueFull)
            } else {
                Ok(false)
            }),
            sent.notify == (old(self).queue@.len() < old(self).capacity || old(self).policy
                == BackpressurePolicy::DropOldest),
    {
        if self.queue.len() >= self.capacity {
            match self.policy {
                BackpressurePolicy::DropOldest => {
                    let _dropped: Option<Arc<str>> = self.queue.pop_front();
                    self.queue.push_back(message);
                    Sent { outcome: Ok(false), notify: true }
                },
                BackpressurePolicy::DropNewest => Sent { outcome: Ok(false), notify: false },
                BackpressurePolicy::FailFast => Sent { outcome: Err(QueueFull), notify: false },
            }
        } else {
            self.queue.push_back(message);
            Sent { outcome: Ok(true), notify: true }
        }
    }

    /// Takes the message that has waited longest; `None` means that the receiver is to wait until
    /// it is woken.
    pub fn recv(&mut self) -> (message: Option<Arc<str>>)
        ensures
            final(self).capacity == old(self).capacity,
            final(self).policy == old(self).policy,
            match message {
                Some(m) => {
                    &&& old(self).queue@.len() > 0
                    &&& m == old(self).queue@[0]
                    &&& final(self).queue@ == old(self).queue@.drop_first()
                },
                None => {
                    &&& old(self).queue@.len() == 0
                    &&& final(self).queue@ == old(self).queue@
                },
            },
    {
        self.queue.pop_front()
    }
}

/// Routes the messages of a connection to its subscribers.
#[derive(Debug)]
pub struct ConnectionRouter {
    pub config: ConnectionConfig,
    pub next_id: SubscriptionId,
    pub stats: AtomicStats,
}

impl ConnectionRouter {
    /// A router without subscribers.
    pub fn new(config: ConnectionConfig) -> (router: Self)
        ensures
            router.config == config,
            router.next_id == 0,
            router.stats.pending == 0,
            router.stats.total_received == 0,
            router.stats.total_dropped == 0,
            router.stats.total_processed == 0,
    {
        ConnectionRouter { config, next_id: 0, stats: AtomicStats::new() }
    }

    /// The router's counts as they stand.
    pub fn get_stats(&self) -> (stats: QueueStats)
        ensures
            stats.pending == self.stats.pending,
            stats.total_received == self.stats.total_received,
            stats.total_dropped == self.stats.total_dropped,
            stats.total_processed == self.stats.total_processed,
    {
        self.stats.get_snapshot()
    }
}

/// The messages that wait after several were sent, given those that waited before.
pub open spec fn after_sends<M>(
    waiting: Seq<M>,
    messages: Seq<M>,
    capacity: nat,
    policy: BackpressurePolicy,
) -> Seq<M>
    decreases messages.len(),
{
    if messages.len() == 0 {
        waiting
    } else {
        after_send(
            after_sends(waiting, messages.drop_last(), capacity, policy),
            messages.last(),
            capacity,
            policy,
        )
    }
}

/// A queue never holds more than its capacity. A queue without any capacity that drops the oldest
/// is apart: it holds the last message that was sent.
pub proof fn law_capacity_is_kept<M>(
    waiting: Seq<M>,
    messages: Seq<M>,
    capacity: nat,
    policy: BackpressurePolicy,
)
    requires
        waiting.len() <= capacity,
    ensures
        capacity > 0 || policy != BackpressurePolicy::DropOldest ==> after_sends(
            waiting,
            messages,
            capacity,
            policy,
        ).len() <= capacity,
        capacity == 0 && policy == BackpressurePolicy::DropOldest && messages.len() > 0
            ==> after_sends(waiting, messages, capacity, policy) == seq![messages.last()],
    decreases messages.len(),
{
    if messages.len() > 0 {
        let before = messages.drop_last();
        law_capacity_is_kept(waiting, before, capacity, policy);
        if capacity == 0 && policy == BackpressurePolicy::DropOldest {
            let earlier = after_sends(waiting, before, capacity, policy);
            assert(earlier.len() <= 1) by {
                if before.len() == 0 {
                    assert(earlier == waiting);
                }
            }
            assert(after_sends(waiting, messages, capacity, policy) =~= seq![messages.last()]);
        }
    }
}

/// While there is room nothing is lost, and messages wait in the order in which they were sent.
pub proof fn law_room_loses_nothing<M>(
    waiting: Seq<M>,
    messages: Seq<M>,
    capacity: nat,
    policy: BackpressurePolicy,
)
    requires
        waiting.len() + messages.len() <= capacity,
    ensures
        after_sends(waiting, messages, capacity, policy) == waiting + messages,
    decreases messages.len(),
{
    if messages.len() > 0 {
        law_room_loses_nothing(waiting, messages.drop_last(), capacity, policy);
    }
    assert(after_sends(waiting, messages, capacity, policy) =~= waiting + messages);
}

/// A queue that drops the oldest keeps the newest messages, as many as it has room for.
pub proof fn law_drop_oldest_keeps_newest<M>(waiting: Seq<M>, messages: Seq<M>, capacity: nat)
    requires
        waiting.len() <= capacity,
        capacity > 0,
    ensures
        after_sends(waiting, messages, capacity, BackpressurePolicy::DropOldest) == ({
            let all = waiting + messages;
            if all.len() <= capacity {
                all
            } else {
                all.skip(all.len() - capacity)
            }
        }),
    decreases messages.len(),
{
    let kept = after_sends(waiting, messages, capacity, BackpressurePolicy::DropOldest);
    let all = waiting + messages;
    if messages.len() > 0 {
        law_drop_oldest_keeps_newest(waiting, messages.drop_last(), capacity);
    }
    if all.len() <= capacity {
        assert(kept =~= all);
    } else {
        assert(kept =~= all.skip(all.len() - capacity));
    }
}

/// A queue that drops the newest, or refuses it, keeps the oldest messages, as many as it has room
/// for.
pub proof fn law_other_policies_keep_oldest<M>(
    waiting: Seq<M>,
    messages: Seq<M>,
    capacity: nat,
    policy: BackpressurePolicy,
)
    requires
        waiting.len() <= capacity,
        policy != BackpressurePolicy::DropOldest,
    ensures
        after_sends(waiting, messages, capacity, policy) == ({
            let all = waiting + messages;
            if all.len() <= capacity {
                all
            } else {
                all.take(capacity as int)
            }
        }),
    decreases messages.len(),
{
    let kept = after_sends(waiting, messages, capacity, policy);
    let all = waiting + messages;
    if messages.len() > 0 {
        law_other_policies_keep_oldest(waiting, messages.drop_last(), capacity, policy);
    }
    if all.len() <= capacity {
        assert(kept =~= all);
    } else {
        assert(kept =~= all.take(capacity as int));
    }
}

/// What sending does to a queue. While there is room a message is put last, and nothing else
/// changes. In a full queue it takes the place of the oldest, is dropped, or is refused, by the
/// policy: those that stay keep their order, and the sender is told of a loss.
pub proof fn law_what_sending_does(
    before: BackpressureQueue,
    message: Arc<str>,
    after: BackpressureQueue,
    sent: Sent,
)
    requires
        exists|queue: &mut BackpressureQueue|
            *queue == before && *final(queue) == after && #[trigger] call_ensures(
                BackpressureQueue::send,
                (queue, message),
                sent,
            ),
    ensures
        after.capacity == before.capacity,
        after.policy == before.policy,
        before.queue@.len() < before.capacity ==> {
            &&& after.queue@ == before.queue@.push(message)
            &&& sent.outcome == Ok::<bool, QueueFull>(true)
        },
        before.queue@.len() >= before.capacity && before.policy is DropOldest ==> {
            &&& after.queue@.last() == message
            &&& after.queue@.len() == if before.queue@.len() == 0 {
                1
            } else {
                before.queue@.len()
            }
            &&& forall|i: int|
                0 <= i < after.queue@.len() - 1 ==> #[trigger] after.queue@[i] == before.queue@[i + 1]
            &&& sent.outcome == Ok::<bool, QueueFull>(false)
        },
        before.queue@.len() >= before.capacity && before.policy is DropNewest ==> {
            &&& after.queue@ == before.queue@
            &&& sent.outcome == Ok::<bool, QueueFull>(false)
        },
        before.queue@.len() >= before.capacity && before.policy is FailFast ==> {
            &&& after.queue@ == before.queue@
            &&& sent.outcome == Err::<bool, QueueFull>(QueueFull)
        },
        // A receiver is woken exactly when the message waits.
        sent.notify <==> (before.queue@.len() < before.capacity || before.policy is DropOldest),
{
}

/// What is sent while there is room is received in the same order: the message that has waited
/// longest comes first, and one that is sent to an empty queue is the next to come.
pub proof fn law_first_in_first_out(
    before: BackpressureQueue,
    message: Arc<str>,
    sent: Sent,
    between: BackpressureQueue,
    got: Option<Arc<str>>,
    after: BackpressureQueue,
)
    requires
        before.queue@.len() < before.capacity,
        exists|queue: &mut BackpressureQueue|
            *queue == before && *final(queue) == between && #[trigger] call_ensures(
                BackpressureQueue::send,
                (queue, message),
                sent,
            ),
        exists|queue: &mut BackpressureQueue|
            *queue == between && *final(queue) == after && #[trigger] call_ensures(
                BackpressureQueue::recv,
                (queue,),
                got,
            ),
    ensures
        got matches Some(first) && first == before.queue@.push(message)[0],
        seq![got->0] + after.queue@ == before.queue@.push(message),
        before.queue@.len() == 0 ==> got == Some(message) && after.queue@.len() == 0,
{
    assert(seq![got->0] + after.queue@ =~= before.queue@.push(message));
}

/// Nothing is received from a queue exactly when nothing waits in it, and that changes nothing.
pub proof fn law_empty_queue_gives_nothing(
    before: BackpressureQueue,
    got: Option<Arc<str>>,
    after: BackpressureQueue,
)
    requires
        exists|queue: &mut BackpressureQueue|
            *queue == before && *final(queue) == after && #[trigger] call_ensures(
                BackpressureQueue::recv,
                (queue,),
                got,
            ),
    ensures
        got is None <==> before.queue@.len() == 0,
        got is None ==> after.queue@ == before.queue@,
        after.capacity == before.capacity,
        after.policy == before.policy,
{
}

/// A handler that is a function handles a message by calling that function with that message.
pub proof fn law_handler_calls_its_function<F, Fut>(
    handler: F,
    made: AsyncHandler<F, Fut>,
    message: Arc<str>,
    pending: Fut,
) where F: Fn(Arc<str>) -> Fut + Send + Sync, Fut: Future<Output = ()> + Send
    requires
        call_ensures(AsyncHandler::<F, Fut>::new, (handler,), made),
        call_ensures(AsyncHandler::<F, Fut>::handle_text, (&made, message), pending),
    ensures
        call_ensures(handler, (message,), pending),
        call_requires(handler, (message,)) ==> made.takes(message),
{
}

/// A router's counts are those of its counters, which begin at zero.
pub proof fn law_counts_begin_at_zero(
    config: ConnectionConfig,
    router: ConnectionRouter,
    stats: QueueStats,
)
    requires
        call_ensures(ConnectionRouter::new, (config,), router),
        call_ensures(ConnectionRouter::get_stats, (&router,), stats),
    ensures
        router.config == config,
        router.next_id == 0,
        stats.pending == 0,
        stats.total_received == 0,
        stats.total_dropped == 0,
        stats.total_processed == 0,
{
}

/// A snapshot holds each counter in its own place.
pub proof fn law_snapshot_is_faithful(counters: AtomicStats, stats: QueueStats)
    requires
        call_ensures(AtomicStats::get_snapshot, (&counters,), stats),
    ensures
        stats.pending == counters.pending,
        stats.total_received == counters.total_received,
        stats.total_dropped == counters.total_dropped,
        stats.total_processed == counters.total_processed,
{
}

/// A new queue is empty, with the given capacity and policy.
pub proof fn law_queue_begins_empty(
    capacity: usize,
    policy: BackpressurePolicy,
    queue: BackpressureQueue,
)
    requires
        call_ensures(BackpressureQueue::new, (capacity, policy), queue),
    ensures
        queue.queue@.len() == 0,
        queue.capacity == capacity,
        queue.policy == policy,
{
}

} // verus!
