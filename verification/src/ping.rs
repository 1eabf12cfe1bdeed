//! Pings that wait for their pong.

use crate::clock::{instant_now, instant_reading, read_instant, read_since_instant, Span};
use crate::connection::ConnectionError;
use std::time::Instant;
use vstd::prelude::*;

verus! {

/// Remembers the ping that waits for its pong.
#[derive(Debug)]
pub struct PingTracker {
    /// When the waiting ping was sent, and its payload.
    pub last_ping_sent: Option<(Instant, Vec<u8>)>,
    /// How long a pong may take.
    pub timeout: Span,
}

/// Whether two byte strings are the same.
fn same_bytes(a: &Vec<u8>, b: &Vec<u8>) -> (same: bool)
    ensures
        same == (a@ == b@),
{
    if a.len() != b.len() {
        return false;
    }
    let mut i: usize = 0;
    while i < a.len()
        invariant
            i <= a.len(),
            a.len() == b.len(),
            forall|j: int| 0 <= j < i ==> a[j] == b[j],
        decreases a.len() - i,
    {
        if a[i] != b[i] {
            return false;
        }
        i = i + 1;
    }
    assert(a@ =~= b@);
    true
}

impl PingTracker {
    /// The payload of the ping that waits for its pong.
    pub open spec fn waiting(self) -> Option<Seq<u8>> {
        match self.last_ping_sent {
            Some((_, payload)) => Some(payload@),
            None => None,
        }
    }

    /// The payload that still waits after a pong came: only the pong with the same payload answers
    /// a ping.
    pub open spec fn after_pong(waiting: Option<Seq<u8>>, pong: Seq<u8>) -> Option<Seq<u8>> {
        if waiting == Some(pong) {
            None
        } else {
            waiting
        }
    }

    /// The payload that still waits after several pongs came.
    pub open spec fn after_pongs(waiting: Option<Seq<u8>>, pongs: Seq<Seq<u8>>) -> Option<Seq<u8>>
        decreases pongs.len(),
    {
        if pongs.len() == 0 {
            waiting
        } else {
            Self::after_pong(Self::after_pongs(waiting, pongs.drop_last()), pongs.last())
        }
    }

    /// Pongs that nothing waits for are ignored, and a ping waits until its own pong comes,
    /// whatever other pongs come.
    pub proof fn law_only_the_answer_counts(ping: Seq<u8>, pongs: Seq<Seq<u8>>)
        ensures
            Self::after_pongs(None, pongs) is None,
            Self::after_pongs(Some(ping), pongs) == (if pongs.contains(ping) {
                None
            } else {
                Some(ping)
            }),
        decreases pongs.len(),
    {
        if pongs.len() > 0 {
            let before = pongs.drop_last();
            Self::law_only_the_answer_counts(ping, before);
            assert(pongs.contains(ping) <==> (before.contains(ping) || pongs.last() == ping)) by {
                if before.contains(ping) {
                    let i = choose|i: int| 0 <= i < before.len() && before[i] == ping;
                    assert(pongs[i] == ping);
                }
                if pongs.contains(ping) && pongs.last() != ping {
                    let i = choose|i: int| 0 <= i < pongs.len() && pongs[i] == ping;
                    assert(before[i] == ping);
                }
            }
        }
    }

    /// A tracker that waits for nothing.
    pub fn new(timeout: Span) -> (tracker: Self)
        ensures
            tracker.last_ping_sent is None,
            tracker.timeout == timeout,
    {
        PingTracker { last_ping_sent: None, timeout }
    }

    /// A ping should be sent while none waits for its pong.
    pub fn should_send_ping(&self) -> (should: bool)
        ensures
            should == (self.waiting() is None),
    {
        self.last_ping_sent.is_none()
    }

    /// Remembers a ping that is sent at the given time. Whatever ping waited before is forgotten.
    pub fn send_ping_at(&mut self, now: Instant, payload: Vec<u8>) -> (sent: Vec<u8>)
        ensures
            sent@ == payload@,
            final(self).last_ping_sent matches Some((at, waiting)) && at == now && waiting@
                == payload@,
            final(self).timeout == old(self).timeout,
    {
        let copy: Vec<u8> = payload.clone();
        assert(copy@ =~= payload@);
        self.last_ping_sent = Some((now, copy));
        payload
    }

    /// Remembers a ping that is sent now, and gives its payload back.
    pub fn send_ping(&mut self, payload: Vec<u8>) -> (sent: Vec<u8>)
        ensures
            sent@ == payload@,
            final(self).last_ping_sent matches Some((at, waiting)) && instant_now(at) && waiting@
                == payload@,
            final(self).timeout == old(self).timeout,
    {
        self.send_ping_at(read_instant(), payload)
    }

    /// A pong came. If it answers the ping that waits, none waits any more; any other pong is
    /// ignored.
    pub fn handle_pong(&mut self, payload: Vec<u8>) -> (handled: Result<(), ConnectionError>)
        ensures
            handled is Ok,
            final(self).waiting() == Self::after_pong(old(self).waiting(), payload@),
            final(self).last_ping_sent == (if old(self).waiting() == Some(payload@) {
                None
            } else {
                old(self).last_ping_sent
            }),
            final(self).timeout == old(self).timeout,
    {
        let answered: bool = match &self.last_ping_sent {
            Some((_, expected_payload)) => same_bytes(expected_payload, &payload),
            None => false,
        };
        if answered {
            self.last_ping_sent = None;
        }
        Ok(())
    }

    /// The outcome of a check, given how many nanoseconds ago the ping that waits was sent, if one
    /// waits: it is overdue once that is more than the time-out.
    pub open spec fn outcome_after(self, elapsed: Option<u128>) -> Result<(), ConnectionError> {
        if elapsed matches Some(nanos) && nanos > self.timeout.nanos {
            Err(ConnectionError::PongReceiveTimeout)
        } else {
            Ok(())
        }
    }

    /// Whether a ping that was sent the given number of nanoseconds ago, or none, is overdue.
    pub fn check_elapsed(&self, elapsed: Option<u128>) -> (checked: Result<(), ConnectionError>)
        ensures
            checked == self.outcome_after(elapsed),
    {
        if let Some(nanos) = elapsed {
            if nanos > self.timeout.nanos {
                return Err(ConnectionError::PongReceiveTimeout);
            }
        }
        Ok(())
    }

    /// Whether the ping that waits, if one does, has by now waited too long. The outcome is that of
    /// the time which the clock gives since that ping was sent; where none waits, it is `Ok`
    /// whatever the clock says.
    pub fn check_timeout(&self) -> (checked: Result<(), ConnectionError>)
        ensures
            match self.last_ping_sent {
                Some((sent_time, _)) => exists|nanos: u128| #[trigger]
                    instant_reading(sent_time, nanos) && checked == self.outcome_after(
                        Some(nanos),
                    ),
                None => checked == Ok::<(), ConnectionError>(()),
            },
    {
        let elapsed: Option<u128> = match &self.last_ping_sent {
            Some((sent_time, _)) => Some(read_since_instant(sent_time)),
            None => None,
        };
        self.check_elapsed(elapsed)
    }
}

/// A ping waits until the pong with its payload comes: no other pong ends the wait or makes it seem
/// later, and no further ping should be sent meanwhile. Once its pong came, none waits.
pub proof fn law_ping_waits_for_its_own_pong(
    before: PingTracker,
    now: Instant,
    ping: Vec<u8>,
    sent: Vec<u8>,
    waiting: PingTracker,
    should_wait: bool,
    pong: Vec<u8>,
    handled: Result<(), ConnectionError>,
    after: PingTracker,
    should_send: bool,
)
    requires
        exists|tracker: &mut PingTracker|
            *tracker == before && *final(tracker) == waiting && #[trigger] call_ensures(
                PingTracker::send_ping_at,
                (tracker, now, ping),
                sent,
            ),
        call_ensures(PingTracker::should_send_ping, (&waiting,), should_wait),
        exists|tracker: &mut PingTracker|
            *tracker == waiting && *final(tracker) == after && #[trigger] call_ensures(
                PingTracker::handle_pong,
                (tracker, pong),
                handled,
            ),
        call_ensures(PingTracker::should_send_ping, (&after,), should_send),
    ensures
        sent@ == ping@,
        !should_wait,
        handled is Ok,
        should_send <==> pong@ == ping@,
        pong@ == ping@ ==> after.last_ping_sent is None,
        pong@ != ping@ ==> (after.last_ping_sent matches Some((at, payload)) && at == now
            && payload@ == ping@),
        after.timeout == before.timeout,
{
}

/// A pong that nothing waits for changes nothing.
pub proof fn law_unasked_pong_is_ignored(
    before: PingTracker,
    pong: Vec<u8>,
    handled: Result<(), ConnectionError>,
    after: PingTracker,
)
    requires
        before.last_ping_sent is None,
        exists|tracker: &mut PingTracker|
            *tracker == before && *final(tracker) == after && #[trigger] call_ensures(
                PingTracker::handle_pong,
                (tracker, pong),
                handled,
            ),
    ensures
        handled is Ok,
        after == before,
{
}

/// A ping is sent exactly while none waits, and one that is sent by the clock waits from a time
/// that the clock gave.
pub proof fn law_ping_is_sent_by_the_clock(
    before: PingTracker,
    should_send: bool,
    ping: Vec<u8>,
    sent: Vec<u8>,
    after: PingTracker,
)
    requires
        call_ensures(PingTracker::should_send_ping, (&before,), should_send),
        exists|tracker: &mut PingTracker|
            *tracker == before && *final(tracker) == after && #[trigger] call_ensures(
                PingTracker::send_ping,
                (tracker, ping),
                sent,
            ),
    ensures
        should_send <==> before.last_ping_sent is None,
        sent@ == ping@,
        after.last_ping_sent matches Some((at, payload)) && instant_now(at) && payload@ == ping@,
        after.timeout == before.timeout,
{
}

/// A ping has waited too long exactly when more nanoseconds have passed than the time-out has; one
/// that does not wait never has.
pub proof fn law_only_a_long_wait_is_an_error(
    tracker: PingTracker,
    elapsed: Option<u128>,
    checked: Result<(), ConnectionError>,
)
    requires
        call_ensures(PingTracker::check_elapsed, (&tracker, elapsed), checked),
    ensures
        checked is Err <==> (elapsed matches Some(nanos) && nanos > tracker.timeout.nanos),
        checked matches Err(error) ==> error is PongReceiveTimeout,
{
}

/// A ping that waits is overdue exactly when the clock gives more nanoseconds since it was sent than
/// the time-out has; where none waits nothing is overdue.
pub proof fn law_waiting_ping_is_checked_by_the_clock(
    tracker: PingTracker,
    checked: Result<(), ConnectionError>,
)
    requires
        call_ensures(PingTracker::check_timeout, (&tracker,), checked),
    ensures
        tracker.last_ping_sent is None ==> checked is Ok,
        tracker.last_ping_sent matches Some((sent_time, _)) ==> exists|nanos: u128| #[trigger]
            instant_reading(sent_time, nanos) && (checked is Err <==> nanos
                > tracker.timeout.nanos),
        checked matches Err(error) ==> error is PongReceiveTimeout,
{
}

/// A new tracker has the given time-out, and nothing waits in it.
pub proof fn law_nothing_waits_at_first(
    timeout: Span,
    tracker: PingTracker,
    should_send: bool,
    checked: Result<(), ConnectionError>,
)
    requires
        call_ensures(PingTracker::new, (timeout,), tracker),
        call_ensures(PingTracker::should_send_ping, (&tracker,), should_send),
        call_ensures(PingTracker::check_timeout, (&tracker,), checked),
    ensures
        tracker.timeout == timeout,
        should_send,
        checked is Ok,
{
}

} // verus!
