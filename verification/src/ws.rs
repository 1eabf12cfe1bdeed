//! The hook-based manager: each of its connections is opened again whenever it ends, and calls
//! hooks for what is read from it.

use crate::clock::{
    read_since_system_time, read_system_time, system_now, system_time_reading, NANOS_PER_SEC,
};
use crate::connection::ConnectionError;
use crate::hooks::{HookCall, ReadHooks};
use crate::manager::Delivery;
use crate::request::{asked, client_request, is_request_for, request_refusal};
use crate::wire::{WireMessage, WireModel};
use std::time::SystemTime;
use tokio_tungstenite::tungstenite::http::Request;
use vstd::prelude::*;
use vstd::string::*;
use vstd::utf8::*;

verus! {

/// The settings of one connection. Durations are in seconds.
#[derive(Debug)]
pub struct Config {
    pub url: String,
    pub ping_duration: u64,
    pub ping_message: String,
    pub reconnect_timeout: u64,
}

/// A connection's name, and what it is told; see [`ABORT`].
pub type BroadcastMesasge = (String, u8);

/// Tells a connection to end, and to be opened again.
pub const ABORT: u8 = 0;

/// How many seconds a pong may come late.
pub const PONG_GRACE_SECS: u64 = 5;

/// Sends the pings of an open connection.
#[derive(Debug)]
pub struct PingLoop {
    pub payload: Vec<u8>,
    pub ping_duration: u64,
}

impl PingLoop {
    /// The ping to send.
    pub fn ping(&self) -> (frame: WireMessage)
        ensures
            frame@ == WireModel::Ping(self.payload@),
    {
        let payload: Vec<u8> = self.payload.clone();
        assert(payload@ =~= self.payload@);
        WireMessage::Ping(payload)
    }

    /// Takes whether the ping could be sent: gives the seconds until the next, or the error that
    /// ends the loop.
    pub fn step(&self, sent: bool) -> (next: Result<u64, ConnectionError>)
        ensures
            next == (if sent {
                Ok(self.ping_duration)
            } else {
                Err::<u64, ConnectionError>(ConnectionError::PingFailed)
            }),
    {
        if sent {
            Ok(self.ping_duration)
        } else {
            Err(ConnectionError::PingFailed)
        }
    }
}

/// What reading from an open connection came to.
#[derive(Debug)]
pub enum ReadInput {
    /// A message was read.
    Received(WireMessage),
    /// Reading failed.
    Failed,
    /// The stream has ended.
    Ended,
}

/// Reads from an open connection: calls the hooks, and watches for the pongs.
#[derive(Debug)]
pub struct ReadLoop<T, B, C, F> {
    pub hooks: ReadHooks<T, B, C, F>,
    pub ping_duration: u64,
    pub last_pong: SystemTime,
}

impl<T, B, C, F> ReadLoop<T, B, C, F> {
    /// The nanoseconds after the last pong at which the next is overdue.
    pub open spec fn patience_nanos(self) -> nat {
        ((self.ping_duration + PONG_GRACE_SECS) * NANOS_PER_SEC) as nat
    }

    /// The outcome of a check, given how many nanoseconds ago the last pong came, where that is in
    /// the past at all.
    pub open spec fn outcome_after(self, elapsed: Option<u128>) -> Result<(), ConnectionError> {
        if elapsed matches Some(nanos) && nanos > self.patience_nanos() {
            Err(ConnectionError::PingFailed)
        } else {
            Ok(())
        }
    }

    /// Takes how many nanoseconds ago the last pong came, where that is in the past at all: it is
    /// an error if the next is overdue.
    pub fn check_elapsed(&self, elapsed: Option<u128>) -> (checked: Result<(), ConnectionError>)
        requires
            self.ping_duration + PONG_GRACE_SECS <= u64::MAX,
        ensures
            checked == self.outcome_after(elapsed),
    {
        if let Some(nanos) = elapsed {
            let patience: u128 = (self.ping_duration + PONG_GRACE_SECS) as u128 * NANOS_PER_SEC;
            if nanos > patience {
                return Err(ConnectionError::PingFailed);
            }
        }
        Ok(())
    }

    /// It is an error if by now a pong is overdue. The outcome is that of the time which the clock
    /// gives since the last pong came.
    pub fn check_pong(&self) -> (checked: Result<(), ConnectionError>)
        requires
            self.ping_duration + PONG_GRACE_SECS <= u64::MAX,
        ensures
            exists|elapsed: Option<u128>| #[trigger]
                system_time_reading(self.last_pong, elapsed) && checked == self.outcome_after(
                    elapsed,
                ),
    {
        self.check_elapsed(read_since_system_time(&self.last_pong))
    }

    /// Takes what was read at the given time, after the hook for it was called: a pong is
    /// remembered, and a close ends the loop. A failure to read, or the end of the stream, changes
    /// nothing; the pongs will be missed.
    pub fn step_at(&mut self, input: &ReadInput, now: SystemTime) -> (next: Result<
        (),
        ConnectionError,
    >)
        ensures
            final(self).hooks == old(self).hooks,
            final(self).ping_duration == old(self).ping_duration,
            final(self).last_pong == (if input matches ReadInput::Received(frame) && frame@ is Pong {
                now
            } else {
                old(self).last_pong
            }),
            next == (if input matches ReadInput::Received(frame) && frame@ is Close {
                Err::<(), ConnectionError>(ConnectionError::CloseFrameReceived)
            } else {
                Ok(())
            }),
    {
        match input {
            ReadInput::Received(WireMessage::Pong(_)) => {
                self.last_pong = now;
                Ok(())
            },
            ReadInput::Received(WireMessage::Close(_)) => Err(ConnectionError::CloseFrameReceived),
            _ => Ok(()),
        }
    }

    /// Takes what was read just now, after the hook for it was called. The time at which a pong
    /// came is read from the clock.
    pub fn step(&mut self, input: &ReadInput) -> (next: Result<(), ConnectionError>)
        ensures
            final(self).hooks == old(self).hooks,
            final(self).ping_duration == old(self).ping_duration,
            if input matches ReadInput::Received(frame) && frame@ is Pong {
                system_now(final(self).last_pong)
            } else {
                final(self).last_pong == old(self).last_pong
            },
            next == (if input matches ReadInput::Received(frame) && frame@ is Close {
                Err::<(), ConnectionError>(ConnectionError::CloseFrameReceived)
            } else {
                Ok(())
            }),
    {
        self.step_at(input, read_system_time())
    }

    /// The hook that is to be called for what was read, if any; see [`ReadHooks::call_for`].
    pub fn call_for(&self, input: &ReadInput) -> (call: Option<HookCall<'_, T, B, C, F>>)
        ensures
            match *input {
                ReadInput::Received(frame) => self.hooks.answers(frame@, call),
                _ => call is None,
            },
    {
        match input {
            ReadInput::Received(frame) => self.hooks.call_for(frame),
            _ => None,
        }
    }
}

/// A connection. `R` reads from it, `W` writes to it, and `T`, `B`, `C` and `F` are the hooks for
/// its messages.
#[derive(Debug)]
pub struct Connection<R, W, T, B, C, F> {
    pub config: Config,
    pub read: Option<R>,
    pub write: Option<W>,
    pub hooks: ReadHooks<T, B, C, F>,
}

impl<R, W, T, B, C, F> Connection<R, W, T, B, C, F> {
    /// A connection that has not been opened.
    pub fn new(config: Config, hooks: ReadHooks<T, B, C, F>) -> (conn: Self)
        ensures
            conn.config == config,
            conn.read is None,
            conn.write is None,
            conn.hooks == hooks,
    {
        Connection { config, read: None, write: None, hooks }
    }

    /// The opening request for the connection's URL.
    pub fn request(&self) -> (request: Result<Request<()>, ConnectionError>)
        ensures
            is_request_for(self.config.url@, request),
    {
        client_request(&self.config.url)
    }

    /// What writes to the connection, with a message for it. The connection must be open.
    pub fn write(&self, msg: WireMessage) -> (delivery: Delivery<'_, W, WireMessage>)
        requires
            self.write is Some,
        ensures
            *delivery.writer == self.write->0,
            delivery.message == msg,
    {
        Delivery { writer: self.write.as_ref().unwrap(), message: msg }
    }

    /// The loop that sends the pings.
    fn ping_loop(&self) -> (pings: PingLoop)
        ensures
            pings.payload@ == encode_utf8(self.config.ping_message@),
            pings.ping_duration == self.config.ping_duration,
    {
        PingLoop {
            payload: self.config.ping_message.as_str().as_bytes_vec(),
            ping_duration: self.config.ping_duration,
        }
    }

    /// The loop that reads, at the given time.
    fn read_loop(&self, now: SystemTime) -> (reads: ReadLoop<T, B, C, F>)
        ensures
            reads.hooks == self.hooks,
            reads.ping_duration == self.config.ping_duration,
            reads.last_pong == now,
    {
        ReadLoop {
            hooks: self.hooks.share(),
            ping_duration: self.config.ping_duration,
            last_pong: now,
        }
    }

    /// The connection was opened: gives the loops to run for it.
    pub fn start_loop(&mut self, read: R, write: W) -> (loops: (ReadLoop<T, B, C, F>, PingLoop))
        ensures
            final(self).config == old(self).config,
            final(self).hooks == old(self).hooks,
            final(self).read == Some(read),
            final(self).write == Some(write),
            loops.0.hooks == old(self).hooks,
            loops.0.ping_duration == old(self).config.ping_duration,
            system_now(loops.0.last_pong),
            loops.1.payload@ == encode_utf8(old(self).config.ping_message@),
            loops.1.ping_duration == old(self).config.ping_duration,
    {
        self.read = Some(read);
        self.write = Some(write);
        (self.read_loop(read_system_time()), self.ping_loop())
    }
}

/// What reaches whoever watches over an open connection.
#[derive(Debug)]
pub enum SupervisorEvent {
    /// Someone told a connection something.
    Broadcast(BroadcastMesasge),
    /// Nothing can be told any more, or something was missed.
    BroadcastFailed,
    /// The loop that reads has ended.
    ReadEnded,
    /// The loop that sends pings has ended.
    PingEnded,
}

/// What is done about an event: the loops may have to be ended; then, after a pause, the
/// connection is opened again.
#[derive(Clone, Copy, Debug, PartialEq, Eq, Structural)]
pub struct SupervisorStep {
    pub abort_loops: bool,
    pub pause_secs: u64,
}

/// Watches over one connection.
#[derive(Debug)]
pub struct Supervisor {
    pub name: String,
    pub reconnect_timeout: u64,
}

impl Supervisor {
    /// Takes an event. The loops are ended when the connection itself is told to abort, and when
    /// one of them has ended by itself.
    pub fn step(&self, event: SupervisorEvent) -> (step: SupervisorStep)
        ensures
            step.abort_loops == match event {
                SupervisorEvent::Broadcast((name, code)) => name@ == self.name@ && code == ABORT,
                SupervisorEvent::BroadcastFailed => false,
                SupervisorEvent::ReadEnded => true,
                SupervisorEvent::PingEnded => true,
            },
            step.pause_secs == self.reconnect_timeout,
    {
        let abort_loops: bool = match event {
            SupervisorEvent::Broadcast((name, code)) => name == self.name && code == ABORT,
            SupervisorEvent::BroadcastFailed => false,
            SupervisorEvent::ReadEnded => true,
            SupervisorEvent::PingEnded => true,
        };
        SupervisorStep { abort_loops, pause_secs: self.reconnect_timeout }
    }
}

/// The manager: its connections, by name.
#[derive(Debug)]
pub struct WSManager<R, W, T, B, C, F> {
    conn: Vec<(String, Connection<R, W, T, B, C, F>)>,
}

/// Whether a connection of the given name stands at the given place.
pub open spec fn stands_at<R, W, T, B, C, F>(
    conns: Seq<(String, Connection<R, W, T, B, C, F>)>,
    name: Seq<char>,
    place: int,
) -> bool {
    0 <= place < conns.len() && conns[place].0@ == name
}

/// The connections of a list, by name.
pub open spec fn by_name<R, W, T, B, C, F>(
    conns: Seq<(String, Connection<R, W, T, B, C, F>)>,
) -> Map<Seq<char>, Connection<R, W, T, B, C, F>> {
    Map::new(
        |name: Seq<char>| exists|place: int| stands_at(conns, name, place),
        |name: Seq<char>| conns[choose|place: int| stands_at(conns, name, place)].1,
    )
}

/// Whether no name occurs twice in a list of connections.
pub open spec fn distinct<R, W, T, B, C, F>(
    conns: Seq<(String, Connection<R, W, T, B, C, F>)>,
) -> bool {
    forall|i: int, j: int|
        0 <= i < j < conns.len() ==> (#[trigger] conns[i]).0@ != (#[trigger] conns[j]).0@
}

/// In a list without repeated names, what stands at a place is what its name leads to.
proof fn lemma_by_name<R, W, T, B, C, F>(
    conns: Seq<(String, Connection<R, W, T, B, C, F>)>,
    place: int,
)
    requires
        distinct(conns),
        0 <= place < conns.len(),
    ensures
        by_name(conns).contains_key(conns[place].0@),
        by_name(conns)[conns[place].0@] == conns[place].1,
{
    let name = conns[place].0@;
    assert(stands_at(conns, name, place));
    let chosen = choose|p: int| stands_at(conns, name, p);
    assert(chosen == place) by {
        if chosen < place {
            assert(conns[chosen].0@ != conns[place].0@);
        } else if place < chosen {
            assert(conns[place].0@ != conns[chosen].0@);
        }
    }
}

impl<R, W, T, B, C, F> View for WSManager<R, W, T, B, C, F> {
    type V = Map<Seq<char>, Connection<R, W, T, B, C, F>>;

    closed spec fn view(&self) -> Map<Seq<char>, Connection<R, W, T, B, C, F>> {
        by_name(self.conn@)
    }
}

impl<R, W, T, B, C, F> WSManager<R, W, T, B, C, F> {
    /// No name occurs twice.
    pub closed spec fn wf(self) -> bool {
        distinct(self.conn@)
    }

    /// A manager without connections.
    pub fn new() -> (manager: Self)
        ensures
            manager.wf(),
            manager@ == Map::<Seq<char>, Connection<R, W, T, B, C, F>>::empty(),
    {
        let manager: Self = WSManager { conn: Vec::new() };
        assert(manager@ =~= Map::empty()) by {
            assert forall|name: Seq<char>| !manager@.contains_key(name) by {}
        }
        manager
    }

    /// Where the named connection stands.
    fn find(&self, name: &str) -> (place: Option<usize>)
        requires
            self.wf(),
        ensures
            match place {
                Some(p) => {
                    &&& p < self.conn.len()
                    &&& self.conn[p as int].0@ == name@
                    &&& self@.contains_key(name@)
                    &&& self@[name@] == self.conn[p as int].1
                },
                None => {
                    &&& !self@.contains_key(name@)
                    &&& forall|i: int|
                        0 <= i < self.conn.len() ==> (#[trigger] self.conn[i]).0@ != name@
                },
            },
    {
        let wanted: String = name.to_owned();
        let mut place: usize = 0;
        while place < self.conn.len()
            invariant
                self.wf(),
                wanted@ == name@,
                place <= self.conn.len(),
                forall|i: int| 0 <= i < place ==> (#[trigger] self.conn[i]).0@ != name@,
            decreases self.conn.len() - place,
        {
            if self.conn[place].0 == wanted {
                proof {
                    lemma_by_name(self.conn@, place as int);
                }
                return Some(place);
            }
            place = place + 1;
        }
        assert(!self@.contains_key(name@)) by {
            if self@.contains_key(name@) {
                let p = choose|p: int| stands_at(self.conn@, name@, p);
                assert(self.conn[p].0@ == name@);
            }
        }
        None
    }

    /// What the model says of one place, once another connection stands there under the same
    /// name.
    proof fn lemma_place_changed(before: Self, after: Self, place: int)
        requires
            before.wf(),
            0 <= place < before.conn.len(),
            after.conn@ == before.conn@.update(place, after.conn[place]),
            after.conn[place].0@ == before.conn[place].0@,
        ensures
            after.wf(),
            after@ == before@.insert(before.conn[place].0@, after.conn[place].1),
    {
        let name = before.conn[place].0@;
        assert forall|i: int, j: int| 0 <= i < j < after.conn.len() implies (
        #[trigger] after.conn[i]).0@ != (#[trigger] after.conn[j]).0@ by {
            assert(before.conn[i].0@ != before.conn[j].0@);
        }
        assert forall|n: Seq<char>| #[trigger]
            after@.contains_key(n) == before@.insert(name, after.conn[place].1).contains_key(n)
            && (after@.contains_key(n) ==> after@[n] == before@.insert(
            name,
            after.conn[place].1,
        )[n]) by {
            if after@.contains_key(n) {
                let p = choose|p: int| stands_at(after.conn@, n, p);
                lemma_by_name(after.conn@, p);
                lemma_by_name(before.conn@, p);
            }
            if before@.contains_key(n) {
                let p = choose|p: int| stands_at(before.conn@, n, p);
                lemma_by_name(after.conn@, p);
            }
            lemma_by_name(after.conn@, place);
        }
        assert(after@ =~= before@.insert(name, after.conn[place].1));
    }

    /// Makes the named connection, in the place of another of that name.
    pub fn new_conn(&mut self, name: &str, config: Config, hooks: ReadHooks<T, B, C, F>)
        requires
            old(self).wf(),
        ensures
            final(self).wf(),
            final(self)@ == old(self)@.insert(
                name@,
                Connection { config, read: None, write: None, hooks },
            ),
    {
        let conn: Connection<R, W, T, B, C, F> = Connection::new(config, hooks);
        match self.find(name) {
            Some(place) => {
                self.conn[place] = (name.to_owned(), conn);
                proof {
                    Self::lemma_place_changed(*old(self), *self, place as int);
                }
            },
            None => {
                let ghost last = self.conn.len() as int;
                self.conn.push((name.to_owned(), conn));
                proof {
                    assert forall|i: int, j: int| 0 <= i < j < self.conn.len() implies (
                    #[trigger] self.conn[i]).0@ != (#[trigger] self.conn[j]).0@ by {
                        assert(old(self).conn[i].0@ != name@);
                        if j < last {
                            assert(old(self).conn[i].0@ != old(self).conn[j].0@);
                        }
                    }
                    assert forall|n: Seq<char>| #[trigger]
                        self@.contains_key(n) == old(self)@.insert(name@, conn).contains_key(n)
                        && (self@.contains_key(n) ==> self@[n] == old(self)@.insert(
                        name@,
                        conn,
                    )[n]) by {
                        if self@.contains_key(n) {
                            let p = choose|p: int| stands_at(self.conn@, n, p);
                            lemma_by_name(self.conn@, p);
                            if p < last {
                                lemma_by_name(old(self).conn@, p);
                            }
                        }
                        if old(self)@.contains_key(n) {
                            let p = choose|p: int| stands_at(old(self).conn@, n, p);
                            lemma_by_name(self.conn@, p);
                        }
                        lemma_by_name(self.conn@, last);
                    }
                    assert(self@ =~= old(self)@.insert(name@, conn));
                }
            },
        }
    }

    /// Those who are to watch over the connections: one for each.
    pub fn start(&self) -> (supervisors: Vec<Supervisor>)
        requires
            self.wf(),
        ensures
            forall|i: int|
                0 <= i < supervisors.len() ==> self@.contains_key(
                    (#[trigger] supervisors[i]).name@,
                ) && supervisors[i].reconnect_timeout
                    == self@[supervisors[i].name@].config.reconnect_timeout,
            forall|i: int, j: int|
                0 <= i < j < supervisors.len() ==> (#[trigger] supervisors[i]).name@ != (
                #[trigger] supervisors[j]).name@,
            forall|name: Seq<char>| #[trigger]
                self@.contains_key(name) ==> exists|i: int|
                    0 <= i < supervisors.len() && (#[trigger] supervisors[i]).name@ == name,
    {
        let mut supervisors: Vec<Supervisor> = Vec::new();
        let mut place: usize = 0;
        while place < self.conn.len()
            invariant
                self.wf(),
                place <= self.conn.len(),
                supervisors.len() == place,
                forall|i: int|
                    0 <= i < place ==> (#[trigger] supervisors[i]).name == self.conn[i].0
                        && supervisors[i].reconnect_timeout
                        == self.conn[i].1.config.reconnect_timeout,
            decreases self.conn.len() - place,
        {
            supervisors.push(
                Supervisor {
                    name: self.conn[place].0.clone(),
                    reconnect_timeout: self.conn[place].1.config.reconnect_timeout,
                },
            );
            place = place + 1;
        }
        proof {
            assert forall|i: int| 0 <= i < supervisors.len() implies self@.contains_key(
                (#[trigger] supervisors[i]).name@,
            ) && supervisors[i].reconnect_timeout
                == self@[supervisors[i].name@].config.reconnect_timeout by {
                lemma_by_name(self.conn@, i);
            }
            assert forall|name: Seq<char>| #[trigger] self@.contains_key(name) implies exists|
                i: int,
            |
                0 <= i < supervisors.len() && (#[trigger] supervisors[i]).name@ == name by {
                let p = choose|p: int| stands_at(self.conn@, name, p);
                assert(supervisors[p].name@ == name);
            }
            assert forall|i: int, j: int| 0 <= i < j < supervisors.len() implies (
            #[trigger] supervisors[i]).name@ != (#[trigger] supervisors[j]).name@ by {
                assert(self.conn[i].0@ != self.conn[j].0@);
            }
        }
        supervisors
    }

    /// The opening request for the named connection, if there is one.
    pub fn request(&self, name: &str) -> (request: Option<Result<Request<()>, ConnectionError>>)
        requires
            self.wf(),
        ensures
            match request {
                Some(outcome) => self@.contains_key(name@) && is_request_for(
                    self@[name@].config.url@,
                    outcome,
                ),
                None => !self@.contains_key(name@),
            },
    {
        match self.find(name) {
            Some(place) => Some(self.conn[place].1.request()),
            None => None,
        }
    }

    /// The named connection, if there is one, was opened: gives the loops to run for it.
    pub fn start_loop(&mut self, name: &str, read: R, write: W) -> (loops: Option<
        (ReadLoop<T, B, C, F>, PingLoop),
    >)
        requires
            old(self).wf(),
        ensures
            final(self).wf(),
            match loops {
                Some((reads, pings)) => {
                    let conn = old(self)@[name@];
                    &&& old(self)@.contains_key(name@)
                    &&& final(self)@ == old(self)@.insert(
                        name@,
                        Connection { read: Some(read), write: Some(write), ..conn },
                    )
                    &&& reads.hooks == conn.hooks
                    &&& reads.ping_duration == conn.config.ping_duration
                    &&& system_now(reads.last_pong)
                    &&& pings.payload@ == encode_utf8(conn.config.ping_message@)
                    &&& pings.ping_duration == conn.config.ping_duration
                },
                None => !old(self)@.contains_key(name@) && final(self)@ == old(self)@,
            },
    {
        match self.find(name) {
            Some(place) => {
                let loops: (ReadLoop<T, B, C, F>, PingLoop) = self.conn[place].1.start_loop(
                    read,
                    write,
                );
                proof {
                    Self::lemma_place_changed(*old(self), *self, place as int);
                }
                Some(loops)
            },
            None => None,
        }
    }

    /// Whether the named connection, if there is one, has been opened.
    pub fn is_open(&self, name: &str) -> (open: Option<bool>)
        requires
            self.wf(),
        ensures
            open == (if self@.contains_key(name@) {
                Some(self@[name@].write is Some)
            } else {
                None
            }),
    {
        match self.find(name) {
            Some(place) => Some(self.conn[place].1.write.is_some()),
            None => None,
        }
    }

    /// What writes to the named connection, if there is one, with a message for it. The
    /// connection must be open.
    pub fn write(&self, name: &str, msg: WireMessage) -> (delivery: Option<
        Delivery<'_, W, WireMessage>,
    >)
        requires
            self.wf(),
            self@.contains_key(name@) ==> self@[name@].write is Some,
        ensures
            match delivery {
                Some(d) => {
                    &&& self@.contains_key(name@)
                    &&& *d.writer == self@[name@].write->0
                    &&& d.message == msg
                },
                None => !self@.contains_key(name@),
            },
    {
        match self.find(name) {
            Some(place) => Some(self.conn[place].1.write(msg)),
            None => None,
        }
    }
}

/// A pong is overdue exactly when more seconds have passed since the last one than lie between two
/// pings, and five more. A clock that stands before the last pong makes none overdue.
pub proof fn law_pong_may_come_five_seconds_late<T, B, C, F>(
    reads: ReadLoop<T, B, C, F>,
    elapsed: Option<u128>,
    checked: Result<(), ConnectionError>,
)
    requires
        call_ensures(ReadLoop::<T, B, C, F>::check_elapsed, (&reads, elapsed), checked),
    ensures
        checked is Err <==> (elapsed matches Some(nanos) && nanos > reads.ping_duration
            * 1_000_000_000 + 5_000_000_000),
        checked matches Err(error) ==> error is PingFailed,
{
}

/// By the clock, a pong is overdue exactly when the clock gives more than that since the last one.
pub proof fn law_pongs_are_checked_by_the_clock<T, B, C, F>(
    reads: ReadLoop<T, B, C, F>,
    checked: Result<(), ConnectionError>,
)
    requires
        call_ensures(ReadLoop::<T, B, C, F>::check_pong, (&reads,), checked),
    ensures
        exists|elapsed: Option<u128>| #[trigger]
            system_time_reading(reads.last_pong, elapsed) && (checked is Err <==> (
            elapsed matches Some(nanos) && nanos > reads.ping_duration * 1_000_000_000
                + 5_000_000_000)),
        checked matches Err(error) ==> error is PingFailed,
{
}

/// The loop that reads ends at a close and at nothing else that is read, and only a pong changes
/// when the last one came: not a text, a failure, or the end of the stream.
pub proof fn law_reading_ends_at_a_close<T, B, C, F>(
    before: ReadLoop<T, B, C, F>,
    input: ReadInput,
    now: SystemTime,
    after: ReadLoop<T, B, C, F>,
    next: Result<(), ConnectionError>,
)
    requires
        exists|reads: &mut ReadLoop<T, B, C, F>|
            *reads == before && *final(reads) == after && #[trigger] call_ensures(
                ReadLoop::<T, B, C, F>::step_at,
                (reads, &input, now),
                next,
            ),
    ensures
        next is Err <==> input matches ReadInput::Received(WireMessage::Close(_)),
        next matches Err(error) ==> error is CloseFrameReceived,
        input matches ReadInput::Received(WireMessage::Pong(_)) ==> after.last_pong == now,
        !(input matches ReadInput::Received(WireMessage::Pong(_))) ==> after.last_pong
            == before.last_pong,
        after.hooks == before.hooks,
        after.ping_duration == before.ping_duration,
{
}

/// The same holds by the clock, which gives the time at which a pong came.
pub proof fn law_reading_goes_by_the_clock<T, B, C, F>(
    before: ReadLoop<T, B, C, F>,
    input: ReadInput,
    after: ReadLoop<T, B, C, F>,
    next: Result<(), ConnectionError>,
)
    requires
        exists|reads: &mut ReadLoop<T, B, C, F>|
            *reads == before && *final(reads) == after && #[trigger] call_ensures(
                ReadLoop::<T, B, C, F>::step,
                (reads, &input),
                next,
            ),
    ensures
        next is Err <==> input matches ReadInput::Received(WireMessage::Close(_)),
        next matches Err(error) ==> error is CloseFrameReceived,
        input matches ReadInput::Received(WireMessage::Pong(_)) ==> system_now(after.last_pong),
        !(input matches ReadInput::Received(WireMessage::Pong(_))) ==> after.last_pong
            == before.last_pong,
        after.hooks == before.hooks,
        after.ping_duration == before.ping_duration,
{
}

/// What was read calls the hook of the loop that is set for its kind, with what it carries. A
/// failure and the end of the stream call none.
pub proof fn law_loop_calls_its_hooks<'a, 'b, T, B, C, F>(
    reads: ReadLoop<T, B, C, F>,
    input: ReadInput,
    call: Option<HookCall<'a, T, B, C, F>>,
    of_hooks: Option<HookCall<'b, T, B, C, F>>,
)
    requires
        call_ensures(ReadLoop::<T, B, C, F>::call_for, (&reads, &input), call),
        input matches ReadInput::Received(frame) ==> call_ensures(
            ReadHooks::<T, B, C, F>::call_for,
            (&reads.hooks, &frame),
            of_hooks,
        ),
    ensures
        !(input is Received) ==> call is None,
        input is Received ==> (call is Some <==> of_hooks is Some),
        input matches ReadInput::Received(WireMessage::Text(text)) ==> (
        *reads.hooks.on_text matches Some(f) ==> {
            &&& call matches Some(HookCall::Text(func, payload))
            &&& *func == f
            &&& payload@ == text@
        }),
        input matches ReadInput::Received(WireMessage::Binary(data)) ==> (
        *reads.hooks.on_binary matches Some(f) ==> {
            &&& call matches Some(HookCall::Bytes(func, payload))
            &&& *func == f
            &&& payload@ == data@
        }),
        input matches ReadInput::Received(WireMessage::Ping(data)) ==> (
        *reads.hooks.on_ping matches Some(f) ==> {
            &&& call matches Some(HookCall::Bytes(func, payload))
            &&& *func == f
            &&& payload@ == data@
        }),
        input matches ReadInput::Received(WireMessage::Pong(data)) ==> (
        *reads.hooks.on_pong matches Some(f) ==> {
            &&& call matches Some(HookCall::Bytes(func, payload))
            &&& *func == f
            &&& payload@ == data@
        }),
        input matches ReadInput::Received(WireMessage::Close(close)) ==> (
        *reads.hooks.on_close matches Some(f) ==> {
            &&& call matches Some(HookCall::Close(func, payload))
            &&& *func == f
            &&& payload is Some <==> close is Some
            &&& close matches Some(said) ==> payload->0.code == said.code && payload->0.reason@
                == said.reason@
        }),
        input matches ReadInput::Received(WireMessage::Frame(raw)) ==> (
        *reads.hooks.on_frame matches Some(f) ==> {
            &&& call matches Some(HookCall::Frame(func, payload))
            &&& *func == f
            &&& payload.header == raw.header
            &&& payload.payload@ == raw.payload@
        }),
{
}

/// Each ping has the payload of the loop that sends it, and the next follows after as many seconds
/// as lie between two pings; a ping that cannot be sent ends the loop.
pub proof fn law_pings_go_on_until_one_fails(
    pings: PingLoop,
    frame: WireMessage,
    sent: bool,
    next: Result<u64, ConnectionError>,
)
    requires
        call_ensures(PingLoop::ping, (&pings,), frame),
        call_ensures(PingLoop::step, (&pings, sent), next),
    ensures
        frame matches WireMessage::Ping(payload) && payload@ == pings.payload@,
        next is Ok <==> sent,
        next matches Ok(secs) ==> secs == pings.ping_duration,
        next matches Err(error) ==> error is PingFailed,
{
}

/// The loops of a connection are ended when one of them ended by itself, or when that connection is
/// told zero; what others are told, anything else that it is told, and a failure to hear end
/// nothing. The pause is always the configured one.
pub proof fn law_supervisor_heeds_its_own_name(
    supervisor: Supervisor,
    event: SupervisorEvent,
    step: SupervisorStep,
)
    requires
        call_ensures(Supervisor::step, (&supervisor, event), step),
    ensures
        step.pause_secs == supervisor.reconnect_timeout,
        event is ReadEnded || event is PingEnded ==> step.abort_loops,
        event is BroadcastFailed ==> !step.abort_loops,
        event matches SupervisorEvent::Broadcast((name, code)) && name@ == supervisor.name@ && code
            == 0 ==> step.abort_loops,
        event matches SupervisorEvent::Broadcast((name, _)) && name@ != supervisor.name@
            ==> !step.abort_loops,
        event matches SupervisorEvent::Broadcast((_, code)) && code != 0 ==> !step.abort_loops,
{
}

/// A connection that was made is asked for by its own URL, and is not open; once it was opened, its
/// loops ping with the configured text and call its hooks, and what is written to it goes to what
/// writes to it, as it is.
pub proof fn law_connection_from_making_to_writing<'a, R, W, T, B, C, F>(
    config: Config,
    hooks: ReadHooks<T, B, C, F>,
    made: Connection<R, W, T, B, C, F>,
    request: Result<Request<()>, ConnectionError>,
    read: R,
    write: W,
    open: Connection<R, W, T, B, C, F>,
    loops: (ReadLoop<T, B, C, F>, PingLoop),
    msg: WireMessage,
    delivery: Delivery<'a, W, WireMessage>,
)
    requires
        call_ensures(Connection::<R, W, T, B, C, F>::new, (config, hooks), made),
        call_ensures(Connection::<R, W, T, B, C, F>::request, (&made,), request),
        exists|conn: &mut Connection<R, W, T, B, C, F>|
            *conn == made && *final(conn) == open && #[trigger] call_ensures(
                Connection::<R, W, T, B, C, F>::start_loop,
                (conn, read, write),
                loops,
            ),
        call_ensures(Connection::<R, W, T, B, C, F>::write, (&open, msg), delivery),
    ensures
        made.read is None && made.write is None,
        request is Ok <==> request_refusal(config.url@) is None,
        request matches Ok(r) ==> asked(config.url@, r),
        open.config == config,
        open.hooks == hooks,
        open.read == Some(read),
        loops.0.hooks == hooks,
        loops.0.ping_duration == config.ping_duration,
        system_now(loops.0.last_pong),
        loops.1.payload@ == encode_utf8(config.ping_message@),
        loops.1.ping_duration == config.ping_duration,
        *delivery.writer == write,
        delivery.message == msg,
{
}

/// Under a name, the connection that was made last stands: it is not open until it was opened
/// itself, it is asked for by its own URL, and opening it makes writes go to it. Connections of
/// other names are left alone.
pub proof fn law_manager_from_making_to_writing<'a, R, W, T, B, C, F>(
    before: WSManager<R, W, T, B, C, F>,
    name: &str,
    config: Config,
    hooks: ReadHooks<T, B, C, F>,
    made: WSManager<R, W, T, B, C, F>,
    was_open: Option<bool>,
    request: Option<Result<Request<()>, ConnectionError>>,
    read: R,
    write: W,
    loops: Option<(ReadLoop<T, B, C, F>, PingLoop)>,
    opened: WSManager<R, W, T, B, C, F>,
    now_open: Option<bool>,
    msg: WireMessage,
    delivery: Option<Delivery<'a, W, WireMessage>>,
    other: &str,
    other_before: Option<bool>,
    other_after: Option<bool>,
)
    requires
        exists|manager: &mut WSManager<R, W, T, B, C, F>|
            *manager == before && *final(manager) == made && #[trigger] call_ensures(
                WSManager::<R, W, T, B, C, F>::new_conn,
                (manager, name, config, hooks),
                (),
            ),
        call_ensures(WSManager::<R, W, T, B, C, F>::is_open, (&made, name), was_open),
        call_ensures(WSManager::<R, W, T, B, C, F>::request, (&made, name), request),
        exists|manager: &mut WSManager<R, W, T, B, C, F>|
            *manager == made && *final(manager) == opened && #[trigger] call_ensures(
                WSManager::<R, W, T, B, C, F>::start_loop,
                (manager, name, read, write),
                loops,
            ),
        call_ensures(WSManager::<R, W, T, B, C, F>::is_open, (&opened, name), now_open),
        call_ensures(WSManager::<R, W, T, B, C, F>::write, (&opened, name, msg), delivery),
        other@ != name@,
        call_ensures(WSManager::<R, W, T, B, C, F>::is_open, (&before, other), other_before),
        call_ensures(WSManager::<R, W, T, B, C, F>::is_open, (&opened, other), other_after),
    ensures
        was_open == Some(false),
        request matches Some(outcome) && (outcome is Ok <==> request_refusal(config.url@) is None)
            && (outcome matches Ok(r) ==> asked(config.url@, r)),
        loops matches Some((reads, pings)) && reads.hooks == hooks && reads.ping_duration
            == config.ping_duration && pings.payload@ == encode_utf8(config.ping_message@)
            && pings.ping_duration == config.ping_duration,
        now_open == Some(true),
        delivery matches Some(d) && *d.writer == write && d.message == msg,
        other_after == other_before,
{
}

/// A manager has no connections to begin with, and an unknown name is neither open, nor asked for,
/// nor opened, nor written to.
pub proof fn law_unknown_name_is_nothing<'a, R, W, T, B, C, F>(
    manager: WSManager<R, W, T, B, C, F>,
    name: &str,
    open: Option<bool>,
    request: Option<Result<Request<()>, ConnectionError>>,
    msg: WireMessage,
    delivery: Option<Delivery<'a, W, WireMessage>>,
    read: R,
    write: W,
    loops: Option<(ReadLoop<T, B, C, F>, PingLoop)>,
    after: WSManager<R, W, T, B, C, F>,
)
    requires
        call_ensures(WSManager::<R, W, T, B, C, F>::new, (), manager)
            || !manager@.contains_key(name@),
        call_ensures(WSManager::<R, W, T, B, C, F>::is_open, (&manager, name), open),
        call_ensures(WSManager::<R, W, T, B, C, F>::request, (&manager, name), request),
        call_ensures(WSManager::<R, W, T, B, C, F>::write, (&manager, name, msg), delivery),
        exists|m: &mut WSManager<R, W, T, B, C, F>|
            *m == manager && *final(m) == after && #[trigger] call_ensures(
                WSManager::<R, W, T, B, C, F>::start_loop,
                (m, name, read, write),
                loops,
            ),
    ensures
        open is None,
        request is None,
        delivery is None,
        loops is None,
        after@ == manager@,
{
}

/// Each connection that was made is watched over, once, with its own pause; a connection that was
/// made again is watched over with the pause that it was made with last.
pub proof fn law_each_connection_is_watched_over<R, W, T, B, C, F>(
    before: WSManager<R, W, T, B, C, F>,
    name: &str,
    config: Config,
    hooks: ReadHooks<T, B, C, F>,
    made: WSManager<R, W, T, B, C, F>,
    supervisors: Vec<Supervisor>,
)
    requires
        exists|manager: &mut WSManager<R, W, T, B, C, F>|
            *manager == before && *final(manager) == made && #[trigger] call_ensures(
                WSManager::<R, W, T, B, C, F>::new_conn,
                (manager, name, config, hooks),
                (),
            ),
        call_ensures(WSManager::<R, W, T, B, C, F>::start, (&made,), supervisors),
    ensures
        exists|i: int| 0 <= i < supervisors.len() && (#[trigger] supervisors[i]).name@ == name@,
        forall|i: int|
            0 <= i < supervisors.len() && (#[trigger] supervisors[i]).name@ == name@
                ==> supervisors[i].reconnect_timeout == config.reconnect_timeout,
        forall|i: int, j: int|
            0 <= i < supervisors.len() && 0 <= j < supervisors.len() && (
            #[trigger] supervisors[i]).name@ == (#[trigger] supervisors[j]).name@ ==> i == j,
        forall|i: int|
            0 <= i < supervisors.len() ==> (#[trigger] supervisors[i]).name@ == name@
                || before@.contains_key(supervisors[i].name@),
        forall|other: Seq<char>| #[trigger]
            before@.contains_key(other) ==> exists|i: int|
                0 <= i < supervisors.len() && (#[trigger] supervisors[i]).name@ == other,
{
    assert(made@.contains_key(name@));
    let place = choose|i: int|
        0 <= i < supervisors.len() && (#[trigger] supervisors[i]).name@ == name@;
    assert(supervisors[place].name@ == name@);
    assert forall|other: Seq<char>| #[trigger] before@.contains_key(other) implies exists|i: int|
        0 <= i < supervisors.len() && (#[trigger] supervisors[i]).name@ == other by {
        assert(made@.contains_key(other));
        let place = choose|i: int|
            0 <= i < supervisors.len() && (#[trigger] supervisors[i]).name@ == other;
        assert(supervisors[place].name@ == other);
    }
}

} // verus!
