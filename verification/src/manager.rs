//! The manager of the connections: which there are, where they stand, and what is to be done
//! about them.

use crate::config::Config;
use crate::connection::{
    received, written, Connection, ConnectionError, ConnectionState, Link, Opened,
};
use crate::message::{optional_text, Message, MessageModel};
use crate::names::{add_name, has_name, no_names, slot_of, slots};
use crate::request::{asked, is_request_for, request_refusal};
use crate::text::{debug_form, debug_quoted, joined};
use crate::wire::WireModel;
use dashmap::DashMap;
use tokio_tungstenite::tungstenite::http::Request;
use vstd::arithmetic::power2::*;
use vstd::bits::*;
use vstd::prelude::*;
use vstd::string::*;
use vstd::utf8::*;

verus! {

/// How many published messages may wait for a slow reader before it misses some.
pub const GLOBAL_CHANNEL_CAPACITY: usize = 4_096;

/// Why a request to the manager is refused. The field is the name of the connection.
#[derive(Debug)]
pub enum ManagerError {
    /// There is no such connection.
    ConnectionUnknown(String),
    /// The connection is not open.
    ConnectionInactive(String),
    /// The connection is being opened.
    ConnectionRestarting(String),
}

impl ManagerError {
    /// The name of the connection.
    pub open spec fn conn(self) -> Seq<char> {
        match self {
            ManagerError::ConnectionUnknown(conn) => conn@,
            ManagerError::ConnectionInactive(conn) => conn@,
            ManagerError::ConnectionRestarting(conn) => conn@,
        }
    }

    /// The error in words, given the form in which the name is written.
    pub open spec fn text_with(self, quoted: Seq<char>) -> Seq<char> {
        match self {
            ManagerError::ConnectionUnknown(_) => "Connection Unknown: "@ + quoted,
            ManagerError::ConnectionInactive(_) => "Connection Inactive: "@ + quoted,
            ManagerError::ConnectionRestarting(_) => "Connection Restarting: "@ + quoted,
        }
    }

    /// The error in words.
    pub open spec fn text(self) -> Seq<char> {
        self.text_with(debug_form(self.conn()))
    }

    /// The error in words, given the form in which the name is written.
    pub fn to_string_with(&self, quoted: &str) -> (text: String)
        ensures
            text@ == self.text_with(quoted@),
    {
        match self {
            ManagerError::ConnectionUnknown(_) => joined("Connection Unknown: ", quoted),
            ManagerError::ConnectionInactive(_) => joined("Connection Inactive: ", quoted),
            ManagerError::ConnectionRestarting(_) => joined("Connection Restarting: ", quoted),
        }
    }

    /// The error in words.
    pub fn to_string(&self) -> (text: String)
        ensures
            text@ == self.text(),
    {
        let quoted: String = match self {
            ManagerError::ConnectionUnknown(conn) => debug_quoted(conn.as_str()),
            ManagerError::ConnectionInactive(conn) => debug_quoted(conn.as_str()),
            ManagerError::ConnectionRestarting(conn) => debug_quoted(conn.as_str()),
        };
        self.to_string_with(quoted.as_str())
    }
}

/// Why a connection is not reconnected.
#[derive(Debug)]
pub struct ReconnectError {
    pub source: ManagerError,
}

impl ReconnectError {
    /// The error in words.
    pub open spec fn text(self) -> Seq<char> {
        match self.source {
            ManagerError::ConnectionUnknown(conn) => "Connection '"@ + conn@
                + "' not found for reconnect"@,
            other => other.text(),
        }
    }

    /// The error in words.
    pub fn to_string(&self) -> (text: String)
        ensures
            text@ == self.text(),
    {
        match &self.source {
            ManagerError::ConnectionUnknown(conn) => {
                let mut text: String = joined("Connection '", conn.as_str());
                text.append("' not found for reconnect");
                text
            },
            other => other.to_string(),
        }
    }
}

/// A message, and what leads to the actor that is to write it.
#[derive(Debug)]
pub struct Delivery<'a, S, M> {
    pub writer: &'a S,
    pub message: M,
}

/// What is left to do to close a connection: hand `message` to the actor that writes, then end
/// the actors.
#[derive(Debug)]
pub struct Closing<S, C> {
    pub message: Message,
    pub link: Link<S, C>,
}

/// What is left to do to reconnect: finish closing, wait, and make the connection anew.
#[derive(Debug)]
pub struct Reconnecting<S, C> {
    pub closing: Closing<S, C>,
    pub delay_secs: u64,
    pub config: Config,
}

/// How an attempt to open a connection ended.
#[derive(Clone, Copy, Debug, PartialEq, Eq, Structural)]
pub enum AttemptOutcome {
    /// The connection is open.
    Opened,
    /// It could not be opened.
    Failed,
    /// There is no such connection any more.
    Removed,
}

/// What follows an attempt to open a connection: news to publish, and, where there is to be
/// another attempt, how many seconds to wait for it.
#[derive(Debug)]
pub struct ConnectStep {
    pub publish: Option<Message>,
    pub retry_after: Option<u64>,
}

/// Opens one connection, with as many attempts as it takes.
#[derive(Debug)]
pub struct Connector {
    pub name: String,
    /// The number of attempts that have failed.
    pub attempt: i32,
}

/// The seconds between a failed attempt and the next: two to the power of the number of attempts
/// that failed before, at most a minute, in whole seconds.
pub open spec fn back_off(attempt: int) -> nat {
    if attempt < 0 {
        0
    } else if pow2(attempt as nat) < 60 {
        pow2(attempt as nat)
    } else {
        60
    }
}

/// The seconds between a failed attempt and the next.
pub fn back_off_secs(attempt: i32) -> (secs: u64)
    ensures
        secs == back_off(attempt as int),
{
    proof {
        lemma2_to64();
        if attempt > 6 {
            lemma_pow2_strictly_increases(6, attempt as nat);
        }
    }
    if attempt < 0 {
        0
    } else if attempt < 6 {
        proof {
            lemma_u64_shl_is_mul(1, attempt as u64);
        }
        1u64 << (attempt as u64)
    } else {
        60
    }
}

impl Connector {
    /// Takes the outcome of an attempt: success and failure are published, and after a failure
    /// there is another attempt, after a pause.
    pub fn step(&mut self, outcome: AttemptOutcome) -> (step: ConnectStep)
        requires
            outcome is Failed ==> old(self).attempt < i32::MAX,
        ensures
            final(self).name == old(self).name,
            match outcome {
                AttemptOutcome::Opened => {
                    &&& final(self).attempt == old(self).attempt
                    &&& step.publish matches Some(message)
                    &&& message@ == MessageModel::SuccessfulHandshake(old(self).name@)
                    &&& step.retry_after is None
                },
                AttemptOutcome::Failed => {
                    &&& final(self).attempt == old(self).attempt + 1
                    &&& step.publish matches Some(message)
                    &&& message@ == MessageModel::FailedHandshake(
                        old(self).name@,
                        old(self).attempt as int,
                    )
                    &&& step.retry_after matches Some(secs)
                    &&& secs == back_off(old(self).attempt as int)
                },
                AttemptOutcome::Removed => {
                    &&& final(self).attempt == old(self).attempt
                    &&& step.publish is None
                    &&& step.retry_after is None
                },
            },
    {
        match outcome {
            AttemptOutcome::Opened => ConnectStep {
                publish: Some(Message::SuccessfulHandshake(self.name.clone())),
                retry_after: None,
            },
            AttemptOutcome::Failed => {
                let secs: u64 = back_off_secs(self.attempt);
                let news: Message = Message::FailedHandshake(self.name.clone(), self.attempt);
                self.attempt = self.attempt + 1;
                ConnectStep { publish: Some(news), retry_after: Some(secs) }
            },
            AttemptOutcome::Removed => ConnectStep { publish: None, retry_after: None },
        }
    }
}

/// What is left to do to make a connection: start the manager's loops, where they do not run yet,
/// publish the news, and let the connector make its attempts.
#[derive(Debug)]
pub struct Starting {
    pub start_loops: bool,
    pub publish: Message,
    pub connector: Connector,
}

/// The manager. `S` leads to an actor that writes, and `C` ends the actors of a connection.
pub struct Manager<S, C> {
    names: DashMap<String, usize>,
    conns: Vec<Connection<S, C>>,
    loops_started: bool,
}

/// The connections of a manager, by name, and whether its loops run.
pub struct ManagerModel<S, C> {
    pub conns: Map<Seq<char>, Connection<S, C>>,
    pub loops_started: bool,
}

impl<S, C> View for Manager<S, C> {
    type V = ManagerModel<S, C>;

    closed spec fn view(&self) -> ManagerModel<S, C> {
        ManagerModel {
            conns: Map::new(
                |name: Seq<char>| slots(self.names).contains_key(name),
                |name: Seq<char>| self.conns[slots(self.names)[name] as int],
            ),
            loops_started: self.loops_started,
        }
    }
}

/// A connection as it is once it has been given up.
pub open spec fn given_up<S, C>(conn: Connection<S, C>) -> Connection<S, C> {
    Connection { connection_state: ConnectionState::Inactive, link: None, ..conn }
}

/// The connections after the named one was closed.
pub open spec fn closed<S, C>(
    conns: Map<Seq<char>, Connection<S, C>>,
    name: Seq<char>,
) -> Map<Seq<char>, Connection<S, C>> {
    conns.insert(name, given_up(conns[name]))
}

/// The connections after an attempt to open the named one has begun.
pub open spec fn attempting<S, C>(
    conns: Map<Seq<char>, Connection<S, C>>,
    name: Seq<char>,
) -> Map<Seq<char>, Connection<S, C>> {
    conns.insert(
        name,
        Connection { connection_state: ConnectionState::Connecting, link: None, ..conns[name] },
    )
}

/// The pong that a published message is to be answered with, and the connection on which: a ping
/// is answered with its own payload.
pub open spec fn pong_for(message: MessageModel) -> Option<(Seq<char>, MessageModel)> {
    match message {
        MessageModel::PingMessage(name, val) => Some((name, MessageModel::PongMessage(name, val))),
        _ => None,
    }
}

/// Why nothing can be written to the named connection, if nothing can.
pub open spec fn write_refusal<S, C>(
    conns: Map<Seq<char>, Connection<S, C>>,
    name: Seq<char>,
    error: ManagerError,
) -> bool {
    match error {
        ManagerError::ConnectionUnknown(n) => n@ == name && !conns.contains_key(name),
        ManagerError::ConnectionInactive(n) => n@ == name && conns.contains_key(name)
            && conns[name].link is None,
        ManagerError::ConnectionRestarting(_) => false,
    }
}

/// Why the named connection cannot be reconnected, if it cannot.
pub open spec fn reconnect_refusal<S, C>(
    conns: Map<Seq<char>, Connection<S, C>>,
    name: Seq<char>,
    error: ManagerError,
) -> bool {
    match error {
        ManagerError::ConnectionUnknown(n) => n@ == name && !conns.contains_key(name),
        ManagerError::ConnectionRestarting(n) => n@ == name && conns.contains_key(name)
            && conns[name].connection_state == ConnectionState::Connecting,
        ManagerError::ConnectionInactive(n) => n@ == name && conns.contains_key(name)
            && conns[name].connection_state == ConnectionState::Inactive,
    }
}

impl<S, C> Manager<S, C> {
    /// Every name has a slot of its own, which holds the connection of that name, and each
    /// connection is consistent.
    pub closed spec fn wf(self) -> bool {
        &&& forall|name: Seq<char>| #[trigger]
            slots(self.names).contains_key(name) ==> slots(self.names)[name] < self.conns.len()
                && self.conns[slots(self.names)[name] as int].name@ == name
        &&& forall|i: int|
            0 <= i < self.conns.len() ==> slots(self.names).contains_key(
                (#[trigger] self.conns[i]).name@,
            ) && slots(self.names)[self.conns[i].name@] == i
        &&& forall|i: int| 0 <= i < self.conns.len() ==> (#[trigger] self.conns[i]).wf()
    }

    /// A manager finds each connection under the connection's own name, and a connection is active
    /// exactly while it has a link.
    pub proof fn law_connections_are_consistent(self, name: Seq<char>)
        requires
            self.wf(),
            self@.conns.contains_key(name),
        ensures
            self@.conns[name].name@ == name,
            self@.conns[name].wf(),
            self@.conns[name].link is Some <==> self@.conns[name].connection_state is Active,
    {
        assert(self.conns[slots(self.names)[name] as int].wf());
    }

    /// A manager without connections, whose loops do not run.
    pub fn new() -> (manager: Self)
        ensures
            manager.wf(),
            manager@.conns == Map::<Seq<char>, Connection<S, C>>::empty(),
            !manager@.loops_started,
    {
        let manager: Self = Manager { names: no_names(), conns: Vec::new(), loops_started: false };
        assert(manager@.conns =~= Map::empty());
        manager
    }

    /// Marks the loops as running, and tells whether they are to be started.
    pub fn ensure_loops_started(&mut self) -> (start: bool)
        requires
            old(self).wf(),
        ensures
            final(self).wf(),
            start == !old(self)@.loops_started,
            final(self)@.loops_started,
            final(self)@.conns == old(self)@.conns,
    {
        let start: bool = !self.loops_started;
        self.loops_started = true;
        start
    }

    /// What leads to the actor that writes to the named connection, with the message for it.
    pub fn write(&self, name: &str, message: Message) -> (delivery: Result<
        Delivery<'_, S, Message>,
        ManagerError,
    >)
        requires
            self.wf(),
        ensures
            match delivery {
                Ok(d) => {
                    &&& self@.conns.contains_key(name@)
                    &&& self@.conns[name@].link matches Some(link)
                    &&& *d.writer == link.writer.sender
                    &&& d.message == message
                },
                Err(error) => write_refusal(self@.conns, name@, error),
            },
    {
        if let Some(slot) = slot_of(&self.names, name) {
            if let Some(writer) = self.conns[slot].write() {
                return Ok(Delivery { writer, message });
            }
            return Err(ManagerError::ConnectionInactive(name.to_owned()));
        }
        Err(ManagerError::ConnectionUnknown(name.to_owned()))
    }

    /// What the model says of one slot, once another connection of the same name stands there.
    proof fn lemma_slot_changed(before: Self, after: Self, slot: usize)
        requires
            before.wf(),
            slot < before.conns.len(),
            after.names == before.names,
            after.conns@ == before.conns@.update(slot as int, after.conns[slot as int]),
            after.conns[slot as int].name@ == before.conns[slot as int].name@,
            after.conns[slot as int].wf(),
        ensures
            after.wf(),
            after@.conns == before@.conns.insert(
                before.conns[slot as int].name@,
                after.conns[slot as int],
            ),
    {
        assert forall|i: int| 0 <= i < after.conns.len() implies slots(after.names).contains_key(
            (#[trigger] after.conns[i]).name@,
        ) && slots(after.names)[after.conns[i].name@] == i by {
            assert(before.conns[i].wf());
            assert(slots(before.names).contains_key(before.conns[i].name@));
        }
        assert(after.wf());
        assert(after@.conns =~= before@.conns.insert(
            before.conns[slot as int].name@,
            after.conns[slot as int],
        ));
    }

    /// Closes the named connection: gives it up, and says what is left to do.
    pub fn close_conn(&mut self, name: &str) -> (closing: Result<Closing<S, C>, ManagerError>)
        requires
            old(self).wf(),
        ensures
            final(self).wf(),
            final(self)@.loops_started == old(self)@.loops_started,
            match closing {
                Ok(c) => {
                    &&& old(self)@.conns.contains_key(name@)
                    &&& old(self)@.conns[name@].link == Some(c.link)
                    &&& c.message@ == MessageModel::CloseMessage(name@, None)
                    &&& final(self)@.conns == closed(old(self)@.conns, name@)
                },
                Err(error) => {
                    &&& write_refusal(old(self)@.conns, name@, error)
                    &&& final(self)@.conns == old(self)@.conns
                },
            },
    {
        let message: Message = match self.write(
            name,
            Message::CloseMessage(name.to_owned(), None),
        ) {
            Ok(delivery) => delivery.message,
            Err(error) => {
                return Err(error);
            },
        };
        let slot: usize = slot_of(&self.names, name).unwrap();
        let link: Link<S, C> = self.conns[slot].shutdown().unwrap();
        proof {
            Self::lemma_slot_changed(*old(self), *self, slot);
        }
        Ok(Closing { message, link })
    }

    /// Makes the named connection, unless there is one already, which then keeps its settings;
    /// and says what is left to do to open it.
    pub fn new_conn(&mut self, name: &str, config: Config) -> (starting: Starting)
        requires
            old(self).wf(),
        ensures
            final(self).wf(),
            final(self)@.loops_started,
            starting.start_loops == !old(self)@.loops_started,
            starting.publish@ == MessageModel::ConnectionStarting(name@),
            starting.connector.name@ == name@,
            starting.connector.attempt == 0,
            if old(self)@.conns.contains_key(name@) {
                final(self)@.conns == old(self)@.conns
            } else {
                &&& final(self)@.conns == old(self)@.conns.insert(
                    name@,
                    final(self)@.conns[name@],
                )
                &&& final(self)@.conns[name@].name@ == name@
                &&& final(self)@.conns[name@].config == config
                &&& final(self)@.conns[name@].connection_state == ConnectionState::Inactive
                &&& final(self)@.conns[name@].link is None
            },
    {
        let start_loops: bool = self.ensure_loops_started();
        if !has_name(&self.names, name) {
            let ghost before = *self;
            let slot: usize = self.conns.len();
            self.conns.push(Connection::new(name, config));
            add_name(&mut self.names, name.to_owned(), slot);
            proof {
                assert forall|n: Seq<char>| #[trigger]
                    slots(self.names).contains_key(n) implies slots(self.names)[n]
                    < self.conns.len() && self.conns[slots(self.names)[n] as int].name@ == n by {
                    if n != name@ {
                        assert(slots(before.names).contains_key(n));
                    }
                }
                assert forall|i: int| 0 <= i < self.conns.len() implies slots(
                    self.names,
                ).contains_key((#[trigger] self.conns[i]).name@) && slots(
                    self.names,
                )[self.conns[i].name@] == i && self.conns[i].wf() by {
                    if i < slot {
                        assert(before.conns[i].wf());
                        assert(slots(before.names).contains_key(before.conns[i].name@));
                    }
                }
                assert(self@.conns =~= before@.conns.insert(name@, self.conns[slot as int]));
            }
        }
        Starting {
            start_loops,
            publish: Message::ConnectionStarting(name.to_owned()),
            connector: Connector { name: name.to_owned(), attempt: 0 },
        }
    }

    /// Begins an attempt to open the named connection, if there is one: gives the opening request,
    /// and what was open until now, to be ended.
    pub fn begin_attempt(&mut self, name: &str) -> (attempt: Option<
        (Result<Request<()>, ConnectionError>, Option<Link<S, C>>),
    >)
        requires
            old(self).wf(),
        ensures
            final(self).wf(),
            final(self)@.loops_started == old(self)@.loops_started,
            match attempt {
                Some((request, replaced)) => {
                    let conn = old(self)@.conns[name@];
                    &&& old(self)@.conns.contains_key(name@)
                    &&& replaced == conn.link
                    &&& is_request_for(conn.config.url@, request)
                    &&& final(self)@.conns == attempting(old(self)@.conns, name@)
                },
                None => {
                    &&& !old(self)@.conns.contains_key(name@)
                    &&& final(self)@.conns == old(self)@.conns
                },
            },
    {
        match slot_of(&self.names, name) {
            Some(slot) => {
                let attempt: (Result<Request<()>, ConnectionError>, Option<Link<S, C>>) =
                    self.conns[slot].try_connection();
                proof {
                    Self::lemma_slot_changed(*old(self), *self, slot);
                }
                Some(attempt)
            },
            None => None,
        }
    }

    /// Ends an attempt to open the named connection, if there still is one, by how opening it
    /// went; see [`Connection::finish_connection`].
    pub fn finish_attempt(&mut self, name: &str, outcome: Result<(S, C), String>) -> (finished:
        Option<Result<Opened<S, C>, ConnectionError>>)
        requires
            old(self).wf(),
        ensures
            final(self).wf(),
            final(self)@.loops_started == old(self)@.loops_started,
            match finished {
                Some(f) => {
                    let before = old(self)@.conns[name@];
                    let after = final(self)@.conns[name@];
                    &&& old(self)@.conns.contains_key(name@)
                    &&& final(self)@.conns == old(self)@.conns.insert(name@, after)
                    &&& match outcome {
                        Ok((sender, cancel_token)) => {
                            &&& after.name == before.name
                            &&& after.config == before.config
                            &&& after.connection_state == ConnectionState::Active
                            &&& after.link matches Some(link) && link.writer.sender == sender
                                && link.cancel_token == cancel_token
                            &&& f matches Ok(opened) && opened.starts(before) && opened.replaced
                                == before.link
                        },
                        Err(error) => {
                            &&& after == before
                            &&& f == Err::<Opened<S, C>, ConnectionError>(
                                ConnectionError::ConnectionInitFailed(error),
                            )
                        },
                    }
                },
                None => {
                    &&& !old(self)@.conns.contains_key(name@)
                    &&& final(self)@.conns == old(self)@.conns
                },
            },
    {
        match slot_of(&self.names, name) {
            Some(slot) => {
                let finished: Result<Opened<S, C>, ConnectionError> =
                    self.conns[slot].finish_connection(outcome);
                proof {
                    Self::lemma_slot_changed(*old(self), *self, slot);
                }
                Some(finished)
            },
            None => None,
        }
    }

    /// Reconnects the named connection: gives it up, and says what is left to do. A connection
    /// that is being opened is left alone.
    pub fn reconnect(&mut self, name: &str) -> (reconnecting: Result<
        Reconnecting<S, C>,
        ReconnectError,
    >)
        requires
            old(self).wf(),
        ensures
            final(self).wf(),
            final(self)@.loops_started == old(self)@.loops_started,
            match reconnecting {
                Ok(r) => {
                    let conn = old(self)@.conns[name@];
                    &&& old(self)@.conns.contains_key(name@)
                    &&& conn.connection_state == ConnectionState::Active
                    &&& conn.link == Some(r.closing.link)
                    &&& r.closing.message@ == MessageModel::CloseMessage(name@, None)
                    &&& r.delay_secs == conn.config.reconnect_timeout
                    &&& r.config == conn.config
                    &&& final(self)@.conns == closed(old(self)@.conns, name@)
                },
                Err(error) => {
                    &&& final(self)@.conns == old(self)@.conns
                    &&& reconnect_refusal(old(self)@.conns, name@, error.source)
                },
            },
    {
        if !has_name(&self.names, name) {
            return Err(
                ReconnectError { source: ManagerError::ConnectionUnknown(name.to_owned()) },
            );
        }
        let slot: usize = slot_of(&self.names, name).unwrap();
        proof {
            assert(self.conns[slot as int].wf());
        }
        let config: Config = self.conns[slot].config.clone();
        if let ConnectionState::Connecting = self.conns[slot].connection_state {
            return Err(
                ReconnectError { source: ManagerError::ConnectionRestarting(name.to_owned()) },
            );
        }
        match self.close_conn(name) {
            Ok(closing) => Ok(
                Reconnecting { closing, delay_secs: config.reconnect_timeout, config },
            ),
            Err(source) => Err(ReconnectError { source }),
        }
    }

    /// The answer to a published message, if one is owed: a ping that a connection received is
    /// answered on that connection, while it is active, with a pong of the same payload.
    pub fn pong_reply(&self, msg: Message) -> (reply: Option<Delivery<'_, S, Message>>)
        requires
            self.wf(),
        ensures
            match pong_for(msg@) {
                Some((name, pong)) => if self@.conns.contains_key(name)
                    && self@.conns[name].link is Some {
                    &&& reply matches Some(delivery)
                    &&& *delivery.writer == self@.conns[name].link->0.writer.sender
                    &&& delivery.message@ == pong
                } else {
                    reply is None
                },
                None => reply is None,
            },
    {
        if let Message::PingMessage(name, val) = msg {
            if let Some(slot) = slot_of(&self.names, name.as_str()) {
                if let Some(writer) = self.conns[slot].write() {
                    return Some(Delivery { writer, message: Message::PongMessage(name, val) });
                }
            }
        }
        None
    }

    /// Gives every connection up. What was open is handed out with its name, to be ended.
    pub fn shutdown(&mut self) -> (ended: Vec<(String, Link<S, C>)>)
        requires
            old(self).wf(),
        ensures
            final(self).wf(),
            final(self)@.loops_started == old(self)@.loops_started,
            final(self)@.conns == old(self)@.conns.map_values(
                |conn: Connection<S, C>| given_up(conn),
            ),
            // Each link that is handed out was open, under that name.
            forall|i: int|
                0 <= i < ended.len() ==> old(self)@.conns.contains_key((#[trigger] ended[i]).0@)
                    && old(self)@.conns[ended[i].0@].link == Some(ended[i].1),
            // No name is handed out twice.
            forall|i: int, j: int|
                0 <= i < j < ended.len() ==> (#[trigger] ended[i]).0@ != (#[trigger] ended[j]).0@,
            // Whatever was open is handed out.
            forall|name: Seq<char>| #[trigger]
                old(self)@.conns.contains_key(name) && old(self)@.conns[name].link is Some
                    ==> exists|i: int| 0 <= i < ended.len() && (#[trigger] ended[i]).0@ == name,
    {
        let mut ended: Vec<(String, Link<S, C>)> = Vec::new();
        let mut slot: usize = 0;
        while slot < self.conns.len()
            invariant
                old(self).wf(),
                self.names == old(self).names,
                self.loops_started == old(self).loops_started,
                self.conns.len() == old(self).conns.len(),
                slot <= self.conns.len(),
                forall|i: int|
                    0 <= i < slot ==> #[trigger] self.conns[i] == given_up(old(self).conns[i]),
                forall|i: int|
                    slot <= i < self.conns.len() ==> #[trigger] self.conns[i] == old(self).conns[i],
                forall|k: int|
                    0 <= k < ended.len() ==> exists|i: int|
                        0 <= i < slot && (#[trigger] old(self).conns[i]).name@ == (
                        #[trigger] ended[k]).0@ && old(self).conns[i].link == Some(ended[k].1),
                forall|j: int, k: int|
                    0 <= j < k < ended.len() ==> (#[trigger] ended[j]).0@ != (
                    #[trigger] ended[k]).0@,
                forall|i: int|
                    0 <= i < slot && (#[trigger] old(self).conns[i]).link is Some ==> exists|k: int|
                        0 <= k < ended.len() && (#[trigger] ended[k]).0@
                            == old(self).conns[i].name@,
            decreases self.conns.len() - slot,
        {
            let ghost before = ended@;
            let name: String = self.conns[slot].name.clone();
            if let Some(link) = self.conns[slot].shutdown() {
                ended.push((name, link));
                assert(ended[ended.len() - 1].0@ == old(self).conns[slot as int].name@);
            }
            proof {
                assert forall|i: int|
                    0 <= i < slot + 1 && (#[trigger] old(self).conns[i]).link is Some implies exists|
                    k: int,
                |
                    0 <= k < ended.len() && (#[trigger] ended[k]).0@ == old(self).conns[i].name@ by {
                    if i < slot {
                        let k = choose|k: int|
                            0 <= k < before.len() && (#[trigger] before[k]).0@
                                == old(self).conns[i].name@;
                        assert(ended[k].0@ == old(self).conns[i].name@);
                    }
                }
            }
            slot = slot + 1;
        }
        ended
    }
}

/// The connection that a published message calls to reconnect: the one on which reading or
/// writing failed, or a pong is overdue.
pub open spec fn reconnect_target_of(message: MessageModel) -> Option<Seq<char>> {
    match message {
        MessageModel::ReadError(name, _) => Some(name),
        MessageModel::WriteError(name, _) => Some(name),
        MessageModel::PongReceiveTimeoutError(name) => Some(name),
        _ => None,
    }
}

/// The connection that a published message calls to reconnect, if any.
pub fn reconnect_target(msg: Message) -> (target: Option<String>)
    ensures
        optional_text(target) == reconnect_target_of(msg@),
{
    match msg {
        Message::ReadError(conn_name, _err_str) => Some(conn_name),
        Message::WriteError(conn_name, _err_str) => Some(conn_name),
        Message::PongReceiveTimeoutError(conn_name) => Some(conn_name),
        _ => None,
    }
}

/// The pauses between attempts are at least a second and at most a minute, and double until then.
pub proof fn law_back_off_doubles_up_to_a_minute(attempt: int)
    requires
        attempt >= 0,
    ensures
        1 <= back_off(attempt) <= 60,
        back_off(0) == 1,
        back_off(attempt + 1) == (if 2 * back_off(attempt) < 60 {
            2 * back_off(attempt)
        } else {
            60
        }),
{
    lemma2_to64();
    lemma_pow2_pos(attempt as nat);
    lemma_pow2_unfold((attempt + 1) as nat);
}

/// A write, and so a close, is refused for exactly one reason, or else there is a link to write
/// to.
pub proof fn law_write_is_refused_for_one_reason<S, C>(
    conns: Map<Seq<char>, Connection<S, C>>,
    name: Seq<char>,
    error: ManagerError,
    other: ManagerError,
)
    requires
        write_refusal(conns, name, error),
    ensures
        !(conns.contains_key(name) && conns[name].link is Some),
        write_refusal(conns, name, other) ==> other.text() == error.text(),
{
}

/// A connection that was closed refuses writes, being closed again and being reconnected, as
/// inactive; it keeps its name and settings, and other connections are left alone.
pub proof fn law_closed_connection_is_inactive<S, C>(
    conns: Map<Seq<char>, Connection<S, C>>,
    name: Seq<char>,
    inactive: String,
    other: Seq<char>,
)
    requires
        conns.contains_key(name),
        inactive@ == name,
        other != name,
    ensures
        write_refusal(closed(conns, name), name, ManagerError::ConnectionInactive(inactive)),
        reconnect_refusal(closed(conns, name), name, ManagerError::ConnectionInactive(inactive)),
        closed(conns, name).dom() == conns.dom(),
        closed(conns, name)[name].name == conns[name].name,
        closed(conns, name)[name].config == conns[name].config,
        closed(conns, name)[other] == conns[other],
{
    assert(closed(conns, name).dom() =~= conns.dom());
}

/// While a connection is being opened it is not reconnected, and writes to it are refused.
pub proof fn law_opening_connection_is_left_alone<S, C>(
    conns: Map<Seq<char>, Connection<S, C>>,
    name: Seq<char>,
    called: String,
)
    requires
        conns.contains_key(name),
        called@ == name,
    ensures
        reconnect_refusal(
            attempting(conns, name),
            name,
            ManagerError::ConnectionRestarting(called),
        ),
        write_refusal(attempting(conns, name), name, ManagerError::ConnectionInactive(called)),
        attempting(conns, name).dom() == conns.dom(),
{
    assert(attempting(conns, name).dom() =~= conns.dom());
}

/// Opening a connection again, once it was closed, is opening it: the name and the settings are
/// those it had, and nothing else remains.
pub proof fn law_reopening_keeps_settings<S, C>(
    conns: Map<Seq<char>, Connection<S, C>>,
    name: Seq<char>,
)
    requires
        conns.contains_key(name),
    ensures
        attempting(closed(conns, name), name) == attempting(conns, name),
        attempting(conns, name)[name].name == conns[name].name,
        attempting(conns, name)[name].config == conns[name].config,
        attempting(conns, name)[name].link is None,
{
    assert(attempting(closed(conns, name), name) =~= attempting(conns, name));
}

/// A ping is answered on the connection on which it came, with a pong that has the bytes of the
/// ping, where these are valid UTF-8.
pub proof fn law_ping_is_echoed(name: Seq<char>, data: Seq<u8>)
    requires
        valid_utf8(data),
    ensures
        pong_for(received(name, WireModel::Ping(data))) matches Some((on, pong)) && on == name
            && written(pong) == Some(WireModel::Pong(data)),
{
    decode_utf8_encode_utf8(data);
}

/// Nothing that is read from a connection calls for a reconnection, and what calls for one is
/// never written.
pub proof fn law_only_errors_reconnect(name: Seq<char>, frame: WireModel, message: MessageModel)
    ensures
        reconnect_target_of(received(name, frame)) is None,
        reconnect_target_of(message) is Some ==> written(message) is None,
{
}

/// A failure to read or to write, or an overdue pong, calls for a reconnection of the connection
/// that it is about.
pub proof fn law_errors_reconnect(name: Seq<char>, error: Seq<char>)
    ensures
        reconnect_target_of(MessageModel::ReadError(name, error)) == Some(name),
        reconnect_target_of(MessageModel::WriteError(name, error)) == Some(name),
        reconnect_target_of(MessageModel::PongReceiveTimeoutError(name)) == Some(name),
{
}

/// A published message calls for a reconnection exactly if it says that reading or writing failed
/// or that a pong is overdue, and then of the connection that it is about. No other message does:
/// nothing that was read, and no news of a connection.
pub proof fn law_nothing_but_failures_reconnects(msg: Message, target: Option<String>)
    requires
        call_ensures(reconnect_target, (msg,), target),
    ensures
        target is Some <==> (msg is ReadError || msg is WriteError
            || msg is PongReceiveTimeoutError),
        msg matches Message::ReadError(name, _) ==> target->0@ == name@,
        msg matches Message::WriteError(name, _) ==> target->0@ == name@,
        msg matches Message::PongReceiveTimeoutError(name) ==> target->0@ == name@,
{
}

/// A message is answered exactly if it is a ping of a connection that is open: on that connection,
/// with a pong of the same payload. No message of another kind is answered.
pub proof fn law_nothing_but_pings_is_answered<'a, S, C>(
    manager: Manager<S, C>,
    msg: Message,
    reply: Option<Delivery<'a, S, Message>>,
)
    requires
        call_ensures(Manager::<S, C>::pong_reply, (&manager, msg), reply),
    ensures
        !(msg is PingMessage) ==> reply is None,
        msg matches Message::PingMessage(name, payload) ==> {
            &&& reply is Some <==> manager@.conns.contains_key(name@)
                && manager@.conns[name@].link is Some
            &&& reply matches Some(delivery) ==> {
                &&& *delivery.writer == manager@.conns[name@].link->0.writer.sender
                &&& delivery.message matches Message::PongMessage(on, echoed)
                &&& on@ == name@
                &&& echoed@ == payload@
            }
        },
{
}

/// A ping is answered where a write would go: what leads to the actor that writes is the same, and
/// there is an answer exactly where a write is not refused.
pub proof fn law_answer_goes_where_a_write_goes<'a, 'b, S, C>(
    manager: Manager<S, C>,
    name: &str,
    to: String,
    payload: String,
    reply: Option<Delivery<'a, S, Message>>,
    message: Message,
    delivery: Result<Delivery<'b, S, Message>, ManagerError>,
)
    requires
        to@ == name@,
        call_ensures(
            Manager::<S, C>::pong_reply,
            (&manager, Message::PingMessage(to, payload)),
            reply,
        ),
        call_ensures(Manager::<S, C>::write, (&manager, name, message), delivery),
    ensures
        reply is Some <==> delivery is Ok,
        delivery matches Ok(d) ==> reply->0.writer == d.writer,
{
}

/// A message for a connection is delivered, as it is, exactly while that connection is open.
/// Otherwise the refusal names the connection, and says whether there is one of that name.
pub proof fn law_write_reaches_an_open_connection<'a, S, C>(
    manager: Manager<S, C>,
    name: &str,
    message: Message,
    delivery: Result<Delivery<'a, S, Message>, ManagerError>,
)
    requires
        call_ensures(Manager::<S, C>::write, (&manager, name, message), delivery),
    ensures
        delivery is Ok <==> manager@.conns.contains_key(name@)
            && manager@.conns[name@].link is Some,
        delivery matches Ok(d) ==> *d.writer == manager@.conns[name@].link->0.writer.sender
            && d.message == message,
        delivery matches Err(error) ==> {
            &&& !manager@.conns.contains_key(name@) ==> (
            error matches ManagerError::ConnectionUnknown(n) && n@ == name@)
            &&& manager@.conns.contains_key(name@) ==> (
            error matches ManagerError::ConnectionInactive(n) && n@ == name@)
        },
{
}

/// A connection is closed exactly where it is open: the close is sent, what was open is handed out,
/// and the connection is inactive with its name and settings. No other connection is touched, and
/// a refused close touches none.
pub proof fn law_close_gives_one_connection_up<S, C>(
    before: Manager<S, C>,
    name: &str,
    closing: Result<Closing<S, C>, ManagerError>,
    after: Manager<S, C>,
)
    requires
        exists|manager: &mut Manager<S, C>|
            *manager == before && *final(manager) == after && #[trigger] call_ensures(
                Manager::<S, C>::close_conn,
                (manager, name),
                closing,
            ),
    ensures
        closing is Ok <==> before@.conns.contains_key(name@)
            && before@.conns[name@].link is Some,
        closing matches Ok(c) ==> {
            &&& before@.conns[name@].link == Some(c.link)
            &&& c.message matches Message::CloseMessage(n, None)
            &&& n@ == name@
            &&& after@.conns[name@].link is None
            &&& after@.conns[name@].connection_state is Inactive
            &&& after@.conns[name@].name == before@.conns[name@].name
            &&& after@.conns[name@].config == before@.conns[name@].config
        },
        closing matches Err(error) ==> {
            &&& after@.conns == before@.conns
            &&& !before@.conns.contains_key(name@) ==> (
            error matches ManagerError::ConnectionUnknown(n) && n@ == name@)
            &&& before@.conns.contains_key(name@) ==> (
            error matches ManagerError::ConnectionInactive(n) && n@ == name@)
        },
        forall|other: Seq<char>|
            #![trigger after@.conns.contains_key(other)]
            #![trigger after@.conns[other]]
            {
                &&& after@.conns.contains_key(other) <==> before@.conns.contains_key(other)
                &&& other != name@ ==> after@.conns[other] == before@.conns[other]
            },
        after@.loops_started == before@.loops_started,
{
}

/// A connection is reconnected exactly where it is active: it is closed as by a close, and is to be
/// made anew, with the settings that it had, after the pause that these ask for. One that is being
/// opened is refused as restarting, one that is not open as inactive, and neither is touched.
pub proof fn law_only_an_active_connection_reconnects<S, C>(
    before: Manager<S, C>,
    name: &str,
    reconnecting: Result<Reconnecting<S, C>, ReconnectError>,
    after: Manager<S, C>,
)
    requires
        exists|manager: &mut Manager<S, C>|
            *manager == before && *final(manager) == after && #[trigger] call_ensures(
                Manager::<S, C>::reconnect,
                (manager, name),
                reconnecting,
            ),
    ensures
        reconnecting is Ok <==> before@.conns.contains_key(name@)
            && before@.conns[name@].connection_state is Active,
        reconnecting matches Ok(r) ==> {
            &&& before@.conns[name@].link == Some(r.closing.link)
            &&& r.closing.message matches Message::CloseMessage(n, None)
            &&& n@ == name@
            &&& r.config == before@.conns[name@].config
            &&& r.delay_secs == before@.conns[name@].config.reconnect_timeout
            &&& after@.conns[name@].link is None
            &&& after@.conns[name@].connection_state is Inactive
            &&& after@.conns[name@].name == before@.conns[name@].name
            &&& after@.conns[name@].config == before@.conns[name@].config
        },
        reconnecting matches Err(error) ==> {
            &&& after@.conns == before@.conns
            &&& !before@.conns.contains_key(name@) ==> (
            error.source matches ManagerError::ConnectionUnknown(n) && n@ == name@)
            &&& before@.conns.contains_key(name@)
                && before@.conns[name@].connection_state is Connecting ==> (
            error.source matches ManagerError::ConnectionRestarting(n) && n@ == name@)
            &&& before@.conns.contains_key(name@)
                && before@.conns[name@].connection_state is Inactive ==> (
            error.source matches ManagerError::ConnectionInactive(n) && n@ == name@)
        },
        forall|other: Seq<char>|
            #![trigger after@.conns.contains_key(other)]
            #![trigger after@.conns[other]]
            {
                &&& after@.conns.contains_key(other) <==> before@.conns.contains_key(other)
                &&& other != name@ ==> after@.conns[other] == before@.conns[other]
            },
{
}

/// A connection that was reconnected is being opened again from its first attempt on, at the same
/// URL, and writes to it are refused meanwhile; making it anew has changed none of its settings.
pub proof fn law_reconnected_connection_is_opened_again<'a, S, C>(
    before: Manager<S, C>,
    name: &str,
    reconnecting: Reconnecting<S, C>,
    closed: Manager<S, C>,
    starting: Starting,
    made: Manager<S, C>,
    attempt: Option<(Result<Request<()>, ConnectionError>, Option<Link<S, C>>)>,
    opening: Manager<S, C>,
    message: Message,
    delivery: Result<Delivery<'a, S, Message>, ManagerError>,
)
    requires
        exists|manager: &mut Manager<S, C>|
            *manager == before && *final(manager) == closed && #[trigger] call_ensures(
                Manager::<S, C>::reconnect,
                (manager, name),
                Ok::<Reconnecting<S, C>, ReconnectError>(reconnecting),
            ),
        exists|manager: &mut Manager<S, C>|
            *manager == closed && *final(manager) == made && #[trigger] call_ensures(
                Manager::<S, C>::new_conn,
                (manager, name, reconnecting.config),
                starting,
            ),
        exists|manager: &mut Manager<S, C>|
            *manager == made && *final(manager) == opening && #[trigger] call_ensures(
                Manager::<S, C>::begin_attempt,
                (manager, name),
                attempt,
            ),
        call_ensures(Manager::<S, C>::write, (&opening, name, message), delivery),
    ensures
        made@.conns == closed@.conns,
        starting.connector.name@ == name@,
        starting.connector.attempt == 0,
        attempt matches Some((request, replaced)) && replaced is None && (request is Ok
            <==> request_refusal(before@.conns[name@].config.url@) is None) && (
        request matches Ok(r) ==> asked(before@.conns[name@].config.url@, r)),
        opening@.conns[name@].connection_state is Connecting,
        opening@.conns[name@].config == before@.conns[name@].config,
        delivery matches Err(ManagerError::ConnectionInactive(n)) && n@ == name@,
{
}

/// A new name gets a connection with the given settings, which is not open; a name that is taken
/// keeps the connection it has. Other connections are left alone. Either way the start is
/// published, the attempts count from zero, and the loops are started by the first call alone.
pub proof fn law_new_connection_or_the_one_there_is<S, C>(
    before: Manager<S, C>,
    name: &str,
    config: Config,
    starting: Starting,
    after: Manager<S, C>,
    again: Starting,
    at_last: Manager<S, C>,
    other_name: &str,
    other_config: Config,
)
    requires
        exists|manager: &mut Manager<S, C>|
            *manager == before && *final(manager) == after && #[trigger] call_ensures(
                Manager::<S, C>::new_conn,
                (manager, name, config),
                starting,
            ),
        exists|manager: &mut Manager<S, C>|
            *manager == after && *final(manager) == at_last && #[trigger] call_ensures(
                Manager::<S, C>::new_conn,
                (manager, other_name, other_config),
                again,
            ),
    ensures
        starting.start_loops <==> !before@.loops_started,
        !again.start_loops,
        starting.publish matches Message::ConnectionStarting(n) && n@ == name@,
        starting.connector.name@ == name@,
        starting.connector.attempt == 0,
        after@.conns.contains_key(name@),
        !before@.conns.contains_key(name@) ==> after@.conns[name@].config == config
            && after@.conns[name@].connection_state is Inactive && after@.conns[name@].link is None,
        forall|other: Seq<char>|
            #![trigger after@.conns.contains_key(other)]
            #![trigger after@.conns[other]]
            {
                &&& other != name@ ==> (after@.conns.contains_key(other)
                    <==> before@.conns.contains_key(other))
                &&& before@.conns.contains_key(other) ==> after@.conns[other]
                    == before@.conns[other]
            },
        other_name@ == name@ ==> at_last@.conns == after@.conns,
{
}

/// A connection that an attempt opened is active and written to by way of what the attempt brought;
/// its actors are its own, at their beginning, and no other connection is touched.
pub proof fn law_opened_connection_is_written_to<'a, S, C>(
    before: Manager<S, C>,
    name: &str,
    attempt: Option<(Result<Request<()>, ConnectionError>, Option<Link<S, C>>)>,
    during: Manager<S, C>,
    sender: S,
    cancel_token: C,
    finished: Option<Result<Opened<S, C>, ConnectionError>>,
    after: Manager<S, C>,
    message: Message,
    delivery: Result<Delivery<'a, S, Message>, ManagerError>,
)
    requires
        before@.conns.contains_key(name@),
        exists|manager: &mut Manager<S, C>|
            *manager == before && *final(manager) == during && #[trigger] call_ensures(
                Manager::<S, C>::begin_attempt,
                (manager, name),
                attempt,
            ),
        exists|manager: &mut Manager<S, C>|
            *manager == during && *final(manager) == after && #[trigger] call_ensures(
                Manager::<S, C>::finish_attempt,
                (manager, name, Ok((sender, cancel_token))),
                finished,
            ),
        call_ensures(Manager::<S, C>::write, (&after, name, message), delivery),
    ensures
        attempt matches Some((_, replaced)) && replaced == before@.conns[name@].link,
        finished matches Some(Ok(opened)) && opened.replaced is None && opened.writer.name@
            == before@.conns[name@].name@ && opened.reader.name@ == before@.conns[name@].name@
            && opened.reader.bytes_recv == 0 && opened.ping.name@ == before@.conns[name@].name@
            && opened.ping.config == before@.conns[name@].config && opened.ping.last_pong_time
            is None,
        after@.conns[name@].connection_state is Active,
        delivery matches Ok(d) && *d.writer == sender && d.message == message,
        forall|other: Seq<char>|
            #![trigger after@.conns.contains_key(other)]
            #![trigger after@.conns[other]]
            {
                &&& after@.conns.contains_key(other) <==> before@.conns.contains_key(other)
                &&& other != name@ ==> after@.conns[other] == before@.conns[other]
            },
{
}

/// An attempt on a name that is not known comes to nothing, and a failed one gives its cause and
/// leaves the connection being opened.
pub proof fn law_failed_attempt_leaves_the_connection_opening<S, C>(
    before: Manager<S, C>,
    name: &str,
    attempt: Option<(Result<Request<()>, ConnectionError>, Option<Link<S, C>>)>,
    during: Manager<S, C>,
    error: String,
    finished: Option<Result<Opened<S, C>, ConnectionError>>,
    after: Manager<S, C>,
)
    requires
        exists|manager: &mut Manager<S, C>|
            *manager == before && *final(manager) == during && #[trigger] call_ensures(
                Manager::<S, C>::begin_attempt,
                (manager, name),
                attempt,
            ),
        exists|manager: &mut Manager<S, C>|
            *manager == during && *final(manager) == after && #[trigger] call_ensures(
                Manager::<S, C>::finish_attempt,
                (manager, name, Err(error)),
                finished,
            ),
    ensures
        attempt is Some <==> before@.conns.contains_key(name@),
        finished is Some <==> before@.conns.contains_key(name@),
        finished matches Some(f) ==> f is Err && (
        f->Err_0 matches ConnectionError::ConnectionInitFailed(text) && text@ == error@),
        before@.conns.contains_key(name@) ==> after@.conns[name@].connection_state is Connecting
            && after@.conns[name@].link is None && after@.conns[name@].config
            == before@.conns[name@].config,
        !before@.conns.contains_key(name@) ==> after@.conns == before@.conns,
{
}

/// After a shutdown there are the same connections, with the settings that they had, and none of
/// them is open; each link that was open is handed out once, under its name.
pub proof fn law_shutdown_leaves_nothing_open<S, C>(
    before: Manager<S, C>,
    ended: Vec<(String, Link<S, C>)>,
    after: Manager<S, C>,
    name: Seq<char>,
)
    requires
        exists|manager: &mut Manager<S, C>|
            *manager == before && *final(manager) == after && #[trigger] call_ensures(
                Manager::<S, C>::shutdown,
                (manager,),
                ended,
            ),
    ensures
        after@.conns.contains_key(name) <==> before@.conns.contains_key(name),
        before@.conns.contains_key(name) ==> after@.conns[name].link is None
            && after@.conns[name].connection_state is Inactive && after@.conns[name].config
            == before@.conns[name].config && after@.conns[name].name == before@.conns[name].name,
        before@.conns.contains_key(name) && before@.conns[name].link is Some ==> exists|i: int|
            0 <= i < ended.len() && (#[trigger] ended[i]).0@ == name && Some(ended[i].1)
                == before@.conns[name].link,
        forall|i: int|
            0 <= i < ended.len() && (#[trigger] ended[i]).0@ == name
                ==> before@.conns.contains_key(name) && before@.conns[name].link == Some(
                ended[i].1,
            ),
        forall|i: int, j: int|
            0 <= i < ended.len() && 0 <= j < ended.len() && (#[trigger] ended[i]).0@ == (
            #[trigger] ended[j]).0@ ==> i == j,
{
    if before@.conns.contains_key(name) && before@.conns[name].link is Some {
        let place = choose|i: int| 0 <= i < ended.len() && (#[trigger] ended[i]).0@ == name;
        assert(ended[place].0@ == name);
    }
}

/// After the first failed attempt there is a pause of a second, and with each further failure the
/// pause doubles, up to a minute. Each failure is published with its number.
pub proof fn law_pauses_double_while_attempts_fail(
    before: Connector,
    step: ConnectStep,
    between: Connector,
    next_step: ConnectStep,
    after: Connector,
)
    requires
        before.attempt >= 0,
        exists|connector: &mut Connector|
            *connector == before && *final(connector) == between && #[trigger] call_ensures(
                Connector::step,
                (connector, AttemptOutcome::Failed),
                step,
            ),
        exists|connector: &mut Connector|
            *connector == between && *final(connector) == after && #[trigger] call_ensures(
                Connector::step,
                (connector, AttemptOutcome::Failed),
                next_step,
            ),
    ensures
        before.attempt == 0 ==> step.retry_after == Some(1u64),
        step.retry_after matches Some(secs) && 1 <= secs <= 60 && next_step.retry_after == Some(
            if 2 * secs < 60 {
                (2 * secs) as u64
            } else {
                60
            },
        ),
        step.publish matches Some(Message::FailedHandshake(name, number)) && name@ == before.name@
            && number == before.attempt,
        next_step.publish matches Some(Message::FailedHandshake(name, number)) && name@
            == before.name@ && number == before.attempt + 1,
        after.name@ == before.name@,
        after.attempt == before.attempt + 2,
{
    law_back_off_doubles_up_to_a_minute(before.attempt as int);
}

/// Attempts end with a success, which is published, and with the removal of the connection, which
/// is not.
pub proof fn law_attempts_end(
    before: Connector,
    outcome: AttemptOutcome,
    step: ConnectStep,
    after: Connector,
)
    requires
        exists|connector: &mut Connector|
            *connector == before && *final(connector) == after && #[trigger] call_ensures(
                Connector::step,
                (connector, outcome),
                step,
            ),
    ensures
        step.retry_after is Some <==> outcome is Failed,
        step.publish is None <==> outcome is Removed,
        outcome is Opened ==> (step.publish matches Some(Message::SuccessfulHandshake(name))
            && name@ == before.name@),
        !(outcome is Failed) ==> after == before,
{
}

/// The pause after a number of failures is two to the power of that number, in seconds, at most a
/// minute; below zero it is no whole second.
pub proof fn law_pause_is_a_power_of_two(attempt: i32, secs: u64)
    requires
        call_ensures(back_off_secs, (attempt,), secs),
    ensures
        attempt < 0 ==> secs == 0,
        0 <= attempt ==> secs <= pow2(attempt as nat) && secs <= 60,
        0 <= attempt ==> secs == pow2(attempt as nat) || secs == 60,
{
}

/// A refusal says in fixed words why, and then which connection, quoted. A reconnection of an
/// unknown connection is refused in words of its own.
pub proof fn law_refusals_in_words(
    error: ManagerError,
    quoted: &str,
    with_quoted: String,
    text: String,
    of_reconnect: String,
)
    requires
        call_ensures(ManagerError::to_string_with, (&error, quoted), with_quoted),
        call_ensures(ManagerError::to_string, (&error,), text),
        call_ensures(
            ReconnectError::to_string,
            (&ReconnectError { source: error },),
            of_reconnect,
        ),
    ensures
        error matches ManagerError::ConnectionUnknown(name) ==> {
            &&& with_quoted@ == "Connection Unknown: "@ + quoted@
            &&& text@ == "Connection Unknown: "@ + debug_form(name@)
            &&& of_reconnect@ == "Connection '"@ + name@ + "' not found for reconnect"@
        },
        error matches ManagerError::ConnectionInactive(name) ==> {
            &&& with_quoted@ == "Connection Inactive: "@ + quoted@
            &&& text@ == "Connection Inactive: "@ + debug_form(name@)
            &&& of_reconnect@ == text@
        },
        error matches ManagerError::ConnectionRestarting(name) ==> {
            &&& with_quoted@ == "Connection Restarting: "@ + quoted@
            &&& text@ == "Connection Restarting: "@ + debug_form(name@)
            &&& of_reconnect@ == text@
        },
{
}

/// A manager begins without connections and with its loops at rest; they are to be started by the
/// first who asks, and by nobody after that.
pub proof fn law_loops_are_started_once<S, C>(
    manager: Manager<S, C>,
    start: bool,
    started: Manager<S, C>,
    start_again: bool,
    after: Manager<S, C>,
    name: Seq<char>,
)
    requires
        call_ensures(Manager::<S, C>::new, (), manager),
        exists|m: &mut Manager<S, C>|
            *m == manager && *final(m) == started && #[trigger] call_ensures(
                Manager::<S, C>::ensure_loops_started,
                (m,),
                start,
            ),
        exists|m: &mut Manager<S, C>|
            *m == started && *final(m) == after && #[trigger] call_ensures(
                Manager::<S, C>::ensure_loops_started,
                (m,),
                start_again,
            ),
    ensures
        start,
        !start_again,
        !after@.conns.contains_key(name),
{
}

} // verus!
