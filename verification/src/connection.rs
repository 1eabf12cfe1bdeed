//! One connection: its states, and the actors that read from it, write to it and keep it alive.

use crate::clock::{read_unix_seconds, unix_reading};
use crate::config::Config;
use crate::message::{Message, MessageModel};
use crate::request::{asked, client_request, is_request_for, request_refusal};
use crate::text::{
    debug_form, debug_quoted, from_utf8_lossy, joined, lossy_text, utf8_replaced,
};
use crate::wire::{CloseFrame, WireMessage, WireModel, NORMAL_CLOSURE};
use tokio_tungstenite::tungstenite::http::Request;
use vstd::prelude::*;
use vstd::string::*;
use vstd::utf8::*;

verus! {

/// Why a connection came to nothing, or to its end.
#[derive(Debug)]
pub enum ConnectionError {
    /// The connection could not be opened, and why.
    ConnectionInitFailed(String),
    /// No ping could be sent, or pongs stopped coming.
    PingFailed,
    /// The peer closed the connection.
    CloseFrameReceived,
    /// A ping was not answered in time.
    PongReceiveTimeout,
}

impl ConnectionError {
    /// The error in words, given the form in which a cause is written.
    pub open spec fn text_with(self, quoted: Seq<char>) -> Seq<char> {
        match self {
            ConnectionError::ConnectionInitFailed(_) => "Connection initialization failed: "@
                + quoted,
            ConnectionError::PingFailed => "Ping Failed"@,
            ConnectionError::CloseFrameReceived => "Close Frame Received"@,
            ConnectionError::PongReceiveTimeout => "Timed out waiting for Pong"@,
        }
    }

    /// The error in words.
    pub open spec fn text(self) -> Seq<char> {
        match self {
            ConnectionError::ConnectionInitFailed(msg) => self.text_with(debug_form(msg@)),
            _ => self.text_with(Seq::empty()),
        }
    }

    /// The error in words, given the form in which a cause is written.
    pub fn to_string_with(&self, quoted: &str) -> (text: String)
        ensures
            text@ == self.text_with(quoted@),
    {
        match self {
            ConnectionError::ConnectionInitFailed(_) => joined(
                "Connection initialization failed: ",
                quoted,
            ),
            ConnectionError::PingFailed => "Ping Failed".to_owned(),
            ConnectionError::CloseFrameReceived => "Close Frame Received".to_owned(),
            ConnectionError::PongReceiveTimeout => "Timed out waiting for Pong".to_owned(),
        }
    }

    /// The error in words.
    pub fn to_string(&self) -> (text: String)
        ensures
            text@ == self.text(),
    {
        match self {
            ConnectionError::ConnectionInitFailed(msg) => {
                let quoted: String = debug_quoted(msg.as_str());
                self.to_string_with(quoted.as_str())
            },
            _ => self.to_string_with(""),
        }
    }
}

/// A message of a connection that has not been taken apart, or what went wrong on it. The first
/// field is always the connection's name.
#[derive(Clone, Debug)]
pub enum ConnectionMessage {
    Message(String, WireMessage),
    ReadError(String),
    WriteError(String),
    PongReceiveTimeoutError(String),
}

/// The message that a connection publishes for what it reads from the wire.
pub open spec fn received(name: Seq<char>, frame: WireModel) -> MessageModel {
    match frame {
        WireModel::Ping(data) => MessageModel::PingMessage(name, lossy_text(data)),
        WireModel::Pong(data) => MessageModel::PongMessage(name, lossy_text(data)),
        WireModel::Text(text) => MessageModel::TextMessage(name, text),
        WireModel::Binary(data) => MessageModel::BinaryMessage(name, data),
        WireModel::Close(None) => MessageModel::CloseMessage(name, None),
        WireModel::Close(Some((_, reason))) => MessageModel::CloseMessage(name, Some(reason)),
        WireModel::Frame(_) => MessageModel::FrameMessage(name, "Raw frame received"@),
    }
}

/// What a connection writes to the wire for a message. Only pings, pongs, texts, byte strings and
/// closes are written.
pub open spec fn written(message: MessageModel) -> Option<WireModel> {
    match message {
        MessageModel::PingMessage(_, text) => Some(WireModel::Ping(encode_utf8(text))),
        MessageModel::PongMessage(_, text) => Some(WireModel::Pong(encode_utf8(text))),
        MessageModel::TextMessage(_, text) => Some(WireModel::Text(text)),
        MessageModel::BinaryMessage(_, data) => Some(WireModel::Binary(data)),
        MessageModel::CloseMessage(_, None) => Some(WireModel::Close(None)),
        MessageModel::CloseMessage(_, Some(reason)) => Some(
            WireModel::Close(Some((NORMAL_CLOSURE, reason))),
        ),
        _ => None,
    }
}

/// What is written on one end of a connection is read on the other: for every message that is
/// written at all, an actor of the same name publishes that very message.
pub proof fn law_written_is_read_back(message: MessageModel)
    requires
        written(message) is Some,
    ensures
        received(message.name(), written(message)->0) == message,
{
    match message {
        MessageModel::PingMessage(_, text) | MessageModel::PongMessage(_, text) => {
            encode_utf8_valid_utf8(text);
            encode_utf8_decode_utf8(text);
        },
        _ => {},
    }
}

/// Whether writing the message that is published for a frame gives the frame back: raw frames are
/// never written, pings and pongs travel as texts, and closes are written with the normal code.
pub open spec fn survives(frame: WireModel) -> bool {
    match frame {
        WireModel::Text(_) => true,
        WireModel::Binary(_) => true,
        WireModel::Ping(data) => valid_utf8(data),
        WireModel::Pong(data) => valid_utf8(data),
        WireModel::Close(None) => true,
        WireModel::Close(Some((code, _))) => code == NORMAL_CLOSURE,
        WireModel::Frame(_) => false,
    }
}

/// What is read from a connection can be passed on: writing the message that is published for a
/// frame gives the frame back.
pub proof fn law_read_is_written_back(name: Seq<char>, frame: WireModel)
    requires
        survives(frame),
    ensures
        written(received(name, frame)) == Some(frame),
{
    match frame {
        WireModel::Ping(data) | WireModel::Pong(data) => {
            decode_utf8_encode_utf8(data);
        },
        _ => {},
    }
}

/// Whatever a connection publishes of what it reads carries the connection's name.
pub proof fn law_received_carries_name(name: Seq<char>, frame: WireModel)
    ensures
        received(name, frame).name() == name,
{
}

/// What reaches the actor that reads from a connection.
#[derive(Debug)]
pub enum ReadEvent {
    /// A message was read.
    Received(WireMessage),
    /// Reading failed, and how.
    Failed(String),
    /// The stream has ended.
    Ended,
    /// The connection is being shut down.
    Cancelled,
}

/// What the actor that reads from a connection does about an event: it may publish a message,
/// and it may stop.
#[derive(Debug)]
pub struct ReadStep {
    pub publish: Option<Message>,
    pub stop: bool,
}

/// The actor that reads from a connection, and publishes what it reads.
#[derive(Debug)]
pub struct ReadActor {
    pub name: String,
    /// How many payload bytes have been read.
    pub bytes_recv: u64,
}

impl ReadActor {
    /// An actor that has read nothing.
    pub fn new(name: String) -> (actor: Self)
        ensures
            actor.name == name,
            actor.bytes_recv == 0,
    {
        ReadActor { name, bytes_recv: 0 }
    }

    /// The message that is published for what was read.
    pub fn message(&self, frame: WireMessage) -> (message: Message)
        ensures
            message@ == received(self.name@, frame@),
    {
        let name: String = self.name.clone();
        match frame {
            WireMessage::Ping(data) => Message::PingMessage(name, from_utf8_lossy(data.as_slice())),
            WireMessage::Pong(data) => Message::PongMessage(name, from_utf8_lossy(data.as_slice())),
            WireMessage::Text(text) => Message::TextMessage(name, text),
            WireMessage::Binary(data) => Message::BinaryMessage(name, data),
            WireMessage::Close(None) => Message::CloseMessage(name, None),
            WireMessage::Close(Some(close)) => Message::CloseMessage(name, Some(close.reason)),
            WireMessage::Frame(_) => Message::FrameMessage(name, "Raw frame received".to_owned()),
        }
    }

    /// Takes one event. A message that was read is counted and published; a failure, or the end of
    /// the stream, is published as an error and ends the actor; a cancellation ends it silently.
    pub fn step(&mut self, event: ReadEvent) -> (step: ReadStep)
        requires
            event matches ReadEvent::Received(frame) ==> old(self).bytes_recv + frame@.len()
                <= u64::MAX,
        ensures
            final(self).name == old(self).name,
            match event {
                ReadEvent::Received(frame) => {
                    &&& final(self).bytes_recv == old(self).bytes_recv + frame@.len()
                    &&& step.publish matches Some(message)
                    &&& message@ == received(old(self).name@, frame@)
                    &&& !step.stop
                },
                ReadEvent::Failed(error) => {
                    &&& final(self).bytes_recv == old(self).bytes_recv
                    &&& step.publish matches Some(message)
                    &&& message@ == MessageModel::ReadError(old(self).name@, error@)
                    &&& step.stop
                },
                ReadEvent::Ended => {
                    &&& final(self).bytes_recv == old(self).bytes_recv
                    &&& step.publish matches Some(message)
                    &&& message@ == MessageModel::ReadError(old(self).name@, "None"@)
                    &&& step.stop
                },
                ReadEvent::Cancelled => {
                    &&& final(self).bytes_recv == old(self).bytes_recv
                    &&& step.publish is None
                    &&& step.stop
                },
            },
    {
        match event {
            ReadEvent::Received(frame) => {
                self.bytes_recv = self.bytes_recv + frame.len() as u64;
                ReadStep { publish: Some(self.message(frame)), stop: false }
            },
            ReadEvent::Failed(error) => {
                ReadStep {
                    publish: Some(Message::ReadError(self.name.clone(), error)),
                    stop: true,
                }
            },
            ReadEvent::Ended => {
                ReadStep {
                    publish: Some(Message::ReadError(self.name.clone(), "None".to_owned())),
                    stop: true,
                }
            },
            ReadEvent::Cancelled => ReadStep { publish: None, stop: true },
        }
    }
}

/// What reaches the actor that writes to a connection.
#[derive(Debug)]
pub enum WriteEvent {
    /// There is a message to write.
    Received(Message),
    /// Messages to write can no longer be had, or some were missed.
    ReceiveFailed,
    /// The connection is being shut down.
    Cancelled,
}

/// What the actor that writes to a connection does about an event.
#[derive(Debug)]
pub enum WriteStep {
    /// Write this.
    Write(WireMessage),
    /// Nothing.
    Skip,
    /// Stop.
    Stop,
}

/// The actor that writes to a connection.
#[derive(Debug)]
pub struct WriteActor {
    pub name: String,
}

impl WriteActor {
    /// An actor that writes to the named connection.
    pub fn new(name: String) -> (actor: Self)
        ensures
            actor.name == name,
    {
        WriteActor { name }
    }

    /// What is written for a message; nothing is written for errors, raw frames and news of the
    /// connection.
    pub fn handle_message(&self, msg: Message) -> (frame: Option<WireMessage>)
        ensures
            match frame {
                Some(f) => written(msg@) == Some(f@),
                None => written(msg@) is None,
            },
    {
        match msg {
            Message::PingMessage(_name, data) => Some(
                WireMessage::Ping(data.as_str().as_bytes_vec()),
            ),
            Message::PongMessage(_name, data) => Some(
                WireMessage::Pong(data.as_str().as_bytes_vec()),
            ),
            Message::TextMessage(_name, text) => Some(WireMessage::Text(text)),
            Message::BinaryMessage(_name, data) => Some(WireMessage::Binary(data)),
            Message::CloseMessage(_name, None) => Some(WireMessage::Close(None)),
            Message::CloseMessage(_name, Some(reason)) => Some(
                WireMessage::Close(Some(CloseFrame { code: NORMAL_CLOSURE, reason })),
            ),
            _ => None,
        }
    }

    /// Takes one event. A message is written, if it is one that is written at all; when messages
    /// stop coming, or the connection is shut down, the actor stops.
    pub fn step(&self, event: WriteEvent) -> (step: WriteStep)
        ensures
            match event {
                WriteEvent::Received(message) => match step {
                    WriteStep::Write(frame) => written(message@) == Some(frame@),
                    WriteStep::Skip => written(message@) is None,
                    WriteStep::Stop => false,
                },
                WriteEvent::ReceiveFailed => step is Stop,
                WriteEvent::Cancelled => step is Stop,
            },
    {
        match event {
            WriteEvent::Received(message) => match self.handle_message(message) {
                Some(frame) => WriteStep::Write(frame),
                None => WriteStep::Skip,
            },
            WriteEvent::ReceiveFailed => WriteStep::Stop,
            WriteEvent::Cancelled => WriteStep::Stop,
        }
    }

    /// The message that is published when writing failed.
    pub fn write_failed(&self, error: String) -> (message: Message)
        ensures
            message@ == MessageModel::WriteError(self.name@, error@),
    {
        Message::WriteError(self.name.clone(), error)
    }
}

/// What reaches the actor that keeps a connection alive.
#[derive(Debug)]
pub enum PingEvent {
    /// It is time to send a ping.
    PingDue,
    /// It is time to look whether a pong is overdue.
    TimeoutDue,
    /// A message was published.
    Received(Message),
    /// Published messages can no longer be had, or some were missed.
    ReceiveFailed,
    /// The connection is being shut down.
    Cancelled,
}

/// What the actor that keeps a connection alive does about an event.
#[derive(Debug)]
pub enum PingStep {
    /// Hand this to the actor that writes.
    Send(Message),
    /// Nothing.
    Idle,
    /// Stop.
    Stop,
}

/// The actor that keeps a connection alive: it has pings sent, and watches for the pongs.
#[derive(Debug)]
pub struct PingActor {
    pub name: String,
    pub config: Config,
    /// When the last pong came, in seconds since 1970.
    pub last_pong_time: Option<i64>,
}

/// A 64-bit number read as a signed one, in two's complement.
pub open spec fn as_signed(n: u64) -> int {
    if n <= i64::MAX {
        n as int
    } else {
        n - 0x1_0000_0000_0000_0000
    }
}

/// A 64-bit number read as a signed one, in two's complement.
fn signed(n: u64) -> (r: i64)
    ensures
        r == as_signed(n),
{
    if n <= 0x7fff_ffff_ffff_ffff {
        n as i64
    } else {
        -1 - ((0xffff_ffff_ffff_ffff - n) as i64)
    }
}

impl PingActor {
    /// Seconds since 1970 are never negative.
    pub open spec fn wf(self) -> bool {
        self.last_pong_time matches Some(t) ==> t >= 0
    }

    /// Whether a message is a pong of this actor's own connection.
    pub open spec fn own_pong(self, message: MessageModel) -> bool {
        message matches MessageModel::PongMessage(name, _) && name == self.name@
    }

    /// The actor after a message was published at the given time: a pong of its own connection is
    /// remembered.
    pub open spec fn after_message(self, message: MessageModel, now: i64) -> Self {
        if self.own_pong(message) {
            PingActor { last_pong_time: Some(now), ..self }
        } else {
            self
        }
    }

    /// Whether, at a time, the last pong is longer ago than the time-out allows. Before the first
    /// pong nothing is overdue.
    pub open spec fn overdue(self, now: int) -> bool {
        self.last_pong_time matches Some(t) && now - t > as_signed(self.config.ping_timeout)
    }

    /// An actor that has seen no pong.
    pub fn new(name: String, config: Config) -> (actor: Self)
        ensures
            actor.name == name,
            actor.config == config,
            actor.last_pong_time is None,
            actor.wf(),
    {
        PingActor { name, config, last_pong_time: None }
    }

    /// The ping that is sent: the configured text.
    pub fn ping(&self) -> (message: Message)
        ensures
            message@ == MessageModel::PingMessage(self.name@, self.config.ping_message@),
    {
        proof {
            encode_utf8_valid_utf8(self.config.ping_message@);
            encode_utf8_decode_utf8(self.config.ping_message@);
        }
        let text: String = from_utf8_lossy(self.config.ping_message.as_str().as_bytes());
        Message::PingMessage(self.name.clone(), text)
    }

    /// Takes one event at a time given in seconds since 1970.
    pub fn step_at(&mut self, event: PingEvent, now: i64) -> (step: PingStep)
        requires
            old(self).wf(),
            now >= 0,
        ensures
            final(self).wf(),
            *final(self) == (match event {
                PingEvent::Received(message) => old(self).after_message(message@, now),
                _ => *old(self),
            }),
            match event {
                PingEvent::PingDue => step matches PingStep::Send(message) && message@
                    == MessageModel::PingMessage(
                    old(self).name@,
                    old(self).config.ping_message@,
                ),
                PingEvent::TimeoutDue => if old(self).overdue(now as int) {
                    step matches PingStep::Send(message) && message@
                        == MessageModel::PongReceiveTimeoutError(old(self).name@)
                } else {
                    step is Idle
                },
                PingEvent::Received(_) => step is Idle,
                PingEvent::ReceiveFailed => step is Idle,
                PingEvent::Cancelled => step is Stop,
            },
    {
        match event {
            PingEvent::PingDue => PingStep::Send(self.ping()),
            PingEvent::TimeoutDue => {
                if let Some(last_pong) = self.last_pong_time {
                    if now - last_pong > signed(self.config.ping_timeout) {
                        return PingStep::Send(Message::PongReceiveTimeoutError(self.name.clone()));
                    }
                }
                PingStep::Idle
            },
            PingEvent::Received(message) => {
                if let Message::PongMessage(conn_name, _val) = message {
                    if conn_name == self.name {
                        self.last_pong_time = Some(now);
                    }
                }
                PingStep::Idle
            },
            PingEvent::ReceiveFailed => PingStep::Idle,
            PingEvent::Cancelled => PingStep::Stop,
        }
    }

    /// Whether what is done about an event depends on the time.
    fn needs_clock(&self, event: &PingEvent) -> (needs: bool)
        ensures
            needs == (*event is TimeoutDue || (*event matches PingEvent::Received(message)
                && self.own_pong(message@))),
    {
        match event {
            PingEvent::TimeoutDue => true,
            PingEvent::Received(Message::PongMessage(conn_name, _val)) => *conn_name == self.name,
            _ => false,
        }
    }

    /// Takes one event, now. What an overdue pong is measured by, and the time at which a pong
    /// came, are read from the clock.
    pub fn step(&mut self, event: PingEvent) -> (step: PingStep)
        requires
            old(self).wf(),
        ensures
            final(self).wf(),
            final(self).name == old(self).name,
            final(self).config == old(self).config,
            match event {
                PingEvent::PingDue => {
                    &&& final(self).last_pong_time == old(self).last_pong_time
                    &&& step matches PingStep::Send(message)
                    &&& message@ == MessageModel::PingMessage(
                        old(self).name@,
                        old(self).config.ping_message@,
                    )
                },
                PingEvent::TimeoutDue => {
                    &&& final(self).last_pong_time == old(self).last_pong_time
                    &&& old(self).last_pong_time is None ==> step is Idle
                    &&& exists|now: i64| #[trigger]
                        unix_reading(now) && if old(self).overdue(now as int) {
                            step matches PingStep::Send(message) && message@
                                == MessageModel::PongReceiveTimeoutError(old(self).name@)
                        } else {
                            step is Idle
                        }
                },
                PingEvent::Received(message) => {
                    &&& if old(self).own_pong(message@) {
                        final(self).last_pong_time matches Some(now) && unix_reading(now)
                    } else {
                        final(self).last_pong_time == old(self).last_pong_time
                    }
                    &&& step is Idle
                },
                PingEvent::ReceiveFailed => {
                    &&& final(self).last_pong_time == old(self).last_pong_time
                    &&& step is Idle
                },
                PingEvent::Cancelled => {
                    &&& final(self).last_pong_time == old(self).last_pong_time
                    &&& step is Stop
                },
            },
    {
        let now: i64 = if self.needs_clock(&event) {
            read_unix_seconds()
        } else {
            0
        };
        self.step_at(event, now)
    }
}

/// Stands for the running actor that reads.
#[derive(Clone, Debug)]
pub struct ReadActorHandle;

impl ReadActorHandle {
    /// A handle, and the actor that is to be run for it.
    pub fn new(name: String) -> (made: (Self, ReadActor))
        ensures
            made.1.name == name,
            made.1.bytes_recv == 0,
    {
        (ReadActorHandle, ReadActor::new(name))
    }
}

/// Stands for the running actor that keeps the connection alive.
#[derive(Clone, Debug)]
pub struct PingActorHandle;

impl PingActorHandle {
    /// A handle, and the actor that is to be run for it.
    pub fn new(name: String, config: Config) -> (made: (Self, PingActor))
        ensures
            made.1.name == name,
            made.1.config == config,
            made.1.last_pong_time is None,
            made.1.wf(),
    {
        (PingActorHandle, PingActor::new(name, config))
    }
}

/// How many messages may wait to be written before the oldest are lost.
pub const WRITE_CHANNEL_CAPACITY: usize = 512;

/// Stands for the running actor that writes: `sender` leads to it.
#[derive(Clone, Debug)]
pub struct WriteActorHandle<S> {
    pub sender: S,
}

impl<S> WriteActorHandle<S> {
    /// A handle, and the actor that is to be run for it.
    pub fn new(name: String, sender: S) -> (made: (Self, WriteActor))
        ensures
            made.0.sender == sender,
            made.1.name == name,
    {
        (WriteActorHandle { sender }, WriteActor::new(name))
    }
}

/// Where a connection stands.
#[derive(Clone, Copy, Debug, PartialEq, Eq, Structural)]
pub enum ConnectionState {
    /// It is not open, and nobody is opening it.
    Inactive,
    /// It is being opened.
    Connecting,
    /// It is open.
    Active,
}

/// What an open connection consists of: the handles of its actors, and the token that ends them.
#[derive(Debug)]
pub struct Link<S, C> {
    pub writer: WriteActorHandle<S>,
    pub reader: ReadActorHandle,
    pub ping: PingActorHandle,
    pub cancel_token: C,
}

/// The actors that are to be run for a connection that has just been opened, and what was open
/// in its place until now.
#[derive(Debug)]
pub struct Opened<S, C> {
    pub writer: WriteActor,
    pub reader: ReadActor,
    pub ping: PingActor,
    pub replaced: Option<Link<S, C>>,
}

impl<S, C> Opened<S, C> {
    /// The actors are those of the given connection, at their beginning.
    pub open spec fn starts(self, conn: Connection<S, C>) -> bool {
        &&& self.writer.name == conn.name
        &&& self.reader.name == conn.name
        &&& self.reader.bytes_recv == 0
        &&& self.ping.name == conn.name
        &&& self.ping.config == conn.config
        &&& self.ping.last_pong_time is None
    }
}

/// A connection. `S` leads to the actor that writes to it, and `C` ends its actors.
#[derive(Debug)]
pub struct Connection<S, C> {
    pub name: String,
    pub config: Config,
    pub connection_state: ConnectionState,
    pub link: Option<Link<S, C>>,
}

impl<S, C> Connection<S, C> {
    /// A connection is active exactly while it has a link.
    pub open spec fn wf(self) -> bool {
        self.connection_state == ConnectionState::Active <==> self.link is Some
    }

    /// A connection that nobody has tried to open.
    pub fn new(name: &str, config: Config) -> (conn: Self)
        ensures
            conn.wf(),
            conn.name@ == name@,
            conn.config == config,
            conn.connection_state == ConnectionState::Inactive,
            conn.link is None,
    {
        Connection {
            name: name.to_owned(),
            config,
            connection_state: ConnectionState::Inactive,
            link: None,
        }
    }

    /// Begins an attempt to open the connection, and gives the opening request. The connection is
    /// being opened from then on, also where its URL is refused. What was open until now is handed
    /// out with the request, to be ended.
    pub fn try_connection(&mut self) -> (attempt: (
        Result<Request<()>, ConnectionError>,
        Option<Link<S, C>>,
    ))
        ensures
            final(self).wf(),
            final(self).name == old(self).name,
            final(self).config == old(self).config,
            final(self).connection_state == ConnectionState::Connecting,
            final(self).link is None,
            attempt.1 == old(self).link,
            is_request_for(old(self).config.url@, attempt.0),
    {
        let replaced: Option<Link<S, C>> = self.link.take();
        self.connection_state = ConnectionState::Connecting;
        (client_request(&self.config.url), replaced)
    }

    /// The connection is open: `sender` leads to the actor that will write to it, and
    /// `cancel_token` ends its actors. Gives the actors to run.
    fn opened(&mut self, sender: S, cancel_token: C) -> (opened: Opened<S, C>)
        ensures
            final(self).wf(),
            final(self).name == old(self).name,
            final(self).config == old(self).config,
            final(self).connection_state == ConnectionState::Active,
            final(self).link matches Some(link) && link.writer.sender == sender
                && link.cancel_token == cancel_token,
            opened.starts(*old(self)),
            opened.replaced == old(self).link,
    {
        let (writer, write_actor) = WriteActorHandle::new(self.name.clone(), sender);
        let (reader, read_actor) = ReadActorHandle::new(self.name.clone());
        let (ping, ping_actor) = PingActorHandle::new(self.name.clone(), self.config.clone());
        let replaced: Option<Link<S, C>> = self.link.take();
        self.link = Some(Link { writer, reader, ping, cancel_token });
        self.connection_state = ConnectionState::Active;
        Opened { writer: write_actor, reader: read_actor, ping: ping_actor, replaced }
    }

    /// Ends an attempt to open the connection, by how opening it went: with what leads to the
    /// actor that will write and the token that ends the actors, or with the error in words. A
    /// failed attempt leaves the connection as it is.
    pub fn finish_connection(&mut self, outcome: Result<(S, C), String>) -> (finished: Result<
        Opened<S, C>,
        ConnectionError,
    >)
        requires
            old(self).wf(),
        ensures
            final(self).wf(),
            final(self).name == old(self).name,
            final(self).config == old(self).config,
            match outcome {
                Ok((sender, cancel_token)) => {
                    &&& final(self).connection_state == ConnectionState::Active
                    &&& final(self).link matches Some(link) && link.writer.sender == sender
                        && link.cancel_token == cancel_token
                    &&& finished matches Ok(opened) && opened.starts(*old(self))
                        && opened.replaced == old(self).link
                },
                Err(error) => {
                    &&& *final(self) == *old(self)
                    &&& finished == Err::<Opened<S, C>, ConnectionError>(
                        ConnectionError::ConnectionInitFailed(error),
                    )
                },
            },
    {
        match outcome {
            Ok((sender, cancel_token)) => Ok(self.opened(sender, cancel_token)),
            Err(error) => Err(ConnectionError::ConnectionInitFailed(error)),
        }
    }

    /// What leads to the actor that writes, while the connection is active.
    pub fn write(&self) -> (sender: Option<&S>)
        ensures
            match self.link {
                Some(link) => sender == Some(&link.writer.sender),
                None => sender is None,
            },
    {
        match &self.link {
            Some(link) => Some(&link.writer.sender),
            None => None,
        }
    }

    /// Gives the connection up. What was open is handed out, to be ended.
    pub fn shutdown(&mut self) -> (link: Option<Link<S, C>>)
        ensures
            final(self).wf(),
            final(self).name == old(self).name,
            final(self).config == old(self).config,
            final(self).connection_state == ConnectionState::Inactive,
            final(self).link is None,
            link == old(self).link,
    {
        self.connection_state = ConnectionState::Inactive;
        self.link.take()
    }
}

/// A pong that a connection reads counts for the actor that keeps that connection alive, and for
/// no other.
pub proof fn law_only_own_pongs_count(actor: PingActor, name: Seq<char>, data: Seq<u8>)
    ensures
        actor.own_pong(received(name, WireModel::Pong(data))) <==> name == actor.name@,
{
}

/// Once a pong came, the next is overdue exactly when more seconds have passed since than the
/// time-out allows; other messages in between change nothing. Before any pong nothing is overdue.
pub proof fn law_overdue_counts_from_last_pong(
    actor: PingActor,
    pong: MessageModel,
    came: i64,
    other: MessageModel,
    seen: i64,
    now: int,
)
    requires
        actor.own_pong(pong),
        !actor.own_pong(other),
    ensures
        actor.after_message(pong, came).after_message(other, seen).overdue(now) <==> now - came
            > as_signed(actor.config.ping_timeout),
        actor.last_pong_time is None ==> !actor.after_message(other, seen).overdue(now),
{
}

/// A ping of the actor that keeps a connection alive leaves as the bytes of the configured text.
pub proof fn law_ping_carries_configured_text(actor: PingActor)
    ensures
        written(MessageModel::PingMessage(actor.name@, actor.config.ping_message@)) == Some(
            WireModel::Ping(encode_utf8(actor.config.ping_message@)),
        ),
{
}

/// An error says what went wrong in fixed words; only a failure to connect adds its cause, quoted.
pub proof fn law_errors_in_words(
    error: ConnectionError,
    quoted: &str,
    with_quoted: String,
    text: String,
)
    requires
        call_ensures(ConnectionError::to_string_with, (&error, quoted), with_quoted),
        call_ensures(ConnectionError::to_string, (&error,), text),
    ensures
        error matches ConnectionError::ConnectionInitFailed(cause) ==> {
            &&& with_quoted@ == "Connection initialization failed: "@ + quoted@
            &&& text@ == "Connection initialization failed: "@ + debug_form(cause@)
        },
        error is PingFailed ==> with_quoted@ == "Ping Failed"@ && text@ == "Ping Failed"@,
        error is CloseFrameReceived ==> with_quoted@ == "Close Frame Received"@ && text@
            == "Close Frame Received"@,
        error is PongReceiveTimeout ==> with_quoted@ == "Timed out waiting for Pong"@ && text@
            == "Timed out waiting for Pong"@,
{
}

/// What is read is published under the actor's name, as a message of the same kind. A text, a byte
/// string and the reason of a close are published exactly as they came; the payload of a ping or a
/// pong is the text whose bytes came, where they are the bytes of a text.
pub proof fn law_read_is_published_as_it_came(
    actor: ReadActor,
    frame: WireMessage,
    message: Message,
)
    requires
        call_ensures(ReadActor::message, (&actor, frame), message),
    ensures
        frame matches WireMessage::Text(came) ==> {
            &&& message matches Message::TextMessage(name, text)
            &&& name@ == actor.name@
            &&& text@ == came@
        },
        frame matches WireMessage::Binary(came) ==> {
            &&& message matches Message::BinaryMessage(name, data)
            &&& name@ == actor.name@
            &&& data@ == came@
        },
        frame matches WireMessage::Ping(came) ==> {
            &&& message matches Message::PingMessage(name, text)
            &&& name@ == actor.name@
            &&& valid_utf8(came@) ==> encode_utf8(text@) == came@
            &&& !valid_utf8(came@) ==> text@ == utf8_replaced(came@)
        },
        frame matches WireMessage::Pong(came) ==> {
            &&& message matches Message::PongMessage(name, text)
            &&& name@ == actor.name@
            &&& valid_utf8(came@) ==> encode_utf8(text@) == came@
            &&& !valid_utf8(came@) ==> text@ == utf8_replaced(came@)
        },
        frame matches WireMessage::Close(None) ==> {
            &&& message matches Message::CloseMessage(name, None)
            &&& name@ == actor.name@
        },
        frame matches WireMessage::Close(Some(close)) ==> {
            &&& message matches Message::CloseMessage(name, Some(reason))
            &&& name@ == actor.name@
            &&& reason@ == close.reason@
        },
        frame is Frame ==> {
            &&& message matches Message::FrameMessage(name, text)
            &&& name@ == actor.name@
            &&& text@ == "Raw frame received"@
        },
{
    match frame {
        WireMessage::Ping(came) | WireMessage::Pong(came) => {
            if valid_utf8(came@) {
                decode_utf8_encode_utf8(came@);
            }
        },
        _ => {},
    }
}

/// A message is written as a frame of the same kind, whatever name it carries: a text, a byte
/// string and the reason of a close exactly as they are, the payload of a ping or a pong as the
/// bytes of its text. For any other message nothing is written.
pub proof fn law_message_is_written_as_it_is(
    actor: WriteActor,
    message: Message,
    frame: Option<WireMessage>,
)
    requires
        call_ensures(WriteActor::handle_message, (&actor, message), frame),
    ensures
        message matches Message::TextMessage(_, text) ==> {
            &&& frame matches Some(WireMessage::Text(sent))
            &&& sent@ == text@
        },
        message matches Message::BinaryMessage(_, data) ==> {
            &&& frame matches Some(WireMessage::Binary(sent))
            &&& sent@ == data@
        },
        message matches Message::PingMessage(_, text) ==> {
            &&& frame matches Some(WireMessage::Ping(sent))
            &&& sent@ == encode_utf8(text@)
        },
        message matches Message::PongMessage(_, text) ==> {
            &&& frame matches Some(WireMessage::Pong(sent))
            &&& sent@ == encode_utf8(text@)
        },
        message matches Message::CloseMessage(_, None) ==> frame matches Some(
            WireMessage::Close(None),
        ),
        message matches Message::CloseMessage(_, Some(reason)) ==> {
            &&& frame matches Some(WireMessage::Close(Some(close)))
            &&& close.code == 1000
            &&& close.reason@ == reason@
        },
        frame is Some <==> (message is TextMessage || message is BinaryMessage
            || message is PingMessage || message is PongMessage || message is CloseMessage),
{
}

/// The actor that reads goes on while messages come: each is published as
/// [`ReadActor::message`] makes it, and counted by its length. It stops at a failure and at the end
/// of the stream, which it publishes, and when it is cancelled, which it does not.
pub proof fn law_reader_goes_on_while_messages_come(
    before: ReadActor,
    event: ReadEvent,
    after: ReadActor,
    step: ReadStep,
    made: Message,
    counted: u128,
)
    requires
        exists|actor: &mut ReadActor|
            *actor == before && *final(actor) == after && #[trigger] call_ensures(
                ReadActor::step,
                (actor, event),
                step,
            ),
        event matches ReadEvent::Received(frame) ==> call_ensures(
            ReadActor::message,
            (&before, frame),
            made,
        ) && call_ensures(WireMessage::len, (&frame,), counted),
    ensures
        after.name@ == before.name@,
        step.stop <==> !(event is Received),
        step.publish is None <==> event is Cancelled,
        event is Received ==> (step.publish matches Some(published) && published@ == made@),
        !(event is Received) ==> after.bytes_recv == before.bytes_recv,
        event matches ReadEvent::Failed(error) ==> {
            &&& step.publish matches Some(Message::ReadError(name, text))
            &&& name@ == before.name@
            &&& text@ == error@
        },
        event is Ended ==> {
            &&& step.publish matches Some(Message::ReadError(name, text))
            &&& name@ == before.name@
            &&& text@ == "None"@
        },
        event is Received ==> after.bytes_recv - before.bytes_recv == counted,
{
}

/// The actor that writes writes what [`WriteActor::handle_message`] makes of a message, skips a
/// message of which that makes nothing, and stops at nothing but a failure to receive or a
/// cancellation.
pub proof fn law_writer_writes_what_it_is_handed(
    actor: WriteActor,
    event: WriteEvent,
    step: WriteStep,
    made: Option<WireMessage>,
)
    requires
        call_ensures(WriteActor::step, (&actor, event), step),
        event matches WriteEvent::Received(message) ==> call_ensures(
            WriteActor::handle_message,
            (&actor, message),
            made,
        ),
    ensures
        step is Stop <==> (event is ReceiveFailed || event is Cancelled),
        event is Received ==> (step is Write <==> made is Some),
        event is Received ==> (step matches WriteStep::Write(frame) ==> (
        made matches Some(same) && same@ == frame@)),
{
}

/// A failure to write is published under the name of the connection, with the error.
pub proof fn law_failed_write_is_published(actor: WriteActor, error: String, news: Message)
    requires
        call_ensures(WriteActor::write_failed, (&actor, error), news),
    ensures
        news matches Message::WriteError(name, text) && name@ == actor.name@ && text@ == error@,
{
}

/// A published message counts as a pong exactly if it is a pong of the actor's own connection:
/// then the time at which it came is remembered. Any other message, of whatever kind and name,
/// leaves the actor as it was. Nothing is sent for either.
pub proof fn law_nothing_but_an_own_pong_is_remembered(
    before: PingActor,
    message: Message,
    now: i64,
    after: PingActor,
    step: PingStep,
)
    requires
        exists|actor: &mut PingActor|
            *actor == before && *final(actor) == after && #[trigger] call_ensures(
                PingActor::step_at,
                (actor, PingEvent::Received(message), now),
                step,
            ),
    ensures
        step is Idle,
        after.name@ == before.name@,
        after.config == before.config,
        message matches Message::PongMessage(name, _) && name@ == before.name@
            ==> after.last_pong_time == Some(now),
        message matches Message::PongMessage(name, _) && name@ != before.name@
            ==> after.last_pong_time == before.last_pong_time,
        !(message is PongMessage) ==> after.last_pong_time == before.last_pong_time,
{
}

/// After a pong, and another message that is no pong of the connection, the connection is reported
/// exactly when more seconds have passed since that pong than the time-out allows. A time-out of
/// two to the power of 63 or more seconds counts as a negative one.
pub proof fn law_silence_is_reported(
    before: PingActor,
    pong: Message,
    came: i64,
    other: Message,
    seen: i64,
    now: i64,
    after_pong: PingActor,
    after_other: PingActor,
    after_check: PingActor,
    for_pong: PingStep,
    for_other: PingStep,
    step: PingStep,
)
    requires
        exists|actor: &mut PingActor|
            *actor == before && *final(actor) == after_pong && #[trigger] call_ensures(
                PingActor::step_at,
                (actor, PingEvent::Received(pong), came),
                for_pong,
            ),
        exists|actor: &mut PingActor|
            *actor == after_pong && *final(actor) == after_other && #[trigger] call_ensures(
                PingActor::step_at,
                (actor, PingEvent::Received(other), seen),
                for_other,
            ),
        exists|actor: &mut PingActor|
            *actor == after_other && *final(actor) == after_check && #[trigger] call_ensures(
                PingActor::step_at,
                (actor, PingEvent::TimeoutDue, now),
                step,
            ),
        pong matches Message::PongMessage(name, _) && name@ == before.name@,
        other matches Message::PongMessage(name, _) ==> name@ != before.name@,
    ensures
        after_check.last_pong_time == Some(came),
        step is Send <==> now - came > before.config.ping_timeout - (
        if before.config.ping_timeout >= 0x8000_0000_0000_0000 {
            0x1_0000_0000_0000_0000
        } else {
            0int
        }),
        step matches PingStep::Send(message) ==> (
        message matches Message::PongReceiveTimeoutError(name) && name@ == before.name@),
        !(step is Send) ==> step is Idle,
{
    law_nothing_but_an_own_pong_is_remembered(before, pong, came, after_pong, for_pong);
    law_nothing_but_an_own_pong_is_remembered(after_pong, other, seen, after_other, for_other);
}

/// Until a first pong came nothing is reported. A check, a ping, a failure to receive and a
/// cancellation leave the actor as it was. A ping is due with the configured text, and only a
/// cancellation stops the actor.
pub proof fn law_ping_actor_does_its_duties(
    before: PingActor,
    event: PingEvent,
    now: i64,
    after: PingActor,
    step: PingStep,
)
    requires
        exists|actor: &mut PingActor|
            *actor == before && *final(actor) == after && #[trigger] call_ensures(
                PingActor::step_at,
                (actor, event, now),
                step,
            ),
    ensures
        step is Stop <==> event is Cancelled,
        !(event is Received) ==> after == before,
        event is TimeoutDue && before.last_pong_time is None ==> step is Idle,
        event is PingDue ==> {
            &&& step matches PingStep::Send(Message::PingMessage(name, text))
            &&& name@ == before.name@
            &&& text@ == before.config.ping_message@
        },
        event is ReceiveFailed ==> step is Idle,
{
}

/// With the clock the actor does the same: what it does about an event is what it does at some time
/// that the clock may give.
pub proof fn law_ping_actor_goes_by_the_clock(
    before: PingActor,
    event: PingEvent,
    after: PingActor,
    step: PingStep,
)
    requires
        exists|actor: &mut PingActor|
            *actor == before && *final(actor) == after && #[trigger] call_ensures(
                PingActor::step,
                (actor, event),
                step,
            ),
    ensures
        after.name@ == before.name@,
        after.config == before.config,
        step is Stop <==> event is Cancelled,
        step is Idle <== event is Received || event is ReceiveFailed,
        event matches PingEvent::Received(Message::PongMessage(name, _)) && name@ == before.name@
            ==> (after.last_pong_time matches Some(now) && unix_reading(now)),
        event matches PingEvent::Received(Message::PongMessage(name, _)) && name@ != before.name@
            ==> after.last_pong_time == before.last_pong_time,
        !(event matches PingEvent::Received(Message::PongMessage(_, _))) ==> after.last_pong_time
            == before.last_pong_time,
        event is PingDue ==> {
            &&& step matches PingStep::Send(Message::PingMessage(name, text))
            &&& name@ == before.name@
            &&& text@ == before.config.ping_message@
        },
        event is TimeoutDue && before.last_pong_time is None ==> step is Idle,
        event is TimeoutDue ==> (step matches PingStep::Send(message) ==> (
        message matches Message::PongReceiveTimeoutError(name) && name@ == before.name@)),
        event is TimeoutDue ==> (before.last_pong_time matches Some(t) ==> exists|now: i64| #[trigger]
            unix_reading(now) && (step is Send <==> now - t > before.config.ping_timeout - (
            if before.config.ping_timeout >= 0x8000_0000_0000_0000 {
                0x1_0000_0000_0000_0000
            } else {
                0int
            }))),
{
}

/// The actors of a connection that was opened are that connection's own, at their beginning, and
/// whatever is written goes to the actor that writes to it, until the connection is given up or
/// opened anew.
pub proof fn law_open_connection_is_written_to<S, C>(
    before: Connection<S, C>,
    sender: S,
    cancel_token: C,
    finished: Result<Opened<S, C>, ConnectionError>,
    open: Connection<S, C>,
    to: Option<&S>,
    ended: Option<Link<S, C>>,
    over: Connection<S, C>,
    to_nobody: Option<&S>,
)
    requires
        exists|conn: &mut Connection<S, C>|
            *conn == before && *final(conn) == open && #[trigger] call_ensures(
                Connection::<S, C>::finish_connection,
                (conn, Ok((sender, cancel_token))),
                finished,
            ),
        call_ensures(Connection::<S, C>::write, (&open,), to),
        exists|conn: &mut Connection<S, C>|
            *conn == open && *final(conn) == over && #[trigger] call_ensures(
                Connection::<S, C>::shutdown,
                (conn,),
                ended,
            ),
        call_ensures(Connection::<S, C>::write, (&over,), to_nobody),
    ensures
        finished matches Ok(opened) && opened.replaced == before.link && opened.writer.name@
            == before.name@ && opened.reader.name@ == before.name@ && opened.reader.bytes_recv == 0
            && opened.ping.name@ == before.name@ && opened.ping.config == before.config
            && opened.ping.last_pong_time is None,
        open.connection_state is Active,
        to == Some(&sender),
        ended matches Some(link) && link.writer.sender == sender && link.cancel_token
            == cancel_token,
        over.connection_state is Inactive,
        over.name@ == before.name@,
        over.config == before.config,
        to_nobody is None,
{
}

/// A failed attempt is an error with the cause, and changes nothing; while an attempt is made
/// nobody writes, and what was open is handed out to be ended.
pub proof fn law_attempt_to_connect<S, C>(
    before: Connection<S, C>,
    attempt: (Result<Request<()>, ConnectionError>, Option<Link<S, C>>),
    during: Connection<S, C>,
    to_nobody: Option<&S>,
    error: String,
    finished: Result<Opened<S, C>, ConnectionError>,
    after: Connection<S, C>,
)
    requires
        exists|conn: &mut Connection<S, C>|
            *conn == before && *final(conn) == during && #[trigger] call_ensures(
                Connection::<S, C>::try_connection,
                (conn,),
                attempt,
            ),
        call_ensures(Connection::<S, C>::write, (&during,), to_nobody),
        exists|conn: &mut Connection<S, C>|
            *conn == during && *final(conn) == after && #[trigger] call_ensures(
                Connection::<S, C>::finish_connection,
                (conn, Err(error)),
                finished,
            ),
    ensures
        attempt.1 == before.link,
        attempt.0 matches Ok(request) ==> request_refusal(before.config.url@) is None && asked(
            before.config.url@,
            request,
        ),
        attempt.0 is Err <==> request_refusal(before.config.url@) is Some,
        during.connection_state is Connecting,
        during.name@ == before.name@,
        during.config == before.config,
        to_nobody is None,
        finished matches Err(ConnectionError::ConnectionInitFailed(text)) && text@ == error@,
        after == during,
{
}

/// The ping that the actor has sent reaches the wire as the bytes of the configured text.
pub proof fn law_configured_ping_reaches_the_wire(
    actor: PingActor,
    ping: Message,
    writer: WriteActor,
    frame: Option<WireMessage>,
)
    requires
        call_ensures(PingActor::ping, (&actor,), ping),
        call_ensures(WriteActor::handle_message, (&writer, ping), frame),
    ensures
        ping matches Message::PingMessage(name, text) && name@ == actor.name@ && text@
            == actor.config.ping_message@,
        frame matches Some(WireMessage::Ping(sent)) && sent@ == encode_utf8(
            actor.config.ping_message@,
        ),
{
}

/// A message passes from one actor to another as it is: what one writes, another reads and
/// publishes under its own name, of the same kind and with the same content.
pub proof fn law_message_passes_from_actor_to_actor(
    writer: WriteActor,
    message: Message,
    frame: WireMessage,
    reader: ReadActor,
    published: Message,
)
    requires
        call_ensures(
            WriteActor::handle_message,
            (&writer, message),
            Some::<WireMessage>(frame),
        ),
        call_ensures(ReadActor::message, (&reader, frame), published),
    ensures
        message matches Message::TextMessage(_, text) ==> (
        published matches Message::TextMessage(name, same) && name@ == reader.name@ && same@
            == text@),
        message matches Message::BinaryMessage(_, data) ==> (
        published matches Message::BinaryMessage(name, same) && name@ == reader.name@ && same@
            == data@),
        message matches Message::PingMessage(_, text) ==> (
        published matches Message::PingMessage(name, same) && name@ == reader.name@ && same@
            == text@),
        message matches Message::PongMessage(_, text) ==> (
        published matches Message::PongMessage(name, same) && name@ == reader.name@ && same@
            == text@),
        message matches Message::CloseMessage(_, reason) ==> (
        published matches Message::CloseMessage(name, same) && name@ == reader.name@ && (
        same is Some <==> reason is Some) && (reason is Some ==> same->0@ == reason->0@)),
{
    match message {
        Message::PingMessage(_, text) | Message::PongMessage(_, text) => {
            encode_utf8_valid_utf8(text@);
            encode_utf8_decode_utf8(text@);
        },
        _ => {},
    }
}

/// The actors begin with the name that they are given: nothing is read yet, and no pong has come.
pub proof fn law_actors_begin_afresh<S>(
    name: String,
    config: Config,
    sender: S,
    reader: ReadActor,
    writer: WriteActor,
    ping: PingActor,
    with_reader: (ReadActorHandle, ReadActor),
    with_writer: (WriteActorHandle<S>, WriteActor),
    with_ping: (PingActorHandle, PingActor),
)
    requires
        call_ensures(ReadActor::new, (name,), reader),
        call_ensures(WriteActor::new, (name,), writer),
        call_ensures(PingActor::new, (name, config), ping),
        call_ensures(ReadActorHandle::new, (name,), with_reader),
        call_ensures(WriteActorHandle::<S>::new, (name, sender), with_writer),
        call_ensures(PingActorHandle::new, (name, config), with_ping),
    ensures
        reader.name@ == name@ && with_reader.1.name@ == name@,
        reader.bytes_recv == 0 && with_reader.1.bytes_recv == 0,
        writer.name@ == name@ && with_writer.1.name@ == name@,
        with_writer.0.sender == sender,
        ping.name@ == name@ && with_ping.1.name@ == name@,
        ping.config == config && with_ping.1.config == config,
        ping.last_pong_time is None && with_ping.1.last_pong_time is None,
{
}

/// A connection begins under its name, with its settings, and written to by nobody.
pub proof fn law_connection_begins_inactive<S, C>(
    name: &str,
    config: Config,
    conn: Connection<S, C>,
    to_nobody: Option<&S>,
)
    requires
        call_ensures(Connection::<S, C>::new, (name, config), conn),
        call_ensures(Connection::<S, C>::write, (&conn,), to_nobody),
    ensures
        conn.name@ == name@,
        conn.config == config,
        conn.connection_state is Inactive,
        conn.link is None,
        to_nobody is None,
{
}

} // verus!
