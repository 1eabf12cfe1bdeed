//! The messages that connections and their manager exchange.

use vstd::prelude::*;

verus! {

/// A message about one connection. The first field is always the connection's name.
#[derive(Clone, Debug)]
pub enum Message {
    /// A ping and its payload.
    PingMessage(String, String),
    /// A pong and its payload.
    PongMessage(String, String),
    /// A text.
    TextMessage(String, String),
    /// A byte string.
    BinaryMessage(String, Vec<u8>),
    /// A close, with the reason where one is given.
    CloseMessage(String, Option<String>),
    /// A raw frame, described.
    FrameMessage(String, String),
    /// Reading failed, and how.
    ReadError(String, String),
    /// Writing failed, and how.
    WriteError(String, String),
    /// No pong came in time.
    PongReceiveTimeoutError(String),
    /// The connection stands.
    SuccessfulHandshake(String),
    /// An attempt to connect failed; attempts count from zero.
    FailedHandshake(String, i32),
    /// The connection is about to be attempted.
    ConnectionStarting(String),
}

/// A [`Message`], with its texts and byte strings as sequences.
pub enum MessageModel {
    PingMessage(Seq<char>, Seq<char>),
    PongMessage(Seq<char>, Seq<char>),
    TextMessage(Seq<char>, Seq<char>),
    BinaryMessage(Seq<char>, Seq<u8>),
    CloseMessage(Seq<char>, Option<Seq<char>>),
    FrameMessage(Seq<char>, Seq<char>),
    ReadError(Seq<char>, Seq<char>),
    WriteError(Seq<char>, Seq<char>),
    PongReceiveTimeoutError(Seq<char>),
    SuccessfulHandshake(Seq<char>),
    FailedHandshake(Seq<char>, int),
    ConnectionStarting(Seq<char>),
}

impl MessageModel {
    /// The name of the connection that the message is about.
    pub open spec fn name(self) -> Seq<char> {
        match self {
            MessageModel::PingMessage(name, _) => name,
            MessageModel::PongMessage(name, _) => name,
            MessageModel::TextMessage(name, _) => name,
            MessageModel::BinaryMessage(name, _) => name,
            MessageModel::CloseMessage(name, _) => name,
            MessageModel::FrameMessage(name, _) => name,
            MessageModel::ReadError(name, _) => name,
            MessageModel::WriteError(name, _) => name,
            MessageModel::PongReceiveTimeoutError(name) => name,
            MessageModel::SuccessfulHandshake(name) => name,
            MessageModel::FailedHandshake(name, _) => name,
            MessageModel::ConnectionStarting(name) => name,
        }
    }
}

/// The characters of an optional text.
pub open spec fn optional_text(text: Option<String>) -> Option<Seq<char>> {
    match text {
        Some(t) => Some(t@),
        None => None,
    }
}

impl View for Message {
    type V = MessageModel;

    open spec fn view(&self) -> MessageModel {
        match *self {
            Message::PingMessage(name, text) => MessageModel::PingMessage(name@, text@),
            Message::PongMessage(name, text) => MessageModel::PongMessage(name@, text@),
            Message::TextMessage(name, text) => MessageModel::TextMessage(name@, text@),
            Message::BinaryMessage(name, data) => MessageModel::BinaryMessage(name@, data@),
            Message::CloseMessage(name, reason) => MessageModel::CloseMessage(
                name@,
                optional_text(reason),
            ),
            Message::FrameMessage(name, text) => MessageModel::FrameMessage(name@, text@),
            Message::ReadError(name, text) => MessageModel::ReadError(name@, text@),
            Message::WriteError(name, text) => MessageModel::WriteError(name@, text@),
            Message::PongReceiveTimeoutError(name) => MessageModel::PongReceiveTimeoutError(name@),
            Message::SuccessfulHandshake(name) => MessageModel::SuccessfulHandshake(name@),
            Message::FailedHandshake(name, attempt) => MessageModel::FailedHandshake(
                name@,
                attempt as int,
            ),
            Message::ConnectionStarting(name) => MessageModel::ConnectionStarting(name@),
        }
    }
}

} // verus!
