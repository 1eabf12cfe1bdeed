//! WebSocket messages as plain values, as they are read from and written to the wire.

use vstd::prelude::*;
use vstd::utf8::*;

verus! {

/// The close code of a connection that has done its work.
pub const NORMAL_CLOSURE: u16 = 1000;

/// What a peer says as it closes: a code and a reason.
#[derive(Debug)]
pub struct CloseFrame {
    pub code: u16,
    pub reason: String,
}

impl Clone for CloseFrame {
    fn clone(&self) -> (copy: Self)
        ensures
            copy == *self,
    {
        CloseFrame { code: self.code, reason: self.reason.clone() }
    }
}

/// What a raw frame is for.
#[derive(Clone, Copy, Debug, PartialEq, Eq, Structural)]
pub enum OpCode {
    Continue,
    Text,
    Binary,
    /// A code kept for further kinds of data.
    ReservedData(u8),
    Close,
    Ping,
    Pong,
    /// A code kept for further kinds of control frames.
    ReservedControl(u8),
}

/// The header of a raw frame. The length of the payload is not part of it.
#[derive(Clone, Copy, Debug)]
pub struct FrameHeader {
    pub is_final: bool,
    pub rsv1: bool,
    pub rsv2: bool,
    pub rsv3: bool,
    pub opcode: OpCode,
    /// The key that the payload is masked with on the wire.
    pub mask: Option<[u8; 4]>,
}

/// The number of bytes that a header takes on the wire, before a payload of the given length: two,
/// the bytes of a length that does not fit in them, and those of the mask.
pub open spec fn header_len(header: FrameHeader, payload_len: nat) -> nat {
    let wide: nat = if payload_len < 126 {
        0
    } else if payload_len < 65536 {
        2
    } else {
        8
    };
    let mask: nat = if header.mask is Some {
        4
    } else {
        0
    };
    2 + wide + mask
}

/// A raw frame.
#[derive(Debug)]
pub struct RawFrame {
    pub header: FrameHeader,
    pub payload: Vec<u8>,
}

/// A [`RawFrame`], with its payload as a sequence.
pub struct RawFrameModel {
    pub header: FrameHeader,
    pub payload: Seq<u8>,
}

impl RawFrameModel {
    /// The number of bytes on the wire.
    pub open spec fn len(self) -> nat {
        header_len(self.header, self.payload.len()) + self.payload.len()
    }
}

impl View for RawFrame {
    type V = RawFrameModel;

    open spec fn view(&self) -> RawFrameModel {
        RawFrameModel { header: self.header, payload: self.payload@ }
    }
}

impl Clone for RawFrame {
    fn clone(&self) -> (copy: Self)
        ensures
            copy@ == self@,
    {
        let payload: Vec<u8> = self.payload.clone();
        assert(payload@ =~= self.payload@);
        RawFrame { header: self.header, payload }
    }
}

impl RawFrame {
    /// The number of bytes on the wire.
    pub fn len(&self) -> (n: u128)
        ensures
            n == self@.len(),
    {
        let length: u128 = self.payload.len() as u128;
        let wide: u128 = if length < 126 {
            0
        } else if length < 65536 {
            2
        } else {
            8
        };
        let mask: u128 = match self.header.mask {
            Some(_) => 4,
            None => 0,
        };
        2 + wide + mask + length
    }
}

/// A WebSocket message.
#[derive(Clone, Debug)]
pub enum WireMessage {
    Text(String),
    Binary(Vec<u8>),
    Ping(Vec<u8>),
    Pong(Vec<u8>),
    Close(Option<CloseFrame>),
    Frame(RawFrame),
}

/// A [`WireMessage`], with its texts and byte strings as sequences.
pub enum WireModel {
    Text(Seq<char>),
    Binary(Seq<u8>),
    Ping(Seq<u8>),
    Pong(Seq<u8>),
    Close(Option<(u16, Seq<char>)>),
    Frame(RawFrameModel),
}

/// What a peer says as it closes, if anything, with the reason as a sequence.
pub open spec fn close_model(close: Option<CloseFrame>) -> Option<(u16, Seq<char>)> {
    match close {
        Some(frame) => Some((frame.code, frame.reason@)),
        None => None,
    }
}

impl View for WireMessage {
    type V = WireModel;

    open spec fn view(&self) -> WireModel {
        match *self {
            WireMessage::Text(text) => WireModel::Text(text@),
            WireMessage::Binary(data) => WireModel::Binary(data@),
            WireMessage::Ping(data) => WireModel::Ping(data@),
            WireMessage::Pong(data) => WireModel::Pong(data@),
            WireMessage::Close(close) => WireModel::Close(close_model(close)),
            WireMessage::Frame(frame) => WireModel::Frame(frame@),
        }
    }
}

impl WireModel {
    /// The number of payload bytes: a text counts in UTF-8, a close counts its reason, and a raw
    /// frame counts its header too.
    pub open spec fn len(self) -> nat {
        match self {
            WireModel::Text(text) => encode_utf8(text).len(),
            WireModel::Binary(data) => data.len(),
            WireModel::Ping(data) => data.len(),
            WireModel::Pong(data) => data.len(),
            WireModel::Close(None) => 0,
            WireModel::Close(Some((_, reason))) => encode_utf8(reason).len(),
            WireModel::Frame(frame) => frame.len(),
        }
    }
}

impl WireMessage {
    /// The number of payload bytes.
    pub fn len(&self) -> (n: u128)
        ensures
            n == self@.len(),
    {
        match self {
            WireMessage::Text(text) => text.as_str().as_bytes().len() as u128,
            WireMessage::Binary(data) => data.len() as u128,
            WireMessage::Ping(data) => data.len() as u128,
            WireMessage::Pong(data) => data.len() as u128,
            WireMessage::Close(None) => 0,
            WireMessage::Close(Some(frame)) => frame.reason.as_str().as_bytes().len() as u128,
            WireMessage::Frame(frame) => frame.len(),
        }
    }
}

/// A text is as long as its bytes, a byte string, a ping and a pong as their payload, and a close
/// as the bytes of its reason.
pub proof fn law_length_of_a_message(message: WireMessage, n: u128)
    requires
        call_ensures(WireMessage::len, (&message,), n),
    ensures
        message matches WireMessage::Text(text) ==> n == encode_utf8(text@).len(),
        message matches WireMessage::Binary(data) ==> n == data@.len(),
        message matches WireMessage::Ping(data) ==> n == data@.len(),
        message matches WireMessage::Pong(data) ==> n == data@.len(),
        message matches WireMessage::Close(None) ==> n == 0,
        message matches WireMessage::Close(Some(close)) ==> n == encode_utf8(close.reason@).len(),
{
}

/// A raw frame is longer than its payload by its header, which is two bytes, and two or eight more
/// where the length of the payload takes them, and four more where there is a mask. It counts the
/// same as a message.
pub proof fn law_length_of_a_raw_frame(raw: RawFrame, n: u128, as_message: u128)
    requires
        call_ensures(RawFrame::len, (&raw,), n),
        call_ensures(WireMessage::len, (&WireMessage::Frame(raw),), as_message),
    ensures
        as_message == n,
        raw.header.mask is None && raw.payload@.len() <= 125 ==> n == raw.payload@.len() + 2,
        raw.header.mask is None && 126 <= raw.payload@.len() <= 65535 ==> n == raw.payload@.len()
            + 4,
        raw.header.mask is None && 65536 <= raw.payload@.len() ==> n == raw.payload@.len() + 10,
        raw.header.mask is Some && raw.payload@.len() <= 125 ==> n == raw.payload@.len() + 6,
        raw.header.mask is Some && 126 <= raw.payload@.len() <= 65535 ==> n == raw.payload@.len()
            + 8,
        raw.header.mask is Some && 65536 <= raw.payload@.len() ==> n == raw.payload@.len() + 14,
{
}

/// A copy of a raw frame has its header and its payload, and a copy of what a peer says as it
/// closes has its code and its reason.
pub proof fn law_copied_frames_are_the_same(
    close: CloseFrame,
    close_copy: CloseFrame,
    raw: RawFrame,
    copy: RawFrame,
)
    requires
        call_ensures(CloseFrame::clone, (&close,), close_copy),
        call_ensures(RawFrame::clone, (&raw,), copy),
    ensures
        close_copy.code == close.code,
        close_copy.reason@ == close.reason@,
        copy.header == raw.header,
        copy.payload@ == raw.payload@,
{
}

} // verus!
