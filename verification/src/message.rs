//! The vocabulary exchanged between a connection and its caller.

use vstd::prelude::*;

verus! {

/// One unit of application data, in either direction.
///
/// Only `Binary` and `Text` can be sent; the other three only ever arrive.
#[derive(Clone, Debug, PartialEq, Eq)]
pub enum WsMessage {
    /// An opaque byte payload.
    Binary(Vec<u8>),
    /// A text payload.
    Text(String),
    /// An incoming message that could not be classified, with its description.
    Unknown(String),
    /// An incoming liveness probe.
    Ping(Vec<u8>),
    /// An incoming answer to a liveness probe.
    Pong(Vec<u8>),
}

/// Something that happened to a connection.
#[derive(Clone, Debug, PartialEq, Eq)]
pub enum WsEvent {
    /// The handshake succeeded; messages may be sent from now on.
    Opened,
    /// A message arrived.
    Message(WsMessage),
    /// Something went wrong; the text says what.
    Error(String),
    /// The connection is over.
    Closed,
}

/// A frame as the native transport reads and writes it.
#[derive(Clone, Debug, PartialEq, Eq)]
pub enum Frame {
    /// A text frame.
    Text(String),
    /// A binary frame.
    Binary(Vec<u8>),
    /// A ping with its payload.
    Ping(Vec<u8>),
    /// A pong with its payload.
    Pong(Vec<u8>),
    /// The peer's close frame.
    Close,
    /// A raw frame that carries no message.
    Raw,
}

impl WsMessage {
    /// Whether this message has a wire form as caller-initiated traffic.
    pub open spec fn sendable(self) -> bool {
        self is Binary || self is Text
    }

    /// Tells a message that may be submitted for sending from a receive-only one.
    pub fn is_sendable(&self) -> (r: bool)
        ensures
            r == self.sendable(),
    {
        match self {
            WsMessage::Binary(_) => true,
            WsMessage::Text(_) => true,
            _ => false,
        }
    }
}

/// The frame that carries a sendable message: same kind, same payload.
pub open spec fn frame_of(msg: WsMessage) -> Frame
    recommends
        msg.sendable(),
{
    match msg {
        WsMessage::Text(text) => Frame::Text(text),
        WsMessage::Binary(data) => Frame::Binary(data),
        WsMessage::Ping(data) => Frame::Ping(data),
        WsMessage::Pong(data) => Frame::Pong(data),
        WsMessage::Unknown(_) => Frame::Raw,
    }
}

/// The message that a data or control frame delivers, if it delivers one.
pub open spec fn message_of(frame: Frame) -> Option<WsMessage> {
    match frame {
        Frame::Text(text) => Some(WsMessage::Text(text)),
        Frame::Binary(data) => Some(WsMessage::Binary(data)),
        Frame::Ping(data) => Some(WsMessage::Ping(data)),
        Frame::Pong(data) => Some(WsMessage::Pong(data)),
        Frame::Close => None,
        Frame::Raw => None,
    }
}

/// Turns a message submitted for sending into the frame to write.
pub fn outgoing_frame(msg: WsMessage) -> (frame: Frame)
    requires
        msg.sendable(),
    ensures
        frame == frame_of(msg),
        message_of(frame) == Some(msg),
{
    match msg {
        WsMessage::Text(text) => Frame::Text(text),
        WsMessage::Binary(data) => Frame::Binary(data),
        _ => Frame::Raw,
    }
}

/// Classifies a frame that was read: the message it delivers, or `None` for a
/// close frame and for a raw frame.
pub fn incoming_message(frame: Frame) -> (msg: Option<WsMessage>)
    ensures
        msg == message_of(frame),
{
    match frame {
        Frame::Text(text) => Some(WsMessage::Text(text)),
        Frame::Binary(data) => Some(WsMessage::Binary(data)),
        Frame::Ping(data) => Some(WsMessage::Ping(data)),
        Frame::Pong(data) => Some(WsMessage::Pong(data)),
        Frame::Close => None,
        Frame::Raw => None,
    }
}

/// A sendable message written as a frame and read back is the same message,
/// payload included: nothing is truncated or re-encoded on the way.
pub proof fn lemma_frame_round_trip(msg: WsMessage)
    requires
        msg.sendable(),
    ensures
        message_of(frame_of(msg)) == Some(msg),
        msg matches WsMessage::Binary(data) ==> frame_of(msg) == Frame::Binary(data),
        msg matches WsMessage::Text(text) ==> frame_of(msg) == Frame::Text(text),
{
}

} // verus!
