//! The driver of a hosted connection, where the host owns the socket and
//! reports through callbacks.
//!
//! There is no loop and no queue: each callback hands its signal to the
//! driver, performs the one action that the driver answers with, and, where
//! that was an event for the handler, reports the handler's verdict before it
//! returns. Sends go to the host socket at once.

use crate::message::{WsEvent, WsMessage};
use crate::outgoing::Producer;
use std::ops::ControlFlow;
use vstd::prelude::*;

verus! {

/// What the host delivered with a message notification, by its native kind.
#[derive(Debug, PartialEq, Eq)]
pub enum HostPayload {
    /// A binary buffer, with its bytes.
    Buffer(Vec<u8>),
    /// A binary payload that has to be read asynchronously first.
    Blob,
    /// A text.
    Text(String),
    /// Anything else, with a description.
    Other(String),
}

/// One notification from the host.
#[derive(Debug, PartialEq, Eq)]
pub enum HostSignal {
    /// The socket is open.
    Opened,
    /// A message arrived.
    Message(HostPayload),
    /// The asynchronous read of a deferred binary payload has ended.
    BlobRead(Result<Vec<u8>, String>),
    /// The host reports an error, with its diagnostic.
    Errored(String),
    /// The socket is closed.
    Closed,
}

/// What a callback does with its signal.
#[derive(Debug, PartialEq, Eq)]
pub enum HostAction {
    /// Hand this event to the handler and report its verdict.
    Emit(WsEvent),
    /// Start the asynchronous read of the payload; report `BlobRead` when it
    /// has ended. No event is due until then.
    ReadBlob,
    /// Nothing: the connection is over for the handler.
    Ignore,
}

/// What is handed to the host socket for one outgoing message.
#[derive(Debug, PartialEq, Eq)]
pub enum HostSend {
    /// Send these bytes.
    Bytes(Vec<u8>),
    /// Send this text.
    Text(String),
}

/// The hosted driver as a value.
pub struct Hosted {
    /// Whether the handler has seen its last event.
    pub ended: bool,
    /// Every event handed to the handler so far, oldest first.
    pub emitted: Seq<WsEvent>,
}

/// The words that introduce the cause when a deferred payload cannot be read.
pub open spec fn blob_failure_prefix() -> Seq<char> {
    "Failed to read binary blob: "@
}

impl Hosted {
    /// The driver of a connection whose callbacks were just registered.
    pub open spec fn start() -> Hosted {
        Hosted { ended: false, emitted: Seq::empty() }
    }

    /// What holds of every hosted driver: `Closed` is the last event, and the
    /// handler has seen its last event once it is out.
    pub open spec fn wf(self) -> bool {
        forall|i: int|
            0 <= i < self.emitted.len() && (#[trigger] self.emitted[i]) is Closed ==> i
                == self.emitted.len() - 1 && self.ended
    }

    /// Whether `event` is the one that `signal` stands for.
    pub open spec fn classifies(signal: HostSignal, event: WsEvent) -> bool {
        match signal {
            HostSignal::Opened => event == WsEvent::Opened,
            HostSignal::Message(HostPayload::Buffer(data)) => event == WsEvent::Message(
                WsMessage::Binary(data),
            ),
            HostSignal::Message(HostPayload::Blob) => false,
            HostSignal::Message(HostPayload::Text(text)) => event == WsEvent::Message(
                WsMessage::Text(text),
            ),
            HostSignal::Message(HostPayload::Other(description)) => event == WsEvent::Message(
                WsMessage::Unknown(description),
            ),
            HostSignal::BlobRead(Ok(data)) => event == WsEvent::Message(WsMessage::Binary(data)),
            HostSignal::BlobRead(Err(cause)) => event matches WsEvent::Error(text) && text@
                == blob_failure_prefix() + cause@,
            HostSignal::Errored(diagnostic) => event == WsEvent::Error(diagnostic),
            HostSignal::Closed => event == WsEvent::Closed,
        }
    }

    /// Whether `action` is the driver's answer to `signal`.
    pub open spec fn reacts(self, signal: HostSignal, action: HostAction) -> bool {
        if self.ended {
            action == HostAction::Ignore
        } else if signal == HostSignal::Message(HostPayload::Blob) {
            action == HostAction::ReadBlob
        } else {
            action matches HostAction::Emit(event) && Self::classifies(signal, event)
        }
    }

    /// The driver after it has answered `signal` with `action`.
    pub open spec fn after_signal(self, signal: HostSignal, action: HostAction) -> Hosted {
        match action {
            HostAction::Emit(event) => Hosted {
                ended: signal is Closed,
                emitted: self.emitted.push(event),
            },
            _ => self,
        }
    }

    /// The driver after the handler's verdict.
    pub open spec fn after_verdict(self, verdict: ControlFlow<()>) -> Hosted {
        Hosted { ended: self.ended || verdict is Break, ..self }
    }
}

/// The driver of a hosted connection.
pub struct HostedDriver {
    ended: bool,
    emitted: Ghost<Seq<WsEvent>>,
}

impl View for HostedDriver {
    type V = Hosted;

    closed spec fn view(&self) -> Hosted {
        Hosted { ended: self.ended, emitted: self.emitted@ }
    }
}

impl HostedDriver {
    /// The driver of a connection whose callbacks are about to be registered.
    pub fn new() -> (driver: Self)
        ensures
            driver@ == Hosted::start(),
            driver@.wf(),
    {
        HostedDriver { ended: false, emitted: Ghost(Seq::empty()) }
    }

    /// Whether the handler has seen its last event.
    pub fn has_ended(&self) -> (ended: bool)
        ensures
            ended == self@.ended,
    {
        self.ended
    }

    fn emit(&mut self, event: WsEvent, last: bool) -> (action: HostAction)
        requires
            !old(self)@.ended,
            old(self)@.wf(),
            event is Closed ==> last,
        ensures
            action == HostAction::Emit(event),
            final(self)@ == (Hosted { ended: last, emitted: old(self)@.emitted.push(event) }),
            final(self)@.wf(),
    {
        self.ended = last;
        self.emitted = Ghost(self.emitted@.push(event));
        HostAction::Emit(event)
    }

    /// Takes one notification from the host and says what the callback is to
    /// do with it.
    ///
    /// A binary buffer becomes a `Binary` message, a text a `Text` message,
    /// anything unrecognised an `Unknown` message with its description; a
    /// deferred payload is read first and becomes a `Binary` message or an
    /// `Error` when that has ended. An error is passed on and does not end
    /// the connection. `Closed` is emitted once. After it, and after a
    /// handler's `Break`, every notification is ignored.
    pub fn on_signal(&mut self, signal: HostSignal) -> (action: HostAction)
        requires
            old(self)@.wf(),
        ensures
            old(self)@.reacts(signal, action),
            final(self)@ == old(self)@.after_signal(signal, action),
            final(self)@.wf(),
    {
        if self.ended {
            return HostAction::Ignore;
        }
        match signal {
            HostSignal::Opened => self.emit(WsEvent::Opened, false),
            HostSignal::Message(HostPayload::Buffer(data)) => self.emit(
                WsEvent::Message(WsMessage::Binary(data)),
                false,
            ),
            HostSignal::Message(HostPayload::Blob) => HostAction::ReadBlob,
            HostSignal::Message(HostPayload::Text(text)) => self.emit(
                WsEvent::Message(WsMessage::Text(text)),
                false,
            ),
            HostSignal::Message(HostPayload::Other(description)) => self.emit(
                WsEvent::Message(WsMessage::Unknown(description)),
                false,
            ),
            HostSignal::BlobRead(Ok(data)) => self.emit(
                WsEvent::Message(WsMessage::Binary(data)),
                false,
            ),
            HostSignal::BlobRead(Err(cause)) => {
                let text = String::from_str("Failed to read binary blob: ").concat(cause.as_str());
                self.emit(WsEvent::Error(text), false)
            },
            HostSignal::Errored(diagnostic) => self.emit(WsEvent::Error(diagnostic), false),
            HostSignal::Closed => self.emit(WsEvent::Closed, true),
        }
    }

    /// Takes the handler's verdict on the event just emitted and says whether
    /// the callback is to close the host socket before it returns: it is, if
    /// and only if the handler answered `Break`, and the handler is then not
    /// called again.
    pub fn on_verdict(&mut self, verdict: ControlFlow<()>) -> (close_socket: bool)
        requires
            old(self)@.wf(),
        ensures
            close_socket == (verdict is Break),
            final(self)@ == old(self)@.after_verdict(verdict),
            final(self)@.wf(),
    {
        match verdict {
            ControlFlow::Break(_) => {
                self.ended = true;
                true
            },
            ControlFlow::Continue(_) => false,
        }
    }
}

/// The sender of a hosted connection: a hold on the host socket that is
/// open, closed, or forgotten. There is no queue behind it, the host keeps
/// its own.
pub struct WsSender {
    hold: Producer,
}

impl View for WsSender {
    type V = Producer;

    closed spec fn view(&self) -> Producer {
        self.hold
    }
}

/// What is handed to the host socket for a sendable message.
pub open spec fn host_send_of(msg: WsMessage) -> HostSend
    recommends
        msg.sendable(),
{
    match msg {
        WsMessage::Text(text) => HostSend::Text(text),
        WsMessage::Binary(data) => HostSend::Bytes(data),
        WsMessage::Unknown(text) => HostSend::Text(text),
        WsMessage::Ping(data) => HostSend::Bytes(data),
        WsMessage::Pong(data) => HostSend::Bytes(data),
    }
}

impl WsSender {
    /// The sender of a host socket that was just made.
    pub fn new() -> (sender: Self)
        ensures
            sender@ == Producer::Open,
    {
        WsSender { hold: Producer::Open }
    }

    /// What to hand to the host socket for `msg`, now: the payload as it is
    /// while the sender is open, nothing once it was closed or forgotten.
    ///
    /// Only `Binary` and `Text` may be submitted.
    pub fn send(&mut self, msg: WsMessage) -> (handed: Option<HostSend>)
        requires
            msg.sendable(),
        ensures
            final(self)@ == old(self)@,
            handed == if old(self)@ is Open {
                Some(host_send_of(msg))
            } else {
                None
            },
    {
        match self.hold {
            Producer::Open => match msg {
                WsMessage::Text(text) => Some(HostSend::Text(text)),
                WsMessage::Binary(data) => Some(HostSend::Bytes(data)),
                _ => None,
            },
            _ => None,
        }
    }

    /// Closes the sender and says whether the host socket is to be closed
    /// with it: it is the first time, and never after the sender was
    /// forgotten.
    pub fn close(&mut self) -> (close_socket: bool)
        ensures
            close_socket == (old(self)@ is Open),
            final(self)@ == if old(self)@ is Open {
                Producer::Closed
            } else {
                old(self)@
            },
    {
        match self.hold {
            Producer::Open => {
                self.hold = Producer::Closed;
                true
            },
            _ => false,
        }
    }

    /// Lets go of the host socket without closing it.
    pub fn forget(&mut self)
        ensures
            final(self)@ == if old(self)@ is Open {
                Producer::Forgotten
            } else {
                old(self)@
            },
    {
        match self.hold {
            Producer::Open => {
                self.hold = Producer::Forgotten;
            },
            _ => {},
        }
    }
}

/// In a hosted connection `Closed` reaches the handler at most once and
/// nothing follows it: once it is out, every later notification is ignored.
pub proof fn lemma_hosted_closed_is_last(s: Hosted, signal: HostSignal, action: HostAction)
    requires
        s.wf(),
        exists|i: int| 0 <= i < s.emitted.len() && (#[trigger] s.emitted[i]) is Closed,
        s.reacts(signal, action),
    ensures
        forall|i: int|
            0 <= i < s.emitted.len() && (#[trigger] s.emitted[i]) is Closed ==> i
                == s.emitted.len() - 1,
        action == HostAction::Ignore,
        s.after_signal(signal, action) == s,
{
}

/// In a hosted connection a handler that answered `Break` is never called
/// again: every later notification is ignored.
pub proof fn lemma_hosted_break_is_final(s: Hosted, signal: HostSignal, action: HostAction)
    requires
        s.after_verdict(ControlFlow::Break(())).reacts(signal, action),
    ensures
        action == HostAction::Ignore,
{
}

} // verus!
