//! The driver of a native connection, as a state machine.
//!
//! A worker owns the socket. It tells the driver what happened (an `Input`)
//! and performs what the driver answers (an `Action`), which in turn decides
//! which input comes next. The driver never touches the socket itself, so all
//! it decides is stated here and holds for whatever the network does.

use crate::message::{frame_of, message_of, Frame, WsEvent, WsMessage};
use crate::options::{effective_timeout, resolve_timeout};
use crate::outgoing::{Outgoing, Poll};
use std::ops::ControlFlow;
use std::time::Duration;
use vstd::prelude::*;

verus! {

/// Where a connection stands.
#[derive(Clone, Copy, Debug, PartialEq, Eq)]
pub enum Phase {
    /// The handshake is under way; nothing was read or written yet.
    Connecting,
    /// Messages flow in both directions.
    Open,
    /// No more outgoing traffic; the close handshake is under way.
    Closing,
    /// The connection ended in an orderly way.
    Closed,
    /// The connection ended on an error.
    Failed,
}

/// The step of the worker in which a connection failed.
#[derive(Clone, Copy, Debug, PartialEq, Eq)]
pub enum Stage {
    /// The handshake.
    Connect,
    /// Applying the read timeout to the transport.
    ReadTimeout,
    /// Writing a frame.
    Send,
    /// Reading a frame.
    Read,
    /// The close handshake.
    Close,
}

/// Why a connection failed: the step, and what the transport said.
#[derive(Clone, Debug, PartialEq, Eq)]
pub struct Failure {
    pub stage: Stage,
    pub cause: String,
}

/// The kind of an I/O failure, as far as the driver tells kinds apart.
#[derive(Clone, Copy, Debug, PartialEq, Eq)]
pub enum IoKind {
    /// The read would have blocked.
    WouldBlock,
    /// The read timed out.
    TimedOut,
    /// Anything else.
    Other,
}

/// How one read ended.
#[derive(Clone, Debug, PartialEq, Eq)]
pub enum ReadOutcome {
    /// A frame was decoded.
    Frame(Frame),
    /// The read failed.
    Failed { kind: IoKind, description: String },
}

/// What the worker reports to the driver.
#[derive(Debug, PartialEq, Eq)]
pub enum Input {
    /// How the handshake ended.
    Handshake(Result<(), String>),
    /// How applying the read timeout ended.
    TimeoutSet(Result<(), String>),
    /// What the handler answered to the event it was given.
    Verdict(ControlFlow<()>),
    /// What the outgoing queue held.
    Outgoing(Poll),
    /// How the write ended.
    Written(Result<(), String>),
    /// How the read ended.
    Incoming(ReadOutcome),
    /// How the close handshake ended.
    CloseResult(Result<(), String>),
    /// A shutdown or a pause is over.
    Completed,
}

/// What the driver asks the worker to do next.
#[derive(Debug, PartialEq, Eq)]
pub enum Action {
    /// Apply this read timeout to the transport, then report `TimeoutSet`.
    SetReadTimeout(Duration),
    /// Hand this event to the handler, then report its `Verdict`.
    Emit(WsEvent),
    /// Take at most one message from the outgoing queue and report `Outgoing`.
    PollOutgoing,
    /// Write this frame, then report `Written`.
    Write(Frame),
    /// Read once, bounded by the read timeout, then report `Incoming`.
    Read,
    /// Start the close handshake, then report `CloseResult`.
    Close,
    /// Send a close frame and flush, whatever comes of either, then report
    /// `Completed`.
    Shutdown,
    /// Neither direction had work: give up the processor for a moment, then
    /// report `Completed`.
    Yield,
    /// The worker is done. On `Err` the caller is owed one last `Error` event.
    Finish(Result<(), Failure>),
}

/// The report that the driver waits for.
#[derive(Clone, Copy, Debug, PartialEq, Eq)]
pub enum Awaiting {
    Handshake,
    TimeoutSet,
    Verdict,
    Outgoing,
    Written,
    Incoming,
    CloseResult,
    Shutdown,
    Resumed,
    /// The worker was told to finish.
    Nothing,
}

/// The driver as a value.
pub struct Driver {
    pub phase: Phase,
    pub awaiting: Awaiting,
    /// Whether this round of the loop has written or delivered anything yet.
    pub worked: bool,
    /// Whether the connection has no outgoing queue.
    pub receive_only: bool,
    /// The read timeout to apply after the handshake, if any.
    pub timeout: Option<Duration>,
    /// The failure to finish with once the shutdown is over.
    pub failure: Option<Failure>,
    /// Every event handed to the handler so far, oldest first.
    pub emitted: Seq<WsEvent>,
}

/// Whether the handler asked to end the connection.
pub open spec fn is_break(verdict: ControlFlow<()>) -> bool {
    match verdict {
        ControlFlow::Break(_) => true,
        ControlFlow::Continue(_) => false,
    }
}

/// Whether a failed read only means that nothing arrived in time.
pub open spec fn benign(kind: IoKind) -> bool {
    kind is WouldBlock || kind is TimedOut
}

impl Stage {
    /// The words that introduce the cause in a failure's message.
    pub open spec fn prefix(self) -> Seq<char> {
        match self {
            Stage::Connect => "Connect: "@,
            Stage::ReadTimeout => "failed to set read timeout: "@,
            Stage::Send => "send: "@,
            Stage::Read => "read: "@,
            Stage::Close => "Failed to close connection: "@,
        }
    }
}

impl Failure {
    /// The diagnostic for the caller: the step's words, then the cause.
    pub fn message(&self) -> (text: String)
        ensures
            text@ == self.stage.prefix() + self.cause@,
    {
        let head = match self.stage {
            Stage::Connect => "Connect: ",
            Stage::ReadTimeout => "failed to set read timeout: ",
            Stage::Send => "send: ",
            Stage::Read => "read: ",
            Stage::Close => "Failed to close connection: ",
        };
        String::from_str(head).concat(self.cause.as_str())
    }
}

/// The one event that is owed to the handler when the worker has finished:
/// an `Error` with the failure's message, or nothing after an orderly end.
pub fn final_event(outcome: &Result<(), Failure>) -> (event: Option<WsEvent>)
    ensures
        outcome is Ok ==> event is None,
        outcome matches Err(failure) ==> (event matches Some(WsEvent::Error(text)) && text@
            == failure.stage.prefix() + failure.cause@),
{
    match outcome {
        Ok(_) => None,
        Err(failure) => Some(WsEvent::Error(failure.message())),
    }
}

impl Driver {
    /// The driver of a connection that is about to be made.
    pub open spec fn start(read_timeout: Option<Duration>, receive_only: bool) -> Driver {
        Driver {
            phase: Phase::Connecting,
            awaiting: Awaiting::Handshake,
            worked: false,
            receive_only,
            timeout: effective_timeout(read_timeout),
            failure: None,
            emitted: Seq::empty(),
        }
    }

    /// Whether `input` is the report that the driver waits for.
    pub open spec fn accepts(self, input: Input) -> bool {
        match input {
            Input::Handshake(_) => self.awaiting is Handshake,
            Input::TimeoutSet(_) => self.awaiting is TimeoutSet,
            Input::Verdict(_) => self.awaiting is Verdict,
            Input::Outgoing(found) => self.awaiting is Outgoing && (found matches Poll::Message(msg)
                ==> msg.sendable()),
            Input::Written(_) => self.awaiting is Written,
            Input::Incoming(_) => self.awaiting is Incoming,
            Input::CloseResult(_) => self.awaiting is CloseResult,
            Input::Completed => self.awaiting is Shutdown || self.awaiting is Resumed,
        }
    }

    /// Whether the worker was told to finish.
    pub open spec fn finished(self) -> bool {
        self.awaiting is Nothing
    }

    /// What holds of every driver that was started and stepped: the events
    /// come in the order that a connection's life allows, and the phase fits
    /// the report that is awaited.
    pub open spec fn wf(self) -> bool {
        &&& forall|i: int|
            0 <= i < self.emitted.len() && (#[trigger] self.emitted[i]) is Opened ==> i == 0
        &&& forall|i: int|
            0 <= i < self.emitted.len() && (#[trigger] self.emitted[i]) is Closed ==> i
                == self.emitted.len() - 1 && self.phase is Closed
        &&& forall|i: int| 0 <= i < self.emitted.len() ==> !((#[trigger] self.emitted[i]) is Error)
        &&& self.emitted.len() > 0 ==> self.emitted[0] is Opened
        &&& self.phase is Open || self.phase is Closing || self.phase is Closed
            ==> self.emitted.len() > 0
        &&& self.failure is Some ==> self.phase is Failed
        &&& match self.awaiting {
            Awaiting::Handshake => self.phase is Connecting && self.emitted.len() == 0,
            Awaiting::TimeoutSet => self.phase is Connecting && self.emitted.len() == 0,
            Awaiting::Verdict => {
                ||| self.phase is Connecting && self.emitted.len() == 1
                ||| self.phase is Open && self.emitted.last() is Message
                ||| self.phase is Closed && self.emitted.last() is Closed
            },
            Awaiting::Outgoing => self.phase is Open && !self.receive_only,
            Awaiting::Written => self.phase is Open && !self.receive_only,
            Awaiting::Incoming => self.phase is Open,
            Awaiting::Resumed => self.phase is Open,
            Awaiting::CloseResult => self.phase is Closing,
            Awaiting::Shutdown => {
                ||| self.phase is Closing && self.failure is None
                ||| self.phase is Failed && self.failure is Some
            },
            Awaiting::Nothing => self.phase is Closed || self.phase is Failed,
        }
    }

    /// The start of a round of the loop: first the outgoing queue, where the
    /// connection has one, then the socket.
    pub open spec fn begin_round(self) -> (Driver, Action) {
        if self.receive_only {
            (Driver { phase: Phase::Open, worked: false, awaiting: Awaiting::Incoming, ..self }, Action::Read)
        } else {
            (
                Driver { phase: Phase::Open, worked: false, awaiting: Awaiting::Outgoing, ..self },
                Action::PollOutgoing,
            )
        }
    }

    /// The driver that hands `event` to the handler.
    pub open spec fn emit(self, event: WsEvent) -> (Driver, Action) {
        (
            Driver { awaiting: Awaiting::Verdict, emitted: self.emitted.push(event), ..self },
            Action::Emit(event),
        )
    }

    /// The end of the connection on a failure.
    pub open spec fn fail(self, stage: Stage, cause: String) -> (Driver, Action) {
        (
            Driver { phase: Phase::Failed, awaiting: Awaiting::Nothing, ..self },
            Action::Finish(Err(Failure { stage, cause })),
        )
    }

    /// The orderly end of the connection.
    pub open spec fn finish(self) -> (Driver, Action) {
        (Driver { phase: Phase::Closed, awaiting: Awaiting::Nothing, ..self }, Action::Finish(Ok(())))
    }

    /// The driver after `input`, and what it asks for next.
    pub open spec fn next(self, input: Input) -> (Driver, Action) {
        match input {
            Input::Handshake(Ok(_)) => match self.timeout {
                Some(d) => (
                    Driver { awaiting: Awaiting::TimeoutSet, ..self },
                    Action::SetReadTimeout(d),
                ),
                None => self.emit(WsEvent::Opened),
            },
            Input::Handshake(Err(cause)) => self.fail(Stage::Connect, cause),
            Input::TimeoutSet(Ok(_)) => self.emit(WsEvent::Opened),
            Input::TimeoutSet(Err(cause)) => self.fail(Stage::ReadTimeout, cause),
            Input::Verdict(verdict) => if self.phase is Closed {
                self.finish()
            } else if is_break(verdict) {
                (Driver { phase: Phase::Closing, awaiting: Awaiting::CloseResult, ..self }, Action::Close)
            } else {
                self.begin_round()
            },
            Input::Outgoing(Poll::Message(msg)) => (
                Driver { awaiting: Awaiting::Written, ..self },
                Action::Write(frame_of(msg)),
            ),
            Input::Outgoing(Poll::Empty) => (Driver { awaiting: Awaiting::Incoming, ..self }, Action::Read),
            Input::Outgoing(Poll::Disconnected) => (
                Driver { phase: Phase::Closing, awaiting: Awaiting::Shutdown, ..self },
                Action::Shutdown,
            ),
            Input::Written(Ok(_)) => (
                Driver { worked: true, awaiting: Awaiting::Incoming, ..self },
                Action::Read,
            ),
            Input::Written(Err(cause)) => (
                Driver {
                    phase: Phase::Failed,
                    awaiting: Awaiting::Shutdown,
                    failure: Some(Failure { stage: Stage::Send, cause }),
                    ..self
                },
                Action::Shutdown,
            ),
            Input::Incoming(ReadOutcome::Frame(frame)) => match message_of(frame) {
                Some(msg) => self.emit(WsEvent::Message(msg)),
                None => if frame is Close {
                    (Driver { phase: Phase::Closed, ..self }).emit(WsEvent::Closed)
                } else {
                    self.begin_round()
                },
            },
            Input::Incoming(ReadOutcome::Failed { kind, description }) => if !benign(kind) {
                self.fail(Stage::Read, description)
            } else if self.worked {
                self.begin_round()
            } else {
                (Driver { awaiting: Awaiting::Resumed, ..self }, Action::Yield)
            },
            Input::CloseResult(Ok(_)) => self.finish(),
            Input::CloseResult(Err(cause)) => self.fail(Stage::Close, cause),
            Input::Completed => if self.awaiting is Resumed {
                self.begin_round()
            } else {
                match self.failure {
                    Some(failure) => (
                        Driver { awaiting: Awaiting::Nothing, failure: None, ..self },
                        Action::Finish(Err(failure)),
                    ),
                    None => self.finish(),
                }
            },
        }
    }

    /// The input that the worker reports after it has performed `action`, as
    /// far as the action fixes its kind.
    pub open spec fn answers(action: Action, input: Input) -> bool {
        match action {
            Action::SetReadTimeout(_) => input is TimeoutSet,
            Action::Emit(_) => input is Verdict,
            Action::PollOutgoing => input is Outgoing,
            Action::Write(_) => input is Written,
            Action::Read => input is Incoming,
            Action::Close => input is CloseResult,
            Action::Shutdown => input is Completed,
            Action::Yield => input is Completed,
            Action::Finish(_) => false,
        }
    }
}

/// The driver of a native connection.
pub struct NativeDriver {
    phase: Phase,
    awaiting: Awaiting,
    worked: bool,
    receive_only: bool,
    timeout: Option<Duration>,
    failure: Option<Failure>,
    emitted: Ghost<Seq<WsEvent>>,
}

impl View for NativeDriver {
    type V = Driver;

    closed spec fn view(&self) -> Driver {
        Driver {
            phase: self.phase,
            awaiting: self.awaiting,
            worked: self.worked,
            receive_only: self.receive_only,
            timeout: self.timeout,
            failure: self.failure,
            emitted: self.emitted@,
        }
    }
}

impl NativeDriver {
    /// A driver for a connection that is about to be made. The worker performs
    /// the handshake and reports `Input::Handshake`.
    ///
    /// A `read_timeout` of zero is no timeout. A `receive_only` connection
    /// has no outgoing queue and is never asked to poll one.
    pub fn new(read_timeout: Option<Duration>, receive_only: bool) -> (driver: Self)
        ensures
            driver@ == Driver::start(read_timeout, receive_only),
            driver@.wf(),
    {
        let timeout = resolve_timeout(read_timeout);
        NativeDriver {
            phase: Phase::Connecting,
            awaiting: Awaiting::Handshake,
            worked: false,
            receive_only,
            timeout,
            failure: None,
            emitted: Ghost(Seq::empty()),
        }
    }

    /// Where the connection stands.
    pub fn phase(&self) -> (phase: Phase)
        ensures
            phase == self@.phase,
    {
        self.phase
    }

    /// The report that the driver waits for.
    pub fn awaiting(&self) -> (awaiting: Awaiting)
        ensures
            awaiting == self@.awaiting,
    {
        self.awaiting
    }

    /// Whether `input` is the report that the driver waits for. The worker
    /// asks before it calls `step` with a report of its own making.
    pub fn accepts(&self, input: &Input) -> (ok: bool)
        ensures
            ok == self@.accepts(*input),
    {
        match input {
            Input::Handshake(_) => matches!(self.awaiting, Awaiting::Handshake),
            Input::TimeoutSet(_) => matches!(self.awaiting, Awaiting::TimeoutSet),
            Input::Verdict(_) => matches!(self.awaiting, Awaiting::Verdict),
            Input::Outgoing(found) => {
                let fit = match found {
                    Poll::Message(msg) => msg.is_sendable(),
                    _ => true,
                };
                fit && matches!(self.awaiting, Awaiting::Outgoing)
            },
            Input::Written(_) => matches!(self.awaiting, Awaiting::Written),
            Input::Incoming(_) => matches!(self.awaiting, Awaiting::Incoming),
            Input::CloseResult(_) => matches!(self.awaiting, Awaiting::CloseResult),
            Input::Completed => matches!(self.awaiting, Awaiting::Shutdown | Awaiting::Resumed),
        }
    }

    fn emit(&mut self, event: WsEvent) -> (action: Action)
        ensures
            (final(self)@, action) == old(self)@.emit(event),
    {
        self.awaiting = Awaiting::Verdict;
        self.emitted = Ghost(self.emitted@.push(event));
        Action::Emit(event)
    }

    fn fail(&mut self, stage: Stage, cause: String) -> (action: Action)
        ensures
            (final(self)@, action) == old(self)@.fail(stage, cause),
    {
        self.phase = Phase::Failed;
        self.awaiting = Awaiting::Nothing;
        Action::Finish(Err(Failure { stage, cause }))
    }

    fn finish(&mut self) -> (action: Action)
        ensures
            (final(self)@, action) == old(self)@.finish(),
    {
        self.phase = Phase::Closed;
        self.awaiting = Awaiting::Nothing;
        Action::Finish(Ok(()))
    }

    fn begin_round(&mut self) -> (action: Action)
        ensures
            (final(self)@, action) == old(self)@.begin_round(),
    {
        self.phase = Phase::Open;
        self.worked = false;
        if self.receive_only {
            self.awaiting = Awaiting::Incoming;
            Action::Read
        } else {
            self.awaiting = Awaiting::Outgoing;
            Action::PollOutgoing
        }
    }

    /// Takes the worker's report and answers with what to do next.
    ///
    /// The events that the answers emit come in the order that `Driver::wf`
    /// describes: `Opened` first and once, `Closed` last and once.
    pub fn step(&mut self, input: Input) -> (action: Action)
        requires
            old(self)@.wf(),
            old(self)@.accepts(input),
        ensures
            final(self)@ == old(self)@.next(input).0,
            action == old(self)@.next(input).1,
            final(self)@.wf(),
    {
        match input {
            Input::Handshake(Ok(_)) => match self.timeout {
                Some(d) => {
                    self.awaiting = Awaiting::TimeoutSet;
                    Action::SetReadTimeout(d)
                },
                None => self.emit(WsEvent::Opened),
            },
            Input::Handshake(Err(cause)) => self.fail(Stage::Connect, cause),
            Input::TimeoutSet(Ok(_)) => self.emit(WsEvent::Opened),
            Input::TimeoutSet(Err(cause)) => self.fail(Stage::ReadTimeout, cause),
            Input::Verdict(verdict) => {
                if matches!(self.phase, Phase::Closed) {
                    self.finish()
                } else if matches!(verdict, ControlFlow::Break(_)) {
                    self.phase = Phase::Closing;
                    self.awaiting = Awaiting::CloseResult;
                    Action::Close
                } else {
                    self.begin_round()
                }
            },
            Input::Outgoing(Poll::Message(msg)) => {
                self.awaiting = Awaiting::Written;
                Action::Write(crate::message::outgoing_frame(msg))
            },
            Input::Outgoing(Poll::Empty) => {
                self.awaiting = Awaiting::Incoming;
                Action::Read
            },
            Input::Outgoing(Poll::Disconnected) => {
                self.phase = Phase::Closing;
                self.awaiting = Awaiting::Shutdown;
                Action::Shutdown
            },
            Input::Written(Ok(_)) => {
                self.worked = true;
                self.awaiting = Awaiting::Incoming;
                Action::Read
            },
            Input::Written(Err(cause)) => {
                self.phase = Phase::Failed;
                self.awaiting = Awaiting::Shutdown;
                self.failure = Some(Failure { stage: Stage::Send, cause });
                Action::Shutdown
            },
            Input::Incoming(ReadOutcome::Frame(frame)) => {
                let closing = matches!(frame, Frame::Close);
                match crate::message::incoming_message(frame) {
                    Some(msg) => self.emit(WsEvent::Message(msg)),
                    None => {
                        if closing {
                            self.phase = Phase::Closed;
                            self.emit(WsEvent::Closed)
                        } else {
                            self.begin_round()
                        }
                    },
                }
            },
            Input::Incoming(ReadOutcome::Failed { kind, description }) => {
                if !matches!(kind, IoKind::WouldBlock | IoKind::TimedOut) {
                    self.fail(Stage::Read, description)
                } else if self.worked {
                    self.begin_round()
                } else {
                    self.awaiting = Awaiting::Resumed;
                    Action::Yield
                }
            },
            Input::CloseResult(Ok(_)) => self.finish(),
            Input::CloseResult(Err(cause)) => self.fail(Stage::Close, cause),
            Input::Completed => {
                if matches!(self.awaiting, Awaiting::Resumed) {
                    self.begin_round()
                } else {
                    match self.failure.take() {
                        Some(failure) => {
                            self.awaiting = Awaiting::Nothing;
                            Action::Finish(Err(failure))
                        },
                        None => self.finish(),
                    }
                }
            },
        }
    }
}

impl Driver {
    /// The driver after each report of `inputs` in turn.
    pub open spec fn after(self, inputs: Seq<Input>) -> Driver
        decreases inputs.len(),
    {
        if inputs.len() == 0 {
            self
        } else {
            self.next(inputs[0]).0.after(inputs.subrange(1, inputs.len() as int))
        }
    }

    /// The frames that the driver asks to write along a run, in order.
    pub open spec fn written(self, inputs: Seq<Input>) -> Seq<Frame>
        decreases inputs.len(),
    {
        if inputs.len() == 0 {
            Seq::empty()
        } else {
            let rest = self.next(inputs[0]).0.written(inputs.subrange(1, inputs.len() as int));
            match self.next(inputs[0]).1 {
                Action::Write(frame) => seq![frame] + rest,
                _ => rest,
            }
        }
    }

    /// The events that the driver hands to the handler along a run, in order.
    pub open spec fn handed(self, inputs: Seq<Input>) -> Seq<WsEvent>
        decreases inputs.len(),
    {
        if inputs.len() == 0 {
            Seq::empty()
        } else {
            let rest = self.next(inputs[0]).0.handed(inputs.subrange(1, inputs.len() as int));
            match self.next(inputs[0]).1 {
                Action::Emit(event) => seq![event] + rest,
                _ => rest,
            }
        }
    }

    /// The messages that a run's reports took from the outgoing queue, in
    /// order.
    pub open spec fn polled(inputs: Seq<Input>) -> Seq<WsMessage>
        decreases inputs.len(),
    {
        if inputs.len() == 0 {
            Seq::empty()
        } else {
            let rest = Self::polled(inputs.subrange(1, inputs.len() as int));
            match inputs[0] {
                Input::Outgoing(Poll::Message(msg)) => seq![msg] + rest,
                _ => rest,
            }
        }
    }

    /// Whether each report of `inputs` is the one awaited when it comes.
    pub open spec fn admits(self, inputs: Seq<Input>) -> bool
        decreases inputs.len(),
    {
        inputs.len() == 0 || (self.accepts(inputs[0]) && self.next(inputs[0]).0.admits(
            inputs.subrange(1, inputs.len() as int),
        ))
    }
}

/// One step keeps a driver well formed, hands the handler at most one event,
/// which is the one that the action names, and asks for a report that the
/// next step accepts.
pub proof fn lemma_step_keeps_order(s: Driver, input: Input)
    requires
        s.wf(),
        s.accepts(input),
    ensures
        s.next(input).0.wf(),
        s.next(input).1 matches Action::Emit(event) ==> s.next(input).0.emitted == s.emitted.push(
            event,
        ),
        !(s.next(input).1 is Emit) ==> s.next(input).0.emitted == s.emitted,
        s.next(input).1 is Finish <==> s.next(input).0.finished(),
        forall|answer: Input|
            s.next(input).0.accepts(answer) ==> Driver::answers(s.next(input).1, answer),
{
}

/// Whatever the network and the handler do, a connection's events keep their
/// order: the driver is well formed after every run from the start.
pub proof fn lemma_every_run_keeps_order(s: Driver, inputs: Seq<Input>)
    requires
        s.wf(),
        s.admits(inputs),
    ensures
        s.after(inputs).wf(),
    decreases inputs.len(),
{
    if inputs.len() > 0 {
        lemma_step_keeps_order(s, inputs[0]);
        lemma_every_run_keeps_order(s.next(inputs[0]).0, inputs.subrange(1, inputs.len() as int));
    }
}

/// `Opened` is handed to the handler at most once, and before any `Message`
/// or `Closed`: it can only be the first event, and whenever there is any
/// event the first one is `Opened`. Nothing is emitted while the handshake
/// has not succeeded.
pub proof fn lemma_opened_once_and_first(s: Driver)
    requires
        s.wf(),
    ensures
        forall|i: int| 0 <= i < s.emitted.len() && (#[trigger] s.emitted[i]) is Opened ==> i == 0,
        forall|i: int|
            0 <= i < s.emitted.len() && !((#[trigger] s.emitted[i]) is Opened) ==> i > 0
                && s.emitted[0] is Opened,
        s.awaiting is Handshake || s.awaiting is TimeoutSet ==> s.emitted.len() == 0,
{
}

/// `Closed` is handed to the handler at most once and is the last event: once
/// it is out, the only report still awaited is the handler's verdict, and
/// whatever that is the worker finishes in order, so that not even a final
/// `Error` follows.
pub proof fn lemma_closed_once_and_last(s: Driver, input: Input)
    requires
        s.wf(),
        exists|i: int| 0 <= i < s.emitted.len() && (#[trigger] s.emitted[i]) is Closed,
    ensures
        forall|i: int|
            0 <= i < s.emitted.len() && (#[trigger] s.emitted[i]) is Closed ==> i
                == s.emitted.len() - 1,
        s.phase is Closed,
        s.accepts(input) ==> s.next(input).1 == Action::Finish(Ok(())) && s.next(input).0.emitted
            == s.emitted,
{
}

/// A connection ends once: a driver that has told the worker to finish
/// accepts no further report, so that nothing is emitted after the end and at
/// most one final `Error` is owed.
pub proof fn lemma_finish_is_final(s: Driver, input: Input)
    requires
        s.finished(),
    ensures
        !s.accepts(input),
{
}

/// A handler that answers `Break` is never called again: the driver starts the
/// close handshake at once, finishes when that has ended, and emits nothing on
/// the way.
pub proof fn lemma_break_ends_connection(s: Driver, closed: Result<(), String>)
    requires
        s.wf(),
        s.awaiting is Verdict,
        !(s.phase is Closed),
    ensures
        s.next(Input::Verdict(ControlFlow::Break(()))).1 == Action::Close,
        s.next(Input::Verdict(ControlFlow::Break(()))).0.next(Input::CloseResult(closed)).1 is Finish,
        s.next(Input::Verdict(ControlFlow::Break(()))).0.next(Input::CloseResult(closed)).0.emitted
            == s.emitted,
{
}

/// A sender that was dropped ends the connection without an error: on a
/// disconnected queue the driver shuts the socket down and finishes in order,
/// and emits nothing on the way.
pub proof fn lemma_disconnect_is_quiet(s: Driver)
    requires
        s.wf(),
        s.awaiting is Outgoing,
    ensures
        s.next(Input::Outgoing(Poll::Disconnected)).1 == Action::Shutdown,
        s.next(Input::Outgoing(Poll::Disconnected)).0.phase is Closing,
        s.next(Input::Outgoing(Poll::Disconnected)).0.next(Input::Completed) == (
            Driver { phase: Phase::Closed, awaiting: Awaiting::Nothing, ..s },
            Action::Finish(Ok(())),
        ),
{
}

/// The driver transmits what was submitted, in the order of submission: along
/// any run, the frames that it asks to write are the frames of the messages
/// that its reports took from the outgoing queue, one for one and in order.
pub proof fn lemma_writes_follow_polls(s: Driver, inputs: Seq<Input>)
    ensures
        s.written(inputs) == Driver::polled(inputs).map_values(|m: WsMessage| frame_of(m)),
    decreases inputs.len(),
{
    let frames = Driver::polled(inputs).map_values(|m: WsMessage| frame_of(m));
    if inputs.len() == 0 {
        assert(s.written(inputs) =~= frames);
    } else {
        let rest = inputs.subrange(1, inputs.len() as int);
        lemma_writes_follow_polls(s.next(inputs[0]).0, rest);
        assert(s.written(inputs) =~= frames);
    }
}

/// Whether the reports on the outgoing queue in `inputs` are what a worker
/// finds that looks into `q` each time, while nobody submits anything.
pub open spec fn polls_from(q: Outgoing, inputs: Seq<Input>) -> bool
    decreases inputs.len(),
{
    if inputs.len() == 0 {
        true
    } else {
        let rest = inputs.subrange(1, inputs.len() as int);
        match inputs[0] {
            Input::Outgoing(found) => found == q.front() && polls_from(q.after_poll(), rest),
            _ => polls_from(q, rest),
        }
    }
}

/// Looks into a queue take the messages that wait in it, oldest first.
pub proof fn lemma_polled_is_a_prefix(q: Outgoing, inputs: Seq<Input>)
    requires
        polls_from(q, inputs),
    ensures
        Driver::polled(inputs).len() <= q.pending.len(),
        Driver::polled(inputs) == q.pending.subrange(0, Driver::polled(inputs).len() as int),
    decreases inputs.len(),
{
    let taken = Driver::polled(inputs);
    if inputs.len() == 0 {
        assert(taken =~= q.pending.subrange(0, 0));
    } else {
        let rest = inputs.subrange(1, inputs.len() as int);
        match inputs[0] {
            Input::Outgoing(found) => {
                lemma_polled_is_a_prefix(q.after_poll(), rest);
                if q.pending.len() > 0 {
                    assert(taken == seq![q.pending[0]] + Driver::polled(rest));
                    assert(taken =~= q.pending.subrange(0, taken.len() as int));
                } else {
                    assert(taken == Driver::polled(rest));
                    assert(taken =~= q.pending.subrange(0, taken.len() as int));
                }
            },
            _ => {
                lemma_polled_is_a_prefix(q, rest);
            },
        }
    }
}

/// First in, first out, from submission to the wire: whatever else happens
/// on a connection, the frames that the driver asks to write while it polls
/// a queue are the frames of the messages that waited in it, in the order of
/// their submission, with none left out before the last one written.
pub proof fn lemma_transmits_in_submission_order(s: Driver, q: Outgoing, inputs: Seq<Input>)
    requires
        polls_from(q, inputs),
    ensures
        s.written(inputs).len() <= q.pending.len(),
        s.written(inputs) == q.pending.subrange(0, s.written(inputs).len() as int).map_values(
            |m: WsMessage| frame_of(m),
        ),
{
    lemma_polled_is_a_prefix(q, inputs);
    lemma_writes_follow_polls(s, inputs);
}

/// The handler is handed the events in the order in which the driver
/// produced them: after any run, the driver's record of what it emitted is
/// what it had before, followed by what it handed out along the run.
pub proof fn lemma_emitted_is_what_was_handed(s: Driver, inputs: Seq<Input>)
    requires
        s.wf(),
        s.admits(inputs),
    ensures
        s.after(inputs).emitted == s.emitted + s.handed(inputs),
    decreases inputs.len(),
{
    if inputs.len() == 0 {
        assert(s.emitted + s.handed(inputs) =~= s.emitted);
    } else {
        let rest = inputs.subrange(1, inputs.len() as int);
        lemma_step_keeps_order(s, inputs[0]);
        lemma_emitted_is_what_was_handed(s.next(inputs[0]).0, rest);
        assert(s.after(inputs).emitted =~= s.emitted + s.handed(inputs));
    }
}

/// What is taken from the outgoing queue is written as it is, and a frame
/// that is read is delivered as the message it carries: a payload that a
/// peer echoes arrives byte for byte.
pub proof fn lemma_echo_is_delivered(s: Driver, msg: WsMessage)
    requires
        msg.sendable(),
    ensures
        s.next(Input::Outgoing(Poll::Message(msg))).1 == Action::Write(frame_of(msg)),
        s.next(Input::Incoming(ReadOutcome::Frame(frame_of(msg)))).1 == Action::Emit(
            WsEvent::Message(msg),
        ),
{
}

/// A read that fails for any reason but a timeout, such as a frame over the
/// configured size, ends the connection with that failure; no message is
/// delivered in its place. A read that only timed out is no event at all.
pub proof fn lemma_read_failures(s: Driver, kind: IoKind, description: String)
    requires
        s.wf(),
        s.awaiting is Incoming,
    ensures
        !benign(kind) ==> s.next(Input::Incoming(ReadOutcome::Failed { kind, description })).1
            == Action::Finish(Err(Failure { stage: Stage::Read, cause: description })),
        benign(kind) ==> {
            let action = s.next(Input::Incoming(ReadOutcome::Failed { kind, description })).1;
            action == Action::Yield || action == Action::PollOutgoing || action == Action::Read
        },
        s.next(Input::Incoming(ReadOutcome::Failed { kind, description })).0.emitted == s.emitted,
{
}

} // verus!
