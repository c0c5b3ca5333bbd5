//! The outgoing queue and the sender that feeds it.
//!
//! The queue is unbounded and first-in, first-out. The caller's side of it is
//! a resource with three states: open, closed (the driver is to wind down) and
//! forgotten (the caller is gone, the connection stays).

use crate::message::WsMessage;
use std::collections::VecDeque;
use vstd::prelude::*;

verus! {

/// The caller's hold on the outgoing queue.
#[derive(Clone, Copy, Debug, PartialEq, Eq)]
pub enum Producer {
    /// Messages are accepted.
    Open,
    /// The caller closed the sender or dropped it: nothing more will come.
    Closed,
    /// The caller let go without closing: nothing more will come, and the
    /// driver is never told.
    Forgotten,
}

/// What the driver finds when it looks into the outgoing queue.
#[derive(Clone, Debug, PartialEq, Eq)]
pub enum Poll {
    /// The oldest message that was waiting.
    Message(WsMessage),
    /// Nothing is waiting, more may come.
    Empty,
    /// Nothing is waiting and nothing will come: the sender was closed.
    Disconnected,
}

/// The outgoing queue as a value: who holds it, what waits in it, and whether
/// a driver still reads from it.
pub struct Outgoing {
    pub producer: Producer,
    pub pending: Seq<WsMessage>,
    pub attached: bool,
}

impl Outgoing {
    /// A fresh queue: open, empty, with its driver attached.
    pub open spec fn fresh() -> Outgoing {
        Outgoing { producer: Producer::Open, pending: Seq::empty(), attached: true }
    }

    /// Only sendable messages wait in the queue.
    pub open spec fn wf(self) -> bool {
        forall|i: int| 0 <= i < self.pending.len() ==> (#[trigger] self.pending[i]).sendable()
    }

    /// Whether a message submitted now is queued.
    pub open spec fn accepts(self) -> bool {
        self.producer is Open && self.attached
    }

    /// The queue after `msg` was submitted: appended where the queue accepts,
    /// unchanged where it does not.
    pub open spec fn send(self, msg: WsMessage) -> Outgoing {
        if self.accepts() {
            Outgoing { pending: self.pending.push(msg), ..self }
        } else {
            self
        }
    }

    /// The queue after the caller closed it. A forgotten queue stays forgotten.
    pub open spec fn close(self) -> Outgoing {
        if self.producer is Open {
            Outgoing { producer: Producer::Closed, ..self }
        } else {
            self
        }
    }

    /// The queue after the caller let go of it without closing.
    pub open spec fn forget(self) -> Outgoing {
        if self.producer is Open {
            Outgoing { producer: Producer::Forgotten, ..self }
        } else {
            self
        }
    }

    /// The queue after its driver has ended: what waited is lost with the
    /// connection, and nothing is accepted any more.
    pub open spec fn detach(self) -> Outgoing {
        Outgoing { attached: false, pending: Seq::empty(), ..self }
    }

    /// What the driver finds now.
    pub open spec fn front(self) -> Poll {
        if self.pending.len() > 0 {
            Poll::Message(self.pending[0])
        } else if self.producer is Closed {
            Poll::Disconnected
        } else {
            Poll::Empty
        }
    }

    /// The queue after the driver looked into it once.
    pub open spec fn after_poll(self) -> Outgoing {
        if self.pending.len() > 0 {
            Outgoing { pending: self.pending.subrange(1, self.pending.len() as int), ..self }
        } else {
            self
        }
    }

    /// The queue after every message of `msgs` was submitted, first to last.
    pub open spec fn send_all(self, msgs: Seq<WsMessage>) -> Outgoing
        decreases msgs.len(),
    {
        if msgs.len() == 0 {
            self
        } else {
            self.send(msgs[0]).send_all(msgs.subrange(1, msgs.len() as int))
        }
    }

    /// What the driver finds in `n` looks, one after the other.
    pub open spec fn polls(self, n: nat) -> Seq<Poll>
        decreases n,
    {
        if n == 0 {
            Seq::empty()
        } else {
            seq![self.front()] + self.after_poll().polls((n - 1) as nat)
        }
    }
}

/// The handle through which the caller submits outgoing messages, together
/// with the queue behind it.
///
/// The caller submits with `send` and lets go with `close` or `forget`; the
/// driver takes with `poll` and marks its own end with `detach`.
pub struct WsSender {
    producer: Producer,
    pending: VecDeque<WsMessage>,
    attached: bool,
}

impl View for WsSender {
    type V = Outgoing;

    closed spec fn view(&self) -> Outgoing {
        Outgoing { producer: self.producer, pending: self.pending@, attached: self.attached }
    }
}

impl WsSender {
    /// An open sender on an empty queue.
    pub fn new() -> (sender: Self)
        ensures
            sender@ == Outgoing::fresh(),
            sender@.wf(),
    {
        WsSender { producer: Producer::Open, pending: VecDeque::new(), attached: true }
    }

    /// Submits a message. Never blocks and never fails: on a sender that was
    /// closed or forgotten, and on one whose driver has ended, nothing happens.
    ///
    /// Only `Binary` and `Text` may be submitted.
    pub fn send(&mut self, msg: WsMessage)
        requires
            old(self)@.wf(),
            msg.sendable(),
        ensures
            final(self)@ == old(self)@.send(msg),
            final(self)@.wf(),
    {
        let open = match self.producer {
            Producer::Open => true,
            _ => false,
        };
        if open && self.attached {
            self.pending.push_back(msg);
        }
    }

    /// Closes the sender: what was submitted stays queued, nothing more is
    /// accepted, and the driver finds the queue disconnected once it is empty.
    pub fn close(&mut self)
        ensures
            final(self)@ == old(self)@.close(),
            old(self)@.wf() ==> final(self)@.wf(),
    {
        match self.producer {
            Producer::Open => {
                self.producer = Producer::Closed;
            },
            _ => {},
        }
    }

    /// Lets go of the sender without closing the connection: nothing more is
    /// accepted, and the driver never finds the queue disconnected.
    pub fn forget(&mut self)
        ensures
            final(self)@ == old(self)@.forget(),
            old(self)@.wf() ==> final(self)@.wf(),
    {
        match self.producer {
            Producer::Open => {
                self.producer = Producer::Forgotten;
            },
            _ => {},
        }
    }

    /// The driver's look into the queue: takes the oldest waiting message, or
    /// says why there is none.
    pub fn poll(&mut self) -> (found: Poll)
        ensures
            found == old(self)@.front(),
            final(self)@ == old(self)@.after_poll(),
            old(self)@.wf() ==> final(self)@.wf(),
            old(self)@.wf() ==> (found matches Poll::Message(msg) ==> msg.sendable()),
    {
        match self.pending.pop_front() {
            Some(msg) => Poll::Message(msg),
            None => match self.producer {
                Producer::Closed => Poll::Disconnected,
                _ => Poll::Empty,
            },
        }
    }

    /// The driver's farewell: from now on submitted messages are dropped.
    /// What still waits is lost with the connection.
    pub fn detach(&mut self)
        ensures
            final(self)@ == old(self)@.detach(),
            final(self)@.wf(),
    {
        self.attached = false;
        self.pending.clear();
    }

    /// How many messages wait to be written.
    pub fn pending(&self) -> (n: usize)
        ensures
            n == self@.pending.len(),
    {
        self.pending.len()
    }

    /// Whether a message submitted now would be queued.
    pub fn is_open(&self) -> (open: bool)
        ensures
            open == self@.accepts(),
    {
        let open = match self.producer {
            Producer::Open => true,
            _ => false,
        };
        open && self.attached
    }
}

/// First in, first out: after any messages were submitted to a fresh queue,
/// as many looks by the driver find exactly those messages, in the order in
/// which they were submitted.
pub proof fn lemma_sends_leave_in_order(msgs: Seq<WsMessage>)
    ensures
        Outgoing::fresh().send_all(msgs).polls(msgs.len()) == msgs.map_values(
            |m: WsMessage| Poll::Message(m),
        ),
{
    lemma_send_all_appends(Outgoing::fresh(), msgs);
    let q = Outgoing::fresh().send_all(msgs);
    assert(q.pending =~= msgs);
    lemma_polls_take_from_front(q, msgs.len());
    assert(q.pending.subrange(0, msgs.len() as int) =~= msgs);
}

/// Submitting to an accepting queue appends, in order, behind what waits.
pub proof fn lemma_send_all_appends(q: Outgoing, msgs: Seq<WsMessage>)
    requires
        q.accepts(),
    ensures
        q.send_all(msgs) == (Outgoing { pending: q.pending + msgs, ..q }),
    decreases msgs.len(),
{
    if msgs.len() == 0 {
        assert(q.pending + msgs =~= q.pending);
    } else {
        let rest = msgs.subrange(1, msgs.len() as int);
        lemma_send_all_appends(q.send(msgs[0]), rest);
        assert(q.pending.push(msgs[0]) + rest =~= q.pending + msgs);
    }
}

/// While messages wait, the driver's looks find them oldest first, whatever
/// the caller has done to the sender in the meantime.
pub proof fn lemma_polls_take_from_front(q: Outgoing, n: nat)
    requires
        n <= q.pending.len(),
    ensures
        q.polls(n) == q.pending.subrange(0, n as int).map_values(|m: WsMessage| Poll::Message(m)),
    decreases n,
{
    let first = q.pending.subrange(0, n as int).map_values(|m: WsMessage| Poll::Message(m));
    if n == 0 {
        assert(q.polls(n) =~= first);
    } else {
        lemma_polls_take_from_front(q.after_poll(), (n - 1) as nat);
        assert(q.polls(n) =~= first);
    }
}

/// Closing a sender with messages still waiting is quiet: they stay in the
/// queue, the driver finds each of them in order, and only then finds the
/// queue disconnected.
pub proof fn lemma_close_keeps_pending(q: Outgoing)
    requires
        q.wf(),
    ensures
        q.close().wf(),
        q.close().pending == q.pending,
        q.close().polls(q.pending.len()) == q.pending.map_values(|m: WsMessage| Poll::Message(m)),
        q.producer is Open && q.pending.len() == 0 ==> q.close().front() == Poll::Disconnected,
{
    lemma_polls_take_from_front(q.close(), q.pending.len());
    assert(q.pending.subrange(0, q.pending.len() as int) =~= q.pending);
}

/// Once the connection is over, sending is a no-op: whatever is submitted
/// after the driver has ended is dropped, and so is whatever is submitted
/// after the sender was closed or forgotten.
pub proof fn lemma_sends_after_the_end_are_dropped(q: Outgoing, msg: WsMessage)
    ensures
        q.detach().send(msg) == q.detach(),
        q.producer is Open ==> q.close().send(msg) == q.close(),
        q.producer is Open ==> q.forget().send(msg) == q.forget(),
        !q.accepts() ==> q.send(msg) == q,
{
}

} // verus!
