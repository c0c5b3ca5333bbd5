//! The event channel and the receiver that drains it.
//!
//! Every event passes the handler before the caller sees it. The handler that
//! comes with a receiver queues the event for `try_recv` and says whether the
//! caller's wake-up hook is to fire; once the receiver is gone it answers
//! `Break`, which ends the connection.

use crate::message::WsEvent;
use std::collections::VecDeque;
use std::ops::ControlFlow;
use vstd::prelude::*;

verus! {

/// The event channel as a value: what waits for the caller, oldest first, and
/// whether the caller still listens.
pub struct Channel {
    pub queued: Seq<WsEvent>,
    pub attached: bool,
}

/// What the handler did with one event.
#[derive(Debug, PartialEq, Eq)]
pub struct Delivery {
    /// Whether the connection goes on.
    pub flow: ControlFlow<()>,
    /// Whether the caller's wake-up hook is to fire now.
    pub wake: bool,
}

impl Channel {
    /// A fresh channel: empty, with a listening caller.
    pub open spec fn fresh() -> Channel {
        Channel { queued: Seq::empty(), attached: true }
    }

    /// The channel after the handler was given `event`: queued behind what
    /// waits while the caller listens, dropped otherwise.
    pub open spec fn deliver(self, event: WsEvent) -> Channel {
        if self.attached {
            Channel { queued: self.queued.push(event), ..self }
        } else {
            self
        }
    }

    /// What `try_recv` returns now.
    pub open spec fn front(self) -> Option<WsEvent> {
        if self.queued.len() > 0 {
            Some(self.queued[0])
        } else {
            None
        }
    }

    /// The channel after one `try_recv`.
    pub open spec fn after_recv(self) -> Channel {
        if self.queued.len() > 0 {
            Channel { queued: self.queued.subrange(1, self.queued.len() as int), ..self }
        } else {
            self
        }
    }

    /// The channel after the handler was given each event of `events` in turn.
    pub open spec fn deliver_all(self, events: Seq<WsEvent>) -> Channel
        decreases events.len(),
    {
        if events.len() == 0 {
            self
        } else {
            self.deliver(events[0]).deliver_all(events.subrange(1, events.len() as int))
        }
    }

    /// What `n` calls of `try_recv` return, one after the other.
    pub open spec fn drain(self, n: nat) -> Seq<Option<WsEvent>>
        decreases n,
    {
        if n == 0 {
            Seq::empty()
        } else {
            seq![self.front()] + self.after_recv().drain((n - 1) as nat)
        }
    }
}

/// The caller's end of the event channel.
pub struct WsReceiver {
    events: VecDeque<WsEvent>,
    attached: bool,
}

/// The handler that feeds a `WsReceiver`.
#[derive(Clone, Copy, Debug, PartialEq, Eq)]
pub struct EventHandler {
    wakes: bool,
}

impl View for WsReceiver {
    type V = Channel;

    closed spec fn view(&self) -> Channel {
        Channel { queued: self.events@, attached: self.attached }
    }
}

impl EventHandler {
    /// Whether a wake-up hook is to fire for each event that is queued.
    pub closed spec fn wakes(self) -> bool {
        self.wakes
    }

    /// Takes one event from the driver. While the caller listens the event is
    /// queued behind those that wait, the wake-up hook is due if there is one,
    /// and the answer is `Continue`. Once the receiver is gone the event is
    /// dropped and the answer is `Break`.
    pub fn on_event(&self, receiver: &mut WsReceiver, event: WsEvent) -> (delivery: Delivery)
        ensures
            final(receiver)@ == old(receiver)@.deliver(event),
            delivery.wake == (self.wakes() && old(receiver)@.attached),
            delivery.flow == if old(receiver)@.attached {
                ControlFlow::<()>::Continue(())
            } else {
                ControlFlow::<()>::Break(())
            },
    {
        if receiver.attached {
            receiver.events.push_back(event);
            Delivery { flow: ControlFlow::Continue(()), wake: self.wakes }
        } else {
            Delivery { flow: ControlFlow::Break(()), wake: false }
        }
    }
}

impl WsReceiver {
    /// A receiver on a fresh channel, and the handler that feeds it. No
    /// wake-up is asked for.
    pub fn new() -> (pair: (Self, EventHandler))
        ensures
            pair.0@ == Channel::fresh(),
            !pair.1.wakes(),
    {
        (WsReceiver { events: VecDeque::new(), attached: true }, EventHandler { wakes: false })
    }

    /// A receiver on a fresh channel, and the handler that feeds it and asks
    /// for the caller's wake-up hook on every event that it queues.
    pub fn new_with_callback() -> (pair: (Self, EventHandler))
        ensures
            pair.0@ == Channel::fresh(),
            pair.1.wakes(),
    {
        (WsReceiver { events: VecDeque::new(), attached: true }, EventHandler { wakes: true })
    }

    /// Takes the oldest event that waits, if any. Never blocks.
    pub fn try_recv(&mut self) -> (event: Option<WsEvent>)
        ensures
            event == old(self)@.front(),
            final(self)@ == old(self)@.after_recv(),
    {
        self.events.pop_front()
    }

    /// The caller has let go of the receiver: what waits stays, nothing more
    /// is queued, and the handler answers `Break` from now on.
    pub fn detach(&mut self)
        ensures
            final(self)@ == (Channel { attached: false, ..old(self)@ }),
    {
        self.attached = false;
    }

    /// How many events wait.
    pub fn pending(&self) -> (n: usize)
        ensures
            n == self@.queued.len(),
    {
        self.events.len()
    }
}

/// Delivering to a listening caller appends, in order, behind what waits.
pub proof fn lemma_deliver_all_appends(c: Channel, events: Seq<WsEvent>)
    requires
        c.attached,
    ensures
        c.deliver_all(events) == (Channel { queued: c.queued + events, ..c }),
    decreases events.len(),
{
    if events.len() == 0 {
        assert(c.queued + events =~= c.queued);
    } else {
        let rest = events.subrange(1, events.len() as int);
        lemma_deliver_all_appends(c.deliver(events[0]), rest);
        assert(c.queued.push(events[0]) + rest =~= c.queued + events);
    }
}

/// `try_recv` hands out what waits oldest first, and `None` from then on.
pub proof fn lemma_drain_takes_from_front(c: Channel, n: nat)
    ensures
        c.drain(n).len() == n,
        forall|i: int|
            0 <= i < n ==> #[trigger] c.drain(n)[i] == if i < c.queued.len() {
                Some(c.queued[i])
            } else {
                None
            },
    decreases n,
{
    if n > 0 {
        lemma_drain_takes_from_front(c.after_recv(), (n - 1) as nat);
        assert forall|i: int| 0 <= i < n implies #[trigger] c.drain(n)[i] == if i
            < c.queued.len() {
            Some(c.queued[i])
        } else {
            None
        } by {
            if i > 0 {
                assert(c.drain(n)[i] == c.after_recv().drain((n - 1) as nat)[i - 1]);
            }
        }
    }
}

/// The caller sees the events in the order in which the driver produced them:
/// after any events were delivered to a fresh channel, as many calls of
/// `try_recv` return exactly those events, in that order.
pub proof fn lemma_events_arrive_in_order(events: Seq<WsEvent>)
    ensures
        Channel::fresh().deliver_all(events).drain(events.len()) == events.map_values(
            |e: WsEvent| Some(e),
        ),
{
    lemma_deliver_all_appends(Channel::fresh(), events);
    let c = Channel::fresh().deliver_all(events);
    assert(c.queued =~= events);
    lemma_drain_takes_from_front(c, events.len());
    assert(c.drain(events.len()) =~= events.map_values(|e: WsEvent| Some(e)));
}

} // verus!
