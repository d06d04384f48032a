//! The bounded queue between the feed and the strategy engine.
//!
//! Sending never waits: an event that finds the queue full is dropped and the
//! queue keeps what it held, oldest first. Receiving hands events out in
//! arrival order; an empty queue says whether more may come or the feed has
//! ended. The queue itself does not block: whoever shares it between tasks
//! guards it with a lock and parks the receiver while it is empty.

use crate::event::TradeEvent;
use std::collections::VecDeque;
use vstd::prelude::*;

verus! {

/// What became of an event handed to `try_send`.
#[derive(Clone, Copy, Debug, PartialEq, Eq, Structural)]
pub enum SendOutcome {
    /// The event is in the queue.
    Sent,
    /// The queue was full; the event is dropped.
    Full,
    /// The queue was closed; the event is dropped.
    Closed,
}

/// What `recv` found.
#[derive(Debug)]
pub enum Received {
    /// The oldest event of the queue, now removed from it.
    Event(TradeEvent),
    /// Nothing is queued, but the queue is open: more may come.
    Empty,
    /// Nothing is queued and the queue is closed: the stream has ended.
    Closed,
}

/// A queue that held `items` with room for `capacity`, after `event` was
/// offered: taken at the back if there is room, dropped if not.
pub open spec fn offered(items: Seq<TradeEvent>, capacity: nat, event: TradeEvent) -> Seq<
    TradeEvent,
> {
    if items.len() < capacity {
        items.push(event)
    } else {
        items
    }
}

/// The queue after each of `events` was offered in order and none was
/// received.
pub open spec fn offered_all(items: Seq<TradeEvent>, capacity: nat, events: Seq<TradeEvent>) -> Seq<
    TradeEvent,
>
    decreases events.len(),
{
    if events.len() == 0 {
        items
    } else {
        offered(offered_all(items, capacity, events.drop_last()), capacity, events.last())
    }
}

/// How many of `events`, offered in order with none received, were dropped.
pub open spec fn dropped_all(items: Seq<TradeEvent>, capacity: nat, events: Seq<TradeEvent>) -> nat
    decreases events.len(),
{
    if events.len() == 0 {
        0
    } else {
        dropped_all(items, capacity, events.drop_last()) + if offered_all(
            items,
            capacity,
            events.drop_last(),
        ).len() < capacity {
            0nat
        } else {
            1nat
        }
    }
}

/// With no receiver draining it, a queue keeps the oldest events and drops
/// the rest: after any number of offers it holds what it held followed by
/// the offered events, cut off at its capacity, and every event beyond that
/// was dropped.
pub proof fn lemma_backpressure(items: Seq<TradeEvent>, capacity: nat, events: Seq<TradeEvent>)
    requires
        items.len() <= capacity,
    ensures
        offered_all(items, capacity, events) == if items.len() + events.len() <= capacity {
            items + events
        } else {
            (items + events).take(capacity as int)
        },
        dropped_all(items, capacity, events) == if items.len() + events.len() <= capacity {
            0
        } else {
            items.len() + events.len() - capacity
        },
    decreases events.len(),
{
    if events.len() == 0 {
        assert(items + events =~= items);
    } else {
        let earlier = events.drop_last();
        lemma_backpressure(items, capacity, earlier);
        let kept = offered_all(items, capacity, earlier);
        if items.len() + events.len() <= capacity {
            assert(kept.push(events.last()) =~= items + events);
        } else {
            assert(kept =~= (items + events).take(capacity as int));
        }
    }
}

/// One event too many: `capacity + 1` events offered to an empty queue that
/// nobody drains leave the first `capacity` of them queued, in order, and
/// exactly one dropped.
pub proof fn lemma_one_too_many(capacity: nat, events: Seq<TradeEvent>)
    requires
        events.len() == capacity + 1,
    ensures
        offered_all(Seq::empty(), capacity, events) == events.take(capacity as int),
        dropped_all(Seq::empty(), capacity, events) == 1,
{
    lemma_backpressure(Seq::empty(), capacity, events);
    assert(Seq::<TradeEvent>::empty() + events =~= events);
}

/// The mathematical content of a queue.
pub struct QueueView {
    pub items: Seq<TradeEvent>,
    pub capacity: nat,
    pub closed: bool,
}

/// A bounded first-in, first-out queue of trade events.
pub struct EventQueue {
    items: VecDeque<TradeEvent>,
    capacity: usize,
    closed: bool,
}

impl View for EventQueue {
    type V = QueueView;

    closed spec fn view(&self) -> QueueView {
        QueueView { items: self.items@, capacity: self.capacity as nat, closed: self.closed }
    }
}

impl EventQueue {
    /// The queue holds no more than its capacity, which is at least one.
    pub open spec fn wf(&self) -> bool {
        &&& 1 <= self@.capacity <= usize::MAX
        &&& self@.items.len() <= self@.capacity
    }

    /// An empty, open queue with room for `capacity` events.
    pub fn new(capacity: usize) -> (queue: EventQueue)
        requires
            capacity >= 1,
        ensures
            queue.wf(),
            queue@ == (QueueView { items: Seq::empty(), capacity: capacity as nat, closed: false }),
    {
        EventQueue { items: VecDeque::new(), capacity, closed: false }
    }

    /// Offers `event` without waiting. An open queue with room takes it at
    /// the back; a full or closed queue drops it and stays as it was.
    pub fn try_send(&mut self, event: TradeEvent) -> (outcome: SendOutcome)
        requires
            old(self).wf(),
        ensures
            final(self).wf(),
            outcome == if old(self)@.closed {
                SendOutcome::Closed
            } else if old(self)@.items.len() < old(self)@.capacity {
                SendOutcome::Sent
            } else {
                SendOutcome::Full
            },
            outcome == SendOutcome::Closed ==> final(self)@ == old(self)@,
            outcome != SendOutcome::Closed ==> final(self)@ == (QueueView {
                items: offered(old(self)@.items, old(self)@.capacity, event),
                ..old(self)@
            }),
    {
        if self.closed {
            SendOutcome::Closed
        } else if self.items.len() < self.capacity {
            self.items.push_back(event);
            SendOutcome::Sent
        } else {
            SendOutcome::Full
        }
    }

    /// Takes the oldest event, if there is one. An empty queue answers
    /// `Closed` once it has been closed and `Empty` before.
    pub fn recv(&mut self) -> (received: Received)
        requires
            old(self).wf(),
        ensures
            final(self).wf(),
            old(self)@.items.len() > 0 ==> received == Received::Event(old(self)@.items[0])
                && final(self)@ == (QueueView {
                items: old(self)@.items.drop_first(),
                ..old(self)@
            }),
            old(self)@.items.len() == 0 ==> final(self)@ == old(self)@ && received == if old(
                self,
            )@.closed {
                Received::Closed
            } else {
                Received::Empty
            },
    {
        match self.items.pop_front() {
            Some(event) => Received::Event(event),
            None => {
                if self.closed {
                    Received::Closed
                } else {
                    Received::Empty
                }
            },
        }
    }

    /// Closes the queue: the feed has ended. What is queued can still be
    /// received; nothing more is taken.
    pub fn close(&mut self)
        ensures
            final(self)@ == (QueueView { closed: true, ..old(self)@ }),
    {
        self.closed = true;
    }

    /// The number of events queued.
    pub fn len(&self) -> (n: usize)
        ensures
            n == self@.items.len(),
    {
        self.items.len()
    }

    /// Whether nothing is queued.
    pub fn is_empty(&self) -> (empty: bool)
        ensures
            empty == (self@.items.len() == 0),
    {
        self.items.len() == 0
    }

    /// The number of events the queue has room for.
    pub fn capacity(&self) -> (n: usize)
        ensures
            n == self@.capacity,
    {
        self.capacity
    }

    /// Whether the queue has been closed.
    pub fn is_closed(&self) -> (closed: bool)
        ensures
            closed == self@.closed,
    {
        self.closed
    }
}

} // verus!
