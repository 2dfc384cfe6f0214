//! The broadcast relay: every published event is delivered once to each
//! currently-subscribed consumer, independently and in publish order, with an
//! explicit `Lagged` signal when a slow consumer falls behind the fixed-size
//! shared backlog, and a `Closed` signal once the bus is shut down.

use vstd::prelude::*;
use std::collections::VecDeque;
use crate::models::TimeStamp;

verus! {

/// What one ready call to `Subscription::next` yields.
#[derive(Copy, Clone, Debug, PartialEq, Eq, Structural)]
pub enum Delivery {
    /// The next published event, in publish order.
    Value(TimeStamp),
    /// The subscriber fell behind and this many events were overwritten in
    /// the shared backlog before it could consume them; delivery resumes
    /// from the oldest still-available event.
    Lagged(u64),
    /// The bus was shut down and no published events remain to deliver; the
    /// subscription should stop permanently.
    Closed,
}

/// A bounded multi-subscriber broadcast relay. The bus keeps the last
/// `cap()` published events in a shared backlog; each subscription is an
/// independent cursor into the sequence of everything ever published.
///
/// A subscription only observes events published after `subscribe` was
/// called, so an event published while nobody is subscribed is never
/// delivered to anyone.
pub struct EventBus {
    backlog: VecDeque<TimeStamp>,
    capacity: usize,
    total: u64,
    closed: bool,
    hist: Ghost<Seq<TimeStamp>>,
}

/// An independent cursor of one subscriber into the publish sequence of an
/// `EventBus`.
pub struct Subscription {
    cursor: u64,
}

impl EventBus {
    /// Every event ever published, in publish order.
    pub closed spec fn log(&self) -> Seq<TimeStamp> {
        self.hist@
    }

    /// The fixed backlog capacity chosen at construction.
    pub closed spec fn cap(&self) -> nat {
        self.capacity as nat
    }

    /// Whether the bus has been shut down.
    pub closed spec fn is_closed(&self) -> bool {
        self.closed
    }

    /// How many events have ever been published.
    pub open spec fn published(&self) -> int {
        self.log().len() as int
    }

    /// The position of the oldest event still available in the backlog:
    /// everything published before it has been overwritten.
    pub open spec fn oldest(&self) -> int {
        if self.published() <= self.cap() {
            0
        } else {
            self.published() - self.cap()
        }
    }

    /// Invariant: the backlog holds exactly the last `cap()` published
    /// events (all of them while fewer have been published).
    pub closed spec fn wf(&self) -> bool {
        &&& self.capacity >= 1
        &&& self.hist@.len() == self.total
        &&& self.backlog@ == self.hist@.skip(self.oldest())
    }

    /// Constructs an open bus with the given backlog capacity and an empty
    /// publish history.
    pub fn new(capacity: usize) -> (r: EventBus)
        requires
            capacity >= 1,
        ensures
            r.wf(),
            r.cap() == capacity,
            r.log() == Seq::<TimeStamp>::empty(),
            !r.is_closed(),
    {
        let r = EventBus {
            backlog: VecDeque::new(),
            capacity,
            total: 0,
            closed: false,
            hist: Ghost(Seq::empty()),
        };
        proof {
            assert(r.backlog@ =~= r.hist@.skip(0));
        }
        r
    }

    /// Makes `e` available to every current subscriber, overwriting the
    /// oldest backlog slot when the backlog is full. Non-blocking; with no
    /// subscribers the event is simply never delivered, since later
    /// subscriptions start at the then-current position.
    pub fn publish(&mut self, e: TimeStamp)
        requires
            old(self).wf(),
            !old(self).is_closed(),
            old(self).published() < u64::MAX,
        ensures
            final(self).wf(),
            final(self).cap() == old(self).cap(),
            final(self).log() == old(self).log().push(e),
            !final(self).is_closed(),
    {
        if self.backlog.len() == self.capacity {
            self.backlog.pop_front();
        }
        self.backlog.push_back(e);
        self.total = self.total + 1;
        proof {
            self.hist@ = old(self).hist@.push(e);
            assert(self.backlog@ =~= self.hist@.skip(self.oldest()));
        }
    }

    /// Shuts the bus down: no further events will be published, and every
    /// subscription, once it has drained what is still available, is told
    /// `Closed`.
    pub fn close(&mut self)
        requires
            old(self).wf(),
        ensures
            final(self).wf(),
            final(self).cap() == old(self).cap(),
            final(self).log() == old(self).log(),
            final(self).is_closed(),
    {
        self.closed = true;
    }

    /// Reads how many events have ever been published.
    pub fn published_count(&self) -> (r: u64)
        requires
            self.wf(),
        ensures
            r == self.published(),
    {
        self.total
    }

    /// Reads whether the bus has been shut down.
    pub fn is_shut_down(&self) -> (r: bool)
        ensures
            r == self.is_closed(),
    {
        self.closed
    }

    /// Returns a new independent subscription positioned at "now": it will
    /// only observe events published after this call.
    pub fn subscribe(&self) -> (s: Subscription)
        requires
            self.wf(),
        ensures
            s.position() == self.published(),
    {
        Subscription { cursor: self.total }
    }
}

/// Whether a call to `Subscription::next` at `cursor` has something to
/// report: either an event (or lag) is pending, or the bus is closed.
pub open spec fn ready(bus: EventBus, cursor: int) -> bool {
    cursor < bus.published() || bus.is_closed()
}

/// The delivery a subscription at `cursor` receives once one is ready: a lag
/// notice when its cursor was overwritten, otherwise the next published
/// event, and `Closed` only when the bus is shut down and drained.
pub open spec fn delivery_at(bus: EventBus, cursor: int) -> Delivery {
    if cursor < bus.oldest() {
        Delivery::Lagged((bus.oldest() - cursor) as u64)
    } else if cursor < bus.published() {
        Delivery::Value(bus.log()[cursor])
    } else {
        Delivery::Closed
    }
}

/// The cursor position after that delivery: a lagged subscriber resumes at
/// the oldest available event, a served one advances past the event it
/// received, and a closed-out one stays put.
pub open spec fn cursor_after(bus: EventBus, cursor: int) -> int {
    if cursor < bus.oldest() {
        bus.oldest()
    } else if cursor < bus.published() {
        cursor + 1
    } else {
        cursor
    }
}

impl Subscription {
    /// This subscription's cursor into the bus's publish sequence: every
    /// event published at or after this position is still to be delivered.
    pub closed spec fn position(&self) -> int {
        self.cursor as int
    }

    /// The next delivery for this subscription, or `None` when nothing is
    /// pending and the bus is still open (the caller should wait and retry).
    pub fn next(&mut self, bus: &EventBus) -> (d: Option<Delivery>)
        requires
            bus.wf(),
            0 <= old(self).position() <= bus.published(),
        ensures
            ready(*bus, old(self).position()) ==> d == Some(
                delivery_at(*bus, old(self).position()),
            ) && final(self).position() == cursor_after(*bus, old(self).position()),
            !ready(*bus, old(self).position()) ==> d == None::<Delivery> && *final(self) == *old(
                self,
            ),
            old(self).position() <= final(self).position() <= bus.published(),
    {
        let oldest: u64 = bus.total - bus.backlog.len() as u64;
        proof {
            assert(bus.backlog@.len() == bus.log().len() - bus.oldest());
            assert(oldest == bus.oldest());
        }
        if self.cursor < oldest {
            let skipped = oldest - self.cursor;
            self.cursor = oldest;
            Some(Delivery::Lagged(skipped))
        } else if self.cursor < bus.total {
            proof {
                assert(self.cursor - oldest < bus.backlog@.len());
            }
            let idx = (self.cursor - oldest) as usize;
            let e = *(&bus.backlog[idx]);
            proof {
                assert(bus.backlog@[idx as int] == bus.log()[self.cursor as int]);
            }
            self.cursor = self.cursor + 1;
            Some(Delivery::Value(e))
        } else if bus.closed {
            Some(Delivery::Closed)
        } else {
            None
        }
    }
}

/// The deliveries a subscription at `cursor` receives over `k` successive
/// ready calls to `next` while the bus state stays `bus`.
pub open spec fn trace(bus: EventBus, cursor: int, k: nat) -> Seq<Delivery>
    decreases k,
{
    if k == 0 {
        Seq::empty()
    } else {
        seq![delivery_at(bus, cursor)] + trace(bus, cursor_after(bus, cursor), (k - 1) as nat)
    }
}

/// Law: a subscription that has not lagged receives, over successive
/// deliveries, exactly the events published from its cursor on, in publish
/// order — no loss, no reordering, no duplication. In particular a
/// subscription created before a run of publishes and never lagged observes
/// exactly that run.
pub proof fn lemma_in_order_delivery(bus: EventBus, cursor: int, k: nat)
    requires
        bus.oldest() <= cursor,
        cursor + k <= bus.published(),
    ensures
        trace(bus, cursor, k) == Seq::new(k, |j: int| Delivery::Value(bus.log()[cursor + j])),
    decreases k,
{
    let want = Seq::new(k, |j: int| Delivery::Value(bus.log()[cursor + j]));
    if k == 0 {
        assert(trace(bus, cursor, k) =~= want);
    } else {
        lemma_in_order_delivery(bus, cursor + 1, (k - 1) as nat);
        assert(trace(bus, cursor, k) =~= want);
    }
}

/// Law: a subscription whose cursor was overwritten receives one `Lagged`
/// delivery counting exactly the events it missed, resumes at the oldest
/// still-available event, and from there receives subsequent events in
/// publish order — lag never permanently desynchronizes a subscriber.
pub proof fn lemma_lag_then_resume(bus: EventBus, cursor: int, k: nat)
    requires
        0 <= cursor < bus.oldest(),
        bus.oldest() + k <= bus.published(),
    ensures
        delivery_at(bus, cursor) == Delivery::Lagged((bus.oldest() - cursor) as u64),
        cursor_after(bus, cursor) == bus.oldest(),
        trace(bus, cursor, (k + 1) as nat) == seq![
            Delivery::Lagged((bus.oldest() - cursor) as u64),
        ] + Seq::new(k, |j: int| Delivery::Value(bus.log()[bus.oldest() + j])),
{
    lemma_in_order_delivery(bus, bus.oldest(), k);
    assert(trace(bus, cursor, (k + 1) as nat) =~= seq![
        Delivery::Lagged((bus.oldest() - cursor) as u64),
    ] + Seq::new(k, |j: int| Delivery::Value(bus.log()[bus.oldest() + j])));
}

} // verus!
