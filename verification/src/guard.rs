//! The exclusive-access wrapper around the single shared history. Every
//! read and write of the shared `RingBuffer` goes through a `HistoryGuard`
//! method, and Rust's exclusive borrow of the guard serializes them: a
//! mutating caller holds `&mut HistoryGuard` for the whole
//! push-then-publish sequence, so publication order is identical to
//! mutation order.

use vstd::prelude::*;
use crate::bus::EventBus;
use crate::models::{window, RingBuffer, TimeStamp};

verus! {

/// Mutual-exclusion wrapper giving one in-flight caller at a time access to
/// the process-wide `RingBuffer`.
pub struct HistoryGuard {
    history: RingBuffer,
}

impl HistoryGuard {
    /// The wrapped history.
    pub closed spec fn history(&self) -> RingBuffer {
        self.history
    }

    /// Invariant: the wrapped history is well formed.
    pub open spec fn wf(&self) -> bool {
        self.history().wf()
    }

    /// Wraps the process-wide history instance.
    pub fn new(history: RingBuffer) -> (r: HistoryGuard)
        ensures
            r.history() == history,
    {
        HistoryGuard { history }
    }

    /// Accepts one pre-validated stop timestamp: appends it to the history
    /// and, still under the guard, publishes the resulting newest entry on
    /// the bus, so the event published is exactly the event appended and
    /// publish order equals mutation order. Returns that event.
    pub fn record_stop(&mut self, ts: u64, bus: &mut EventBus) -> (r: TimeStamp)
        requires
            old(self).wf(),
            old(self).history().next_id() < u64::MAX,
            old(bus).wf(),
            !old(bus).is_closed(),
            old(bus).published() < u64::MAX,
        ensures
            final(self).wf(),
            final(self).history().cap() == old(self).history().cap(),
            final(self).history().next_id() == old(self).history().next_id() + 1,
            r == (TimeStamp { id: old(self).history().next_id(), last_stop_ts: ts }),
            final(self).history().entries() == window(
                old(self).history().cap(),
                old(self).history().entries().push(r),
            ),
            final(self).history().entries().last() == r,
            final(bus).wf(),
            final(bus).cap() == old(bus).cap(),
            !final(bus).is_closed(),
            final(bus).log() == old(bus).log().push(r),
    {
        self.history.push(ts);
        let ev = self.history.last_item();
        bus.publish(ev);
        ev
    }

    /// Reads the identifier the next accepted stop will be assigned.
    pub fn next_push_id(&self) -> (r: u64)
        ensures
            r == self.history().next_id(),
    {
        self.history.next_push_id()
    }

    /// Takes a consistent point-in-time copy of the retained events, oldest
    /// first, for read-only display.
    pub fn snapshot(&self) -> (r: Vec<TimeStamp>)
        ensures
            r@ == self.history().entries(),
    {
        self.history.snapshot()
    }

    /// Reads the single most recent event.
    pub fn last_event(&self) -> (r: TimeStamp)
        requires
            self.wf(),
        ensures
            r == self.history().entries().last(),
    {
        self.history.last_item()
    }
}

} // verus!
