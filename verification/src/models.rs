//! The bounded history: a fixed-capacity, insertion-ordered record of recent
//! stop events with monotonically assigned identifiers.

use vstd::prelude::*;
use std::collections::VecDeque;

verus! {

/// One recorded stop event: the identifier assigned by the history and the
/// caller-supplied timestamp (epoch seconds in practice; the core treats it
/// as an opaque unsigned 64-bit value).
#[derive(Copy, Clone, Debug, PartialEq, Eq, Structural)]
pub struct TimeStamp {
    pub id: u64,
    pub last_stop_ts: u64,
}

impl TimeStamp {
    pub fn new(id: u64, last_stop_ts: u64) -> (r: TimeStamp)
        ensures
            r == (TimeStamp { id, last_stop_ts }),
    {
        TimeStamp { id, last_stop_ts }
    }
}

/// The event accepted as push number `i` of a history seeded with `seed`:
/// push 0 is the seed event with identifier 0, and push `i >= 1` carries
/// identifier `i` and the `i`-th caller-supplied timestamp.
pub open spec fn stamped(seed: u64, pushes: Seq<u64>, i: int) -> TimeStamp {
    if i == 0 {
        TimeStamp { id: 0, last_stop_ts: seed }
    } else {
        TimeStamp { id: i as u64, last_stop_ts: pushes[i - 1] }
    }
}

/// Every event a history seeded with `seed` has accepted after the pushes in
/// `pushes`, oldest first: the seed event followed by one event per push.
pub open spec fn full_log(seed: u64, pushes: Seq<u64>) -> Seq<TimeStamp> {
    Seq::new(pushes.len() + 1, |i: int| stamped(seed, pushes, i))
}

/// The sliding window a bounded history retains: the last `capacity`
/// elements of `s`, or all of `s` when it is shorter.
pub open spec fn window(capacity: nat, s: Seq<TimeStamp>) -> Seq<TimeStamp> {
    if s.len() <= capacity {
        s
    } else {
        s.skip(s.len() - capacity)
    }
}

/// The retained entries after `new(capacity, seed)` followed, in order, by
/// one `push` per element of `pushes`: the same recursion the `push`
/// contract states, one window step per accepted push.
pub open spec fn history_after(capacity: nat, seed: u64, pushes: Seq<u64>) -> Seq<TimeStamp>
    decreases pushes.len(),
{
    if pushes.len() == 0 {
        seq![(TimeStamp { id: 0, last_stop_ts: seed })]
    } else {
        window(
            capacity,
            history_after(capacity, seed, pushes.drop_last()).push(
                stamped(seed, pushes, pushes.len() as int),
            ),
        )
    }
}

/// Appending one event to the full log and then taking the window is the
/// same as taking the window first: eviction loses only events a fresh
/// window would drop anyway.
proof fn lemma_window_push(capacity: nat, s: Seq<TimeStamp>, e: TimeStamp)
    requires
        capacity >= 1,
    ensures
        window(capacity, window(capacity, s).push(e)) == window(capacity, s.push(e)),
{
    if s.len() > capacity {
        assert(window(capacity, window(capacity, s).push(e)) =~= window(capacity, s.push(e)));
    }
}

/// Extending the run of pushes by one appends exactly the next stamped
/// event to the full log.
proof fn lemma_full_log_snoc(seed: u64, pushes: Seq<u64>)
    requires
        pushes.len() >= 1,
    ensures
        full_log(seed, pushes) == full_log(seed, pushes.drop_last()).push(
            stamped(seed, pushes, pushes.len() as int),
        ),
{
    assert(full_log(seed, pushes) =~= full_log(seed, pushes.drop_last()).push(
        stamped(seed, pushes, pushes.len() as int),
    ));
}

/// Laws of the bounded history. After construction with any `capacity >= 1`
/// and any run of `N` pushes, the retained entries are exactly the sliding
/// window of the last `capacity` accepted events: their number is
/// `min(capacity, N + 1)` (the `+ 1` is the seed event), and entry `j`
/// is the `(N + 1 - len + j)`-th accepted event, so the retained
/// identifiers are the last `min(capacity, N + 1)` integers of `0..=N` in
/// ascending order, each with the timestamp supplied for it.
pub proof fn lemma_retained_window(capacity: nat, seed: u64, pushes: Seq<u64>)
    requires
        capacity >= 1,
    ensures
        history_after(capacity, seed, pushes) == window(capacity, full_log(seed, pushes)),
        history_after(capacity, seed, pushes).len() == if pushes.len() + 1 <= capacity {
            (pushes.len() + 1) as int
        } else {
            capacity as int
        },
        forall|j: int|
            0 <= j < history_after(capacity, seed, pushes).len()
                ==> #[trigger] history_after(capacity, seed, pushes)[j] == stamped(
                seed,
                pushes,
                pushes.len() + 1 - history_after(capacity, seed, pushes).len() + j,
            ),
    decreases pushes.len(),
{
    if pushes.len() == 0 {
        assert(history_after(capacity, seed, pushes) =~= window(
            capacity,
            full_log(seed, pushes),
        ));
    } else {
        lemma_retained_window(capacity, seed, pushes.drop_last());
        lemma_window_push(
            capacity,
            full_log(seed, pushes.drop_last()),
            stamped(seed, pushes, pushes.len() as int),
        );
        lemma_full_log_snoc(seed, pushes);
    }
}

/// Law: the most recently appended event is always the tail of the retained
/// entries, whatever the capacity — eviction only ever removes from the
/// old end.
pub proof fn lemma_last_event(capacity: nat, seed: u64, pushes: Seq<u64>)
    requires
        capacity >= 1,
    ensures
        history_after(capacity, seed, pushes).len() >= 1,
        history_after(capacity, seed, pushes).last() == stamped(
            seed,
            pushes,
            pushes.len() as int,
        ),
{
    lemma_retained_window(capacity, seed, pushes);
}

/// A fixed-capacity append-only ring buffer of events. Identifiers increase
/// strictly by one per accepted push, starting at 0 for the seed event; when
/// the buffer is full the oldest entry is evicted. The buffer is never empty
/// after construction.
pub struct RingBuffer {
    buf: VecDeque<TimeStamp>,
    capacity: usize,
    max_id: u64,
}

impl RingBuffer {
    /// The retained entries, oldest first.
    pub closed spec fn entries(&self) -> Seq<TimeStamp> {
        self.buf@
    }

    /// The fixed capacity chosen at construction.
    pub closed spec fn cap(&self) -> nat {
        self.capacity as nat
    }

    /// The identifier the next accepted push will be assigned.
    pub closed spec fn next_id(&self) -> u64 {
        self.max_id
    }

    /// Invariant: at least one and at most `cap()` entries are retained, and
    /// they carry the contiguous ascending identifiers ending just below
    /// `next_id()`.
    pub open spec fn wf(&self) -> bool {
        &&& self.cap() >= 1
        &&& 1 <= self.entries().len() <= self.cap()
        &&& self.entries().len() <= self.next_id()
        &&& forall|i: int|
            0 <= i < self.entries().len() ==> #[trigger] self.entries()[i].id
                == self.next_id() - self.entries().len() + i
    }

    /// Constructs a history holding exactly the seed event
    /// `{ id: 0, last_stop_ts: first }`.
    pub fn new(capacity: usize, first: u64) -> (r: RingBuffer)
        requires
            capacity >= 1,
        ensures
            r.wf(),
            r.cap() == capacity,
            r.next_id() == 1,
            r.entries() == seq![(TimeStamp { id: 0, last_stop_ts: first })],
    {
        let mut buf: VecDeque<TimeStamp> = VecDeque::new();
        buf.push_back(TimeStamp::new(0, first));
        proof {
            assert(buf@ =~= seq![(TimeStamp { id: 0, last_stop_ts: first })]);
        }
        RingBuffer { buf, capacity, max_id: 1 }
    }

    /// Appends the event `{ id: next_id(), last_stop_ts: value }`, evicting
    /// the oldest entry first when the buffer is full, so the retained
    /// entries are always the last `cap()` events ever accepted.
    pub fn push(&mut self, value: u64)
        requires
            old(self).wf(),
            old(self).next_id() < u64::MAX,
        ensures
            final(self).wf(),
            final(self).cap() == old(self).cap(),
            final(self).next_id() == old(self).next_id() + 1,
            final(self).entries() == window(
                old(self).cap(),
                old(self).entries().push(
                    (TimeStamp { id: old(self).next_id(), last_stop_ts: value }),
                ),
            ),
            final(self).entries().last() == (TimeStamp {
                id: old(self).next_id(),
                last_stop_ts: value,
            }),
    {
        if self.buf.len() == self.capacity {
            self.buf.pop_front();
        }
        self.buf.push_back(TimeStamp::new(self.max_id, value));
        self.max_id = self.max_id + 1;
        proof {
            let ev = TimeStamp { id: old(self).next_id(), last_stop_ts: value };
            assert(self.entries() =~= window(old(self).cap(), old(self).entries().push(ev)));
        }
    }

    /// Returns the most recently appended event: the tail of the retained
    /// entries, which is defined because the buffer is never empty.
    pub fn last_item(&self) -> (r: TimeStamp)
        requires
            self.wf(),
        ensures
            r == self.entries().last(),
    {
        self.buf[self.buf.len() - 1]
    }

    /// Returns a copy of the retained entries, oldest first.
    pub fn snapshot(&self) -> (r: Vec<TimeStamp>)
        ensures
            r@ == self.entries(),
    {
        let mut out: Vec<TimeStamp> = Vec::new();
        let mut i: usize = 0;
        while i < self.buf.len()
            invariant
                i <= self.buf@.len(),
                out@ == self.buf@.subrange(0, i as int),
            decreases self.buf@.len() - i,
        {
            out.push(self.buf[i]);
            proof {
                assert(out@ =~= self.buf@.subrange(0, i + 1));
            }
            i = i + 1;
        }
        proof {
            assert(out@ =~= self.buf@);
        }
        out
    }

    /// The number of retained entries.
    pub fn len(&self) -> (r: usize)
        ensures
            r == self.entries().len(),
    {
        self.buf.len()
    }

    /// The identifier the next accepted push will be assigned.
    pub fn next_push_id(&self) -> (r: u64)
        ensures
            r == self.next_id(),
    {
        self.max_id
    }

    /// The retained entry at position `i`, oldest first.
    pub fn get(&self, i: usize) -> (r: TimeStamp)
        requires
            i < self.entries().len(),
        ensures
            r == self.entries()[i as int],
    {
        self.buf[i]
    }
}

} // verus!
