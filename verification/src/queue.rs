//! The handoff primitives between pipeline stages, with their explicit loss
//! policies: a bounded queue whose producer never blocks (a full queue drops
//! the newest item), and a single-slot mailbox that keeps only the latest
//! value. Both prefer losing stale data over adding delay.

use vstd::prelude::*;

verus! {

/// One non-blocking enqueue: the item is appended when there is room and
/// dropped otherwise.
pub open spec fn spec_enqueue<T>(q: Seq<T>, capacity: nat, item: T) -> Seq<T> {
    if q.len() < capacity {
        q.push(item)
    } else {
        q
    }
}

/// A burst of non-blocking enqueues, oldest first.
pub open spec fn spec_enqueue_all<T>(q: Seq<T>, capacity: nat, items: Seq<T>) -> Seq<T>
    decreases items.len(),
{
    if items.len() == 0 {
        q
    } else {
        spec_enqueue_all(spec_enqueue(q, capacity, items[0]), capacity, items.skip(1))
    }
}

/// A bounded handoff queue between a producer stage and a consumer task.
/// Enqueueing never waits: when the consumer has not kept up and the queue is
/// full, the new item is dropped on the spot. This is the pipeline's
/// backpressure policy — capture and encode never pause for network catch-up.
pub struct BoundedQueue<T> {
    items: Vec<T>,
    capacity: usize,
}

impl<T> View for BoundedQueue<T> {
    type V = Seq<T>;

    closed spec fn view(&self) -> Seq<T> {
        self.items@
    }
}

impl<T> BoundedQueue<T> {
    /// The configured bound on how many items may wait at once.
    pub closed spec fn cap(self) -> nat {
        self.capacity as nat
    }

    /// The queue never holds more than its configured capacity.
    pub open spec fn wf(self) -> bool {
        self@.len() <= self.cap()
    }

    /// An empty queue bounded at `capacity` items.
    pub fn new(capacity: usize) -> (q: Self)
        requires
            capacity >= 1,
        ensures
            q@ == Seq::<T>::empty(),
            q.cap() == capacity,
            q.wf(),
    {
        BoundedQueue { items: Vec::new(), capacity }
    }

    /// How many items wait right now.
    pub fn len(&self) -> (l: usize)
        ensures
            l == self@.len(),
    {
        self.items.len()
    }

    /// The configured capacity.
    pub fn capacity(&self) -> (c: usize)
        ensures
            c == self.cap(),
    {
        self.capacity
    }

    /// The non-blocking enqueue: appends the item when there is room and
    /// drops it otherwise, reporting which happened. It always returns at
    /// once — a slow consumer costs frames, never delay.
    pub fn try_send(&mut self, item: T) -> (accepted: bool)
        ensures
            final(self)@ == spec_enqueue(old(self)@, old(self).cap(), item),
            final(self).cap() == old(self).cap(),
            accepted == (old(self)@.len() < old(self).cap()),
            old(self).wf() ==> final(self).wf(),
    {
        if self.items.len() < self.capacity {
            self.items.push(item);
            true
        } else {
            false
        }
    }

    /// Dequeue the oldest waiting item, if any; items leave in arrival order.
    pub fn recv(&mut self) -> (item: Option<T>)
        ensures
            final(self).cap() == old(self).cap(),
            old(self)@.len() == 0 ==> item is None && final(self)@ == old(self)@,
            old(self)@.len() > 0 ==> (item matches Some(v) && v == old(self)@[0] && final(self)@
                == old(self)@.skip(1)),
            old(self).wf() ==> final(self).wf(),
    {
        if self.items.len() > 0 {
            let v = self.items.remove(0);
            assert(self.items@ =~= old(self)@.skip(1));
            Some(v)
        } else {
            None
        }
    }
}

/// Under sustained backpressure — the consumer never draining — any burst of
/// enqueues leaves the queue within its configured capacity: items are
/// dropped, never queued unboundedly, and the producer's throughput is
/// untouched because `try_send` is total and immediate.
pub proof fn lemma_backpressure_bounded<T>(q: Seq<T>, capacity: nat, items: Seq<T>)
    requires
        q.len() <= capacity,
    ensures
        spec_enqueue_all(q, capacity, items).len() <= capacity,
    decreases items.len(),
{
    if items.len() > 0 {
        lemma_backpressure_bounded(spec_enqueue(q, capacity, items[0]), capacity, items.skip(1));
    }
}

/// The single-slot mailbox for latest-value data (cursor samples): publishing
/// overwrites whatever was there — stale values are dropped silently, never
/// queued for replay — and reading sees only the most recent value.
pub struct LatestSlot<T> {
    value: Option<T>,
}

impl<T> View for LatestSlot<T> {
    type V = Option<T>;

    closed spec fn view(&self) -> Option<T> {
        self.value
    }
}

impl<T> LatestSlot<T> {
    /// An empty mailbox.
    pub fn new() -> (s: Self)
        ensures
            s@ is None,
    {
        LatestSlot { value: None }
    }

    /// Publish a new value, overwriting any unread one.
    pub fn publish(&mut self, value: T)
        ensures
            final(self)@ == Some(value),
    {
        self.value = Some(value);
    }

    /// Take the latest value out, leaving the mailbox empty.
    pub fn take(&mut self) -> (r: Option<T>)
        ensures
            r == old(self)@,
            final(self)@ == None::<T>,
    {
        self.value.take()
    }
}

impl<T: Copy> LatestSlot<T> {
    /// Read the latest value without consuming it.
    pub fn current(&self) -> (r: Option<T>)
        ensures
            r == self@,
    {
        self.value
    }
}

} // verus!
