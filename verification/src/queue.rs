//! The drain queue: a bounded FIFO of batch handles.
//!
//! The dispatcher enqueues a handle for every batch it starts; the drain
//! manager dequeues them strictly in that order. The fixed capacity is the
//! pipeline's admission control: a full queue refuses the next handle
//! unchanged, so the producer must wait — a handle is never dropped. The
//! queue models the channel between the two roles, with batch handles as
//! plain identifiers; suspension shows up as the `Full` and `Empty`
//! answers, on which a caller retries.

use vstd::prelude::*;

verus! {

/// What an attempt to enqueue did.
#[derive(Clone, Copy, PartialEq, Eq, Structural, Debug)]
pub enum PushOutcome {
    /// The handle was appended at the back of the queue.
    Accepted,
    /// The queue is at capacity; nothing changed, the producer must wait.
    Full,
    /// The queue was closed; nothing changed, no handle can be admitted.
    Closed,
}

/// What an attempt to dequeue found.
#[derive(Clone, Copy, PartialEq, Eq, Structural, Debug)]
pub enum PopOutcome {
    /// The handle that stood at the front of the queue.
    Item(u64),
    /// The queue is empty but still open; the consumer must wait.
    Empty,
    /// The queue is closed and fully drained: no handle will ever come.
    Disconnected,
}

/// A bounded FIFO of batch handles with a close signal.
pub struct DrainQueue {
    items: Vec<u64>,
    capacity: usize,
    closed: bool,
}

impl DrainQueue {
    /// The pending handles, front first.
    pub closed spec fn view(self) -> Seq<u64> {
        self.items@
    }

    /// The fixed capacity the queue was created with.
    pub closed spec fn spec_capacity(self) -> nat {
        self.capacity as nat
    }

    /// Whether the queue still accepts handles.
    pub closed spec fn is_open(self) -> bool {
        !self.closed
    }

    /// The queue never holds more handles than its capacity.
    pub closed spec fn wf(self) -> bool {
        self.items@.len() <= self.capacity
    }

    /// Reports how many handles are pending.
    pub fn len(&self) -> (count: usize)
        ensures
            count == self@.len(),
    {
        self.items.len()
    }

    /// Creates an open, empty queue of the given capacity.
    pub fn new(capacity: usize) -> (queue: DrainQueue)
        ensures
            queue.wf(),
            queue@ =~= Seq::<u64>::empty(),
            queue.spec_capacity() == capacity,
            queue.is_open(),
    {
        DrainQueue { items: Vec::new(), capacity, closed: false }
    }

    /// Tries to enqueue a handle at the back.
    ///
    /// A closed or full queue refuses the handle and stays exactly as it
    /// was: admission control may delay a handle, never discard one.
    pub fn push(&mut self, handle: u64) -> (outcome: PushOutcome)
        requires
            old(self).wf(),
        ensures
            final(self).wf(),
            final(self).spec_capacity() == old(self).spec_capacity(),
            final(self).is_open() == old(self).is_open(),
            !old(self).is_open() ==> outcome == PushOutcome::Closed && final(self)@ == old(
                self,
            )@,
            old(self).is_open() && old(self)@.len() == old(self).spec_capacity() ==> outcome
                == PushOutcome::Full && final(self)@ == old(self)@,
            old(self).is_open() && old(self)@.len() < old(self).spec_capacity() ==> outcome
                == PushOutcome::Accepted && final(self)@ == old(self)@.push(handle),
    {
        if self.closed {
            PushOutcome::Closed
        } else if self.items.len() == self.capacity {
            PushOutcome::Full
        } else {
            self.items.push(handle);
            PushOutcome::Accepted
        }
    }

    /// Tries to dequeue the handle at the front.
    ///
    /// Handles leave in the order they were admitted. An empty queue tells
    /// an open consumer to wait and a closed one that the drain is over.
    pub fn pop(&mut self) -> (outcome: PopOutcome)
        requires
            old(self).wf(),
        ensures
            final(self).wf(),
            final(self).spec_capacity() == old(self).spec_capacity(),
            final(self).is_open() == old(self).is_open(),
            old(self)@.len() == 0 ==> final(self)@ == old(self)@ && outcome == (if old(
                self,
            ).is_open() {
                PopOutcome::Empty
            } else {
                PopOutcome::Disconnected
            }),
            old(self)@.len() > 0 ==> outcome == PopOutcome::Item(old(self)@[0]) && final(self)@
                == old(self)@.drop_first(),
    {
        if self.items.len() == 0 {
            if self.closed {
                PopOutcome::Disconnected
            } else {
                PopOutcome::Empty
            }
        } else {
            let front = self.items.remove(0);
            proof {
                assert(self.items@ =~= old(self).items@.drop_first());
            }
            PopOutcome::Item(front)
        }
    }

    /// Closes the queue for further handles; the ones already admitted
    /// stay and will still be drained.
    pub fn close(&mut self)
        requires
            old(self).wf(),
        ensures
            final(self).wf(),
            final(self)@ == old(self)@,
            final(self).spec_capacity() == old(self).spec_capacity(),
            !final(self).is_open(),
    {
        self.closed = true;
    }
}

/// Backpressure loses nothing: however an enqueue attempt ends, every
/// handle that was pending beforehand is still pending, in its place; a
/// refusal leaves the queue untouched, so the producer can only wait — a
/// handle is never silently dropped.
pub proof fn lemma_no_silent_drop(pre: DrainQueue, post: DrainQueue, handle: u64, outcome:
    PushOutcome)
    requires
        pre.wf(),
        outcome == PushOutcome::Accepted ==> post@ == pre@.push(handle),
        outcome != PushOutcome::Accepted ==> post@ == pre@,
    ensures
        post@.len() >= pre@.len(),
        forall|i: int| 0 <= i < pre@.len() ==> post@[i] == pre@[i],
        outcome == PushOutcome::Accepted ==> post@.last() == handle,
{
}

} // verus!
