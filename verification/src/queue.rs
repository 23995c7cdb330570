//! The pending-intent queue: append at the tail, remove at the head, with
//! monotonically increasing first/last counters so that observers can compute
//! the queue depth without replaying the sequence.
use vstd::prelude::*;

verus! {

use crate::errors::SpokeError;

/// FIFO queue of pending intent ids.  `first_index` counts ids ever removed,
/// `last_index` counts ids ever appended; their difference is the depth.
#[derive(Clone, Debug)]
pub struct IntentQueue {
    pub items: Vec<[u8; 32]>,
    pub first_index: u64,
    pub last_index: u64,
}

impl IntentQueue {
    /// The counters and the stored sequence agree.
    pub open spec fn wf(self) -> bool {
        &&& self.first_index <= self.last_index
        &&& self.last_index - self.first_index == self.items@.len()
    }

    /// Returns an empty queue with both counters at zero.
    pub fn new() -> (q: IntentQueue)
        ensures
            q.wf(),
            q.items@.len() == 0,
            q.first_index == 0,
            q.last_index == 0,
    {
        IntentQueue { items: Vec::new(), first_index: 0, last_index: 0 }
    }

    /// Number of ids waiting in the queue.
    pub fn len(&self) -> (n: usize)
        ensures
            n == self.items@.len(),
    {
        self.items.len()
    }

    /// Appends `id` at the tail.  Fails only when the append counter would
    /// overflow; the queue is unchanged then.
    pub fn push_back(&mut self, id: [u8; 32]) -> (r: Result<(), SpokeError>)
        requires
            old(self).wf(),
        ensures
            final(self).wf(),
            match r {
                Ok(()) => {
                    &&& old(self).last_index < u64::MAX
                    &&& final(self).items@ == old(self).items@.push(id)
                    &&& final(self).first_index == old(self).first_index
                    &&& final(self).last_index == old(self).last_index + 1
                },
                Err(e) => {
                    &&& e == SpokeError::InvalidOperation
                    &&& old(self).last_index == u64::MAX
                    &&& *final(self) == *old(self)
                },
            },
    {
        if self.last_index == u64::MAX {
            return Err(SpokeError::InvalidOperation);
        }
        self.items.push(id);
        self.last_index = self.last_index + 1;
        Ok(())
    }

    /// Removes and returns the id at the head.  Fails only on an empty
    /// queue; the queue is unchanged then.
    pub fn pop_front(&mut self) -> (r: Result<[u8; 32], SpokeError>)
        requires
            old(self).wf(),
        ensures
            final(self).wf(),
            match r {
                Ok(id) => {
                    &&& old(self).items@.len() > 0
                    &&& id == old(self).items@[0]
                    &&& final(self).items@ == old(self).items@.skip(1)
                    &&& final(self).first_index == old(self).first_index + 1
                    &&& final(self).last_index == old(self).last_index
                },
                Err(e) => {
                    &&& e == SpokeError::InvalidQueueOperation
                    &&& old(self).items@.len() == 0
                    &&& *final(self) == *old(self)
                },
            },
    {
        if self.items.len() == 0 {
            return Err(SpokeError::InvalidQueueOperation);
        }
        let id = self.items.remove(0);
        self.first_index = self.first_index + 1;
        proof {
            assert(self.items@ =~= old(self).items@.skip(1));
        }
        Ok(id)
    }
}

/// The queue contents after appending each id of `ids` in order onto `q`.
pub open spec fn spec_enqueue_all(q: Seq<[u8; 32]>, ids: Seq<[u8; 32]>) -> Seq<[u8; 32]>
    decreases ids.len(),
{
    if ids.len() == 0 {
        q
    } else {
        spec_enqueue_all(q.push(ids[0]), ids.skip(1))
    }
}

/// Appending a sequence of ids in order simply concatenates it: what a run
/// of intent creations leaves in the queue is exactly the created ids in
/// creation order.
pub proof fn lemma_enqueue_all_appends(q: Seq<[u8; 32]>, ids: Seq<[u8; 32]>)
    ensures
        spec_enqueue_all(q, ids) == q + ids,
    decreases ids.len(),
{
    if ids.len() == 0 {
        assert(spec_enqueue_all(q, ids) =~= q + ids);
    } else {
        lemma_enqueue_all_appends(q.push(ids[0]), ids.skip(1));
        assert(q.push(ids[0]) + ids.skip(1) =~= q + ids);
    }
}

/// First-in, first-out: after any run of intent creations starting from an
/// empty queue, removing k ids from the head yields the first k created ids
/// in creation order, and leaves the rest in order.
pub proof fn lemma_queue_fifo(ids: Seq<[u8; 32]>, k: int)
    requires
        0 <= k <= ids.len(),
    ensures
        spec_enqueue_all(Seq::empty(), ids).take(k) == ids.take(k),
        spec_enqueue_all(Seq::empty(), ids).skip(k) == ids.skip(k),
{
    lemma_enqueue_all_appends(Seq::empty(), ids);
    assert(Seq::empty() + ids =~= ids);
}

} // verus!
