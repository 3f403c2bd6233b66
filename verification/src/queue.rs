//! The checkpoint batch queue: a bounded, back-pressured, strictly FIFO
//! buffer between the upstream indexing stage and the committer.
//!
//! The model makes the channel's contract explicit: a full queue refuses a
//! push (the producer must hold the record and retry, which is the
//! back-pressure), a closed-and-drained queue yields end-of-stream, and the
//! consumer drains greedily: it takes whatever is ready, up to the batch
//! size cap, without waiting for more to arrive.

use vstd::prelude::*;
use crate::checkpoint::IndexedCheckpointBatch;

verus! {

/// Why a push was refused.
#[derive(Clone, Copy, Debug, PartialEq, Eq, Structural)]
pub enum PushRefusal {
    /// The buffer is at capacity: the producer must wait and retry.
    Full,
    /// The queue was closed: nothing can be enqueued any more.
    Closed,
}

/// A refused push, handing the record back to the producer.
#[derive(Debug)]
pub struct RefusedPush {
    pub reason: PushRefusal,
    pub batch: IndexedCheckpointBatch,
}

/// What a drain attempt found.
#[derive(Debug)]
pub enum DrainOutcome {
    /// At least one record was ready: here they are, oldest first.
    Ready(Vec<IndexedCheckpointBatch>),
    /// Nothing is ready yet, but the producer side is still open: the
    /// consumer must suspend until more arrives.
    Pending,
    /// The queue is closed and drained: the committer terminates cleanly.
    EndOfStream,
}

/// A bounded FIFO queue of indexed checkpoints.
#[derive(Debug)]
pub struct BatchQueue {
    items: Vec<IndexedCheckpointBatch>,
    capacity: usize,
    closed: bool,
}

impl BatchQueue {
    /// The queued records, oldest first.
    pub closed spec fn contents(&self) -> Seq<IndexedCheckpointBatch> {
        self.items@
    }

    /// How many records the queue can buffer.
    pub closed spec fn spec_capacity(&self) -> usize {
        self.capacity
    }

    /// Whether the producer side has closed the queue.
    pub closed spec fn spec_closed(&self) -> bool {
        self.closed
    }

    /// An empty, open queue buffering at most `capacity` records.
    pub fn new(capacity: usize) -> (q: BatchQueue)
        requires
            capacity >= 1,
        ensures
            q.contents() == Seq::<IndexedCheckpointBatch>::empty(),
            q.spec_capacity() == capacity,
            !q.spec_closed(),
    {
        BatchQueue { items: Vec::new(), capacity, closed: false }
    }

    /// How many records are currently buffered.
    pub fn len(&self) -> (n: usize)
        ensures
            n == self.contents().len(),
    {
        self.items.len()
    }

    /// Whether the producer side has closed the queue.
    pub fn is_closed(&self) -> (r: bool)
        ensures
            r == self.spec_closed(),
    {
        self.closed
    }

    /// Try to enqueue one record. A full buffer refuses it and hands it
    /// back: that refusal is the back-pressure that keeps the upstream
    /// producer from outrunning the committer without bound.
    pub fn try_push(&mut self, batch: IndexedCheckpointBatch) -> (r: Result<(), RefusedPush>)
        ensures
            final(self).spec_capacity() == old(self).spec_capacity(),
            final(self).spec_closed() == old(self).spec_closed(),
            old(self).spec_closed() ==> match r {
                Err(refused) => {
                    &&& refused.reason == PushRefusal::Closed
                    &&& refused.batch == batch
                    &&& final(self).contents() == old(self).contents()
                },
                Ok(_) => false,
            },
            !old(self).spec_closed() && old(self).contents().len() >= old(self).spec_capacity()
                ==> match r {
                Err(refused) => {
                    &&& refused.reason == PushRefusal::Full
                    &&& refused.batch == batch
                    &&& final(self).contents() == old(self).contents()
                },
                Ok(_) => false,
            },
            !old(self).spec_closed() && old(self).contents().len() < old(self).spec_capacity()
                ==> r == Ok::<(), RefusedPush>(()) && final(self).contents() == old(
                self,
            ).contents().push(batch),
    {
        if self.closed {
            Err(RefusedPush { reason: PushRefusal::Closed, batch })
        } else if self.items.len() >= self.capacity {
            Err(RefusedPush { reason: PushRefusal::Full, batch })
        } else {
            self.items.push(batch);
            Ok(())
        }
    }

    /// Close the producer side: no further records will arrive, and once
    /// the buffer drains the consumer observes end-of-stream.
    pub fn close(&mut self)
        ensures
            final(self).spec_closed(),
            final(self).contents() == old(self).contents(),
            final(self).spec_capacity() == old(self).spec_capacity(),
    {
        self.closed = true;
    }

    /// Drain whatever is ready, up to `max_batch_size` records, without
    /// waiting for more: a burst of more than `max_batch_size` ready
    /// records yields a full batch now and leaves the rest queued, and a
    /// single ready record yields a batch of one immediately.
    pub fn drain_ready(&mut self, max_batch_size: usize) -> (r: DrainOutcome)
        requires
            max_batch_size >= 1,
        ensures
            final(self).spec_capacity() == old(self).spec_capacity(),
            final(self).spec_closed() == old(self).spec_closed(),
            old(self).contents().len() == 0 && old(self).spec_closed() ==> r
                is EndOfStream && final(self).contents() == old(self).contents(),
            old(self).contents().len() == 0 && !old(self).spec_closed() ==> r is Pending
                && final(self).contents() == old(self).contents(),
            old(self).contents().len() > 0 ==> match r {
                DrainOutcome::Ready(chunk) => {
                    &&& chunk@.len() >= 1
                    &&& chunk@.len() == vstd::math::min(
                        max_batch_size as int,
                        old(self).contents().len() as int,
                    )
                    &&& chunk@ == old(self).contents().take(chunk@.len() as int)
                    &&& final(self).contents() == old(self).contents().skip(chunk@.len() as int)
                },
                _ => false,
            },
    {
        if self.items.is_empty() {
            if self.closed {
                DrainOutcome::EndOfStream
            } else {
                DrainOutcome::Pending
            }
        } else {
            let k: usize = if max_batch_size <= self.items.len() {
                max_batch_size
            } else {
                self.items.len()
            };
            let mut chunk = self.items.split_off(k);
            core::mem::swap(&mut self.items, &mut chunk);
            proof {
                assert(chunk@ =~= old(self).contents().take(k as int));
                assert(self.items@ =~= old(self).contents().skip(k as int));
            }
            DrainOutcome::Ready(chunk)
        }
    }
}

} // verus!
