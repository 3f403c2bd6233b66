//! The batch accumulator: merges a drained run of indexed checkpoints into
//! one commit unit, category by category, preserving input order.

use vstd::prelude::*;
use std::collections::BTreeMap;
use crate::checkpoint::{
    BatchView, CheckpointRecord, DisplayUpdate, EpochRecord, EventRecord, IndexedCheckpointBatch,
    ObjectChangeRecord, PackageRecord, TransactionRecord, TxIndexRecord, views,
};
use crate::table::{store_all, table_after};

verus! {

/// One commit unit: the concatenation of a run of indexed checkpoints'
/// per-category collections, in input order. Display updates keep every
/// entry in order here; the last writer for an object type wins when the
/// store applies them.
#[derive(Clone, Debug)]
pub struct CommitBatch {
    /// The checkpoint metadata records, one per source checkpoint, in order.
    pub checkpoints: Vec<CheckpointRecord>,
    /// All transactions of the batch, in source order.
    pub transactions: Vec<TransactionRecord>,
    /// All events of the batch, in source order.
    pub events: Vec<EventRecord>,
    /// All secondary-index rows of the batch, in source order.
    pub tx_indices: Vec<TxIndexRecord>,
    /// All display-metadata updates of the batch, in source order.
    pub display_updates: Vec<DisplayUpdate>,
    /// All object changes of the batch, in source order.
    pub object_changes: Vec<ObjectChangeRecord>,
    /// All packages of the batch, in source order.
    pub packages: Vec<PackageRecord>,
    /// The epoch-change records of those checkpoints that close an epoch.
    pub epochs: Vec<EpochRecord>,
}

/// The mathematical view of a [`CommitBatch`].
#[verifier::ext_equal]
pub struct CommitBatchView {
    pub checkpoints: Seq<CheckpointRecord>,
    pub transactions: Seq<TransactionRecord>,
    pub events: Seq<EventRecord>,
    pub tx_indices: Seq<TxIndexRecord>,
    pub display_updates: Seq<DisplayUpdate>,
    pub object_changes: Seq<ObjectChangeRecord>,
    pub packages: Seq<PackageRecord>,
    pub epochs: Seq<EpochRecord>,
}

impl View for CommitBatch {
    type V = CommitBatchView;

    open spec fn view(&self) -> CommitBatchView {
        CommitBatchView {
            checkpoints: self.checkpoints@,
            transactions: self.transactions@,
            events: self.events@,
            tx_indices: self.tx_indices@,
            display_updates: self.display_updates@,
            object_changes: self.object_changes@,
            packages: self.packages@,
            epochs: self.epochs@,
        }
    }
}

impl CommitBatch {
    /// How many checkpoints the batch holds.
    pub fn checkpoint_count(&self) -> (n: usize)
        ensures
            n == self@.checkpoints.len(),
    {
        self.checkpoints.len()
    }

    /// How many transactions the batch holds, across all its checkpoints.
    pub fn transaction_count(&self) -> (n: usize)
        ensures
            n == self@.transactions.len(),
    {
        self.transactions.len()
    }

    /// How many epoch-change records the batch holds.
    pub fn epoch_count(&self) -> (n: usize)
        ensures
            n == self@.epochs.len(),
    {
        self.epochs.len()
    }

    /// The sequence number of the batch's first checkpoint.
    pub fn first_sequence_number(&self) -> (s: u64)
        requires
            self@.checkpoints.len() > 0,
        ensures
            s == self@.checkpoints.first().sequence_number,
    {
        self.checkpoints[0].sequence_number
    }

    /// The sequence number of the batch's last checkpoint.
    pub fn last_sequence_number(&self) -> (s: u64)
        requires
            self@.checkpoints.len() > 0,
        ensures
            s == self@.checkpoints.last().sequence_number,
    {
        self.checkpoints[self.checkpoints.len() - 1].sequence_number
    }

    /// The batch's effective display mapping: its updates merged in order,
    /// so for each object type the latest update in the batch wins.
    pub fn merged_displays(&self) -> (m: BTreeMap<u64, DisplayUpdate>)
        ensures
            m@ == table_after(Map::<u64, DisplayUpdate>::empty(), self@.display_updates),
    {
        let mut m: BTreeMap<u64, DisplayUpdate> = BTreeMap::new();
        store_all(&mut m, &self.display_updates);
        m
    }
}

/// The commit unit of no checkpoints at all.
pub open spec fn empty_commit_view() -> CommitBatchView {
    CommitBatchView {
        checkpoints: Seq::empty(),
        transactions: Seq::empty(),
        events: Seq::empty(),
        tx_indices: Seq::empty(),
        display_updates: Seq::empty(),
        object_changes: Seq::empty(),
        packages: Seq::empty(),
        epochs: Seq::empty(),
    }
}

/// One more checkpoint appended to a commit unit: every category collection
/// grows at its end, so input order is preserved within each category.
pub open spec fn append_batch(c: CommitBatchView, b: BatchView) -> CommitBatchView {
    CommitBatchView {
        checkpoints: c.checkpoints.push(b.checkpoint),
        transactions: c.transactions + b.transactions,
        events: c.events + b.events,
        tx_indices: c.tx_indices + b.tx_indices,
        display_updates: c.display_updates + b.display_updates,
        object_changes: c.object_changes + b.object_changes,
        packages: c.packages + b.packages,
        epochs: match b.epoch {
            Some(e) => c.epochs.push(e),
            None => c.epochs,
        },
    }
}

/// The commit unit accumulated from a run of checkpoints, leftmost first.
pub open spec fn spec_accumulate(s: Seq<BatchView>) -> CommitBatchView
    decreases s.len(),
{
    if s.len() == 0 {
        empty_commit_view()
    } else {
        append_batch(spec_accumulate(s.drop_last()), s.last())
    }
}

/// Two commit units joined end to end, category by category.
pub open spec fn concat_commit_views(a: CommitBatchView, b: CommitBatchView) -> CommitBatchView {
    CommitBatchView {
        checkpoints: a.checkpoints + b.checkpoints,
        transactions: a.transactions + b.transactions,
        events: a.events + b.events,
        tx_indices: a.tx_indices + b.tx_indices,
        display_updates: a.display_updates + b.display_updates,
        object_changes: a.object_changes + b.object_changes,
        packages: a.packages + b.packages,
        epochs: a.epochs + b.epochs,
    }
}

/// Accumulating one more checkpoint is one `append_batch` step.
pub proof fn lemma_accumulate_push(s: Seq<BatchView>, b: BatchView)
    ensures
        spec_accumulate(s.push(b)) == append_batch(spec_accumulate(s), b),
{
    assert(s.push(b).drop_last() =~= s);
    assert(s.push(b).last() == b);
}

/// Ordering is kept across batch boundaries: accumulating a concatenated
/// stream yields, category by category, the concatenation of what the two
/// halves accumulate to. Hence however a stream is cut into commit batches,
/// concatenating the batches' categories reconstructs the input order.
pub proof fn lemma_accumulate_append(s1: Seq<BatchView>, s2: Seq<BatchView>)
    ensures
        spec_accumulate(s1 + s2) == concat_commit_views(spec_accumulate(s1), spec_accumulate(s2)),
    decreases s2.len(),
{
    if s2.len() == 0 {
        assert(s1 + s2 =~= s1);
        assert(concat_commit_views(spec_accumulate(s1), empty_commit_view())
            =~= spec_accumulate(s1));
    } else {
        lemma_accumulate_append(s1, s2.drop_last());
        assert((s1 + s2).drop_last() =~= s1 + s2.drop_last());
        assert((s1 + s2).last() == s2.last());
        assert(append_batch(
            concat_commit_views(spec_accumulate(s1), spec_accumulate(s2.drop_last())),
            s2.last(),
        ) =~= concat_commit_views(
            spec_accumulate(s1),
            append_batch(spec_accumulate(s2.drop_last()), s2.last()),
        ));
    }
}

/// The accumulated checkpoint records are exactly the input checkpoints,
/// one per source record, in input order.
pub proof fn lemma_accumulate_checkpoints(s: Seq<BatchView>)
    ensures
        spec_accumulate(s).checkpoints.len() == s.len(),
        forall|i: int|
            0 <= i < s.len() ==> spec_accumulate(s).checkpoints[i] == s[i].checkpoint,
    decreases s.len(),
{
    if s.len() > 0 {
        lemma_accumulate_checkpoints(s.drop_last());
    }
}

/// Append a copy of every element of `src` to `dst`, in order.
pub(crate) fn push_all<T: Copy>(dst: &mut Vec<T>, src: &Vec<T>)
    ensures
        final(dst)@ == old(dst)@ + src@,
{
    let ghost base = dst@;
    let mut i: usize = 0;
    while i < src.len()
        invariant
            i <= src.len(),
            dst@ == base + src@.take(i as int),
        decreases src.len() - i,
    {
        dst.push(src[i]);
        proof {
            assert(base + src@.take(i as int + 1) =~= (base + src@.take(i as int)).push(
                src@[i as int],
            ));
        }
        i = i + 1;
    }
    proof {
        assert(base + src@.take(src@.len() as int) =~= base + src@);
    }
}

/// Merge a drained run of indexed checkpoints into one commit unit.
/// Within every category the result preserves the relative order of the
/// source checkpoints, and of the entries within each source checkpoint.
pub fn accumulate(chunk: &Vec<IndexedCheckpointBatch>) -> (out: CommitBatch)
    ensures
        out@ == spec_accumulate(views(chunk@)),
{
    let mut out = CommitBatch {
        checkpoints: Vec::new(),
        transactions: Vec::new(),
        events: Vec::new(),
        tx_indices: Vec::new(),
        display_updates: Vec::new(),
        object_changes: Vec::new(),
        packages: Vec::new(),
        epochs: Vec::new(),
    };
    let mut i: usize = 0;
    while i < chunk.len()
        invariant
            i <= chunk.len(),
            out@ == spec_accumulate(views(chunk@).take(i as int)),
        decreases chunk.len() - i,
    {
        let b = &chunk[i];
        out.checkpoints.push(b.checkpoint);
        push_all(&mut out.transactions, &b.transactions);
        push_all(&mut out.events, &b.events);
        push_all(&mut out.tx_indices, &b.tx_indices);
        push_all(&mut out.display_updates, &b.display_updates);
        push_all(&mut out.object_changes, &b.object_changes);
        push_all(&mut out.packages, &b.packages);
        if let Some(e) = b.epoch {
            out.epochs.push(e);
        }
        proof {
            lemma_accumulate_push(views(chunk@).take(i as int), chunk@[i as int]@);
            assert(views(chunk@).take(i as int).push(chunk@[i as int]@) =~= views(chunk@).take(
                i as int + 1,
            ));
        }
        i = i + 1;
    }
    proof {
        assert(views(chunk@).take(chunk@.len() as int) =~= views(chunk@));
    }
    out
}

} // verus!
