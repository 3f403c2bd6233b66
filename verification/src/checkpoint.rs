//! The data produced upstream for one checkpoint: the checkpoint metadata
//! record and the per-category collections derived from it.

use vstd::prelude::*;
use crate::table::Record;

verus! {

/// The checkpoint metadata row. Its presence in the store for a sequence
/// number is the commit marker: it is written only after every other
/// category of that checkpoint is durable.
#[derive(Clone, Copy, Debug, PartialEq, Eq, Structural)]
pub struct CheckpointRecord {
    /// Strictly increasing position of the checkpoint in the chain.
    pub sequence_number: u64,
    /// The epoch the checkpoint belongs to.
    pub epoch: u64,
}

impl Record for CheckpointRecord {
    open spec fn key(self) -> u64 {
        self.sequence_number
    }

    fn record_key(&self) -> u64 {
        self.sequence_number
    }
}

/// One executed transaction of a checkpoint.
#[derive(Clone, Copy, Debug, PartialEq, Eq, Structural)]
pub struct TransactionRecord {
    /// Global position of the transaction across the chain.
    pub tx_sequence_number: u64,
    /// The checkpoint the transaction was finalized in.
    pub checkpoint_sequence_number: u64,
}

impl Record for TransactionRecord {
    open spec fn key(self) -> u64 {
        self.tx_sequence_number
    }

    fn record_key(&self) -> u64 {
        self.tx_sequence_number
    }
}

/// The secondary-index row derived from one transaction.
#[derive(Clone, Copy, Debug, PartialEq, Eq, Structural)]
pub struct TxIndexRecord {
    /// Global position of the indexed transaction.
    pub tx_sequence_number: u64,
    /// The checkpoint the indexed transaction was finalized in.
    pub checkpoint_sequence_number: u64,
}

impl Record for TxIndexRecord {
    open spec fn key(self) -> u64 {
        self.tx_sequence_number
    }

    fn record_key(&self) -> u64 {
        self.tx_sequence_number
    }
}

/// One event emitted while executing a checkpoint's transactions.
#[derive(Clone, Copy, Debug, PartialEq, Eq, Structural)]
pub struct EventRecord {
    /// Globally unique identity of the event.
    pub event_id: u64,
    /// The checkpoint the event was emitted in.
    pub checkpoint_sequence_number: u64,
}

impl Record for EventRecord {
    open spec fn key(self) -> u64 {
        self.event_id
    }

    fn record_key(&self) -> u64 {
        self.event_id
    }
}

/// One display-metadata update, keyed by the object type it describes.
/// Display metadata is idempotent per type, so a later update for the same
/// type simply replaces an earlier one.
#[derive(Clone, Copy, Debug, PartialEq, Eq, Structural)]
pub struct DisplayUpdate {
    /// The object type whose rendering template changed.
    pub object_type: u64,
    /// Identity of the new rendering template.
    pub template: u64,
}

impl Record for DisplayUpdate {
    open spec fn key(self) -> u64 {
        self.object_type
    }

    fn record_key(&self) -> u64 {
        self.object_type
    }
}

/// The latest state of one object touched by a checkpoint.
#[derive(Clone, Copy, Debug, PartialEq, Eq, Structural)]
pub struct ObjectChangeRecord {
    /// Identity of the object.
    pub object_id: u64,
    /// Version of the object after the change.
    pub object_version: u64,
}

impl Record for ObjectChangeRecord {
    open spec fn key(self) -> u64 {
        self.object_id
    }

    fn record_key(&self) -> u64 {
        self.object_id
    }
}

/// One package published in a checkpoint.
#[derive(Clone, Copy, Debug, PartialEq, Eq, Structural)]
pub struct PackageRecord {
    /// Identity of the published package.
    pub package_id: u64,
    /// The checkpoint the package was published in.
    pub checkpoint_sequence_number: u64,
}

impl Record for PackageRecord {
    open spec fn key(self) -> u64 {
        self.package_id
    }

    fn record_key(&self) -> u64 {
        self.package_id
    }
}

/// The epoch-change row written when a checkpoint closes an epoch.
#[derive(Clone, Copy, Debug, PartialEq, Eq, Structural)]
pub struct EpochRecord {
    /// The epoch being recorded.
    pub epoch: u64,
    /// The first checkpoint of that epoch.
    pub first_checkpoint_sequence_number: u64,
}

impl Record for EpochRecord {
    open spec fn key(self) -> u64 {
        self.epoch
    }

    fn record_key(&self) -> u64 {
        self.epoch
    }
}

/// Everything the upstream indexing stage hands over for one checkpoint:
/// fully indexed, not yet committed.
#[derive(Clone, Debug)]
pub struct IndexedCheckpointBatch {
    /// The checkpoint metadata record, written last as the commit marker.
    pub checkpoint: CheckpointRecord,
    /// The checkpoint's transactions, in execution order.
    pub transactions: Vec<TransactionRecord>,
    /// The events emitted by the checkpoint's transactions, in order.
    pub events: Vec<EventRecord>,
    /// The secondary-index rows of the checkpoint's transactions, in order.
    pub tx_indices: Vec<TxIndexRecord>,
    /// Display-metadata updates of the checkpoint, in order.
    pub display_updates: Vec<DisplayUpdate>,
    /// Object states after the checkpoint, in order.
    pub object_changes: Vec<ObjectChangeRecord>,
    /// Packages published by the checkpoint, in order.
    pub packages: Vec<PackageRecord>,
    /// The epoch-change record, present when this checkpoint closes an epoch.
    pub epoch: Option<EpochRecord>,
}

/// The mathematical view of an [`IndexedCheckpointBatch`].
pub struct BatchView {
    pub checkpoint: CheckpointRecord,
    pub transactions: Seq<TransactionRecord>,
    pub events: Seq<EventRecord>,
    pub tx_indices: Seq<TxIndexRecord>,
    pub display_updates: Seq<DisplayUpdate>,
    pub object_changes: Seq<ObjectChangeRecord>,
    pub packages: Seq<PackageRecord>,
    pub epoch: Option<EpochRecord>,
}

impl View for IndexedCheckpointBatch {
    type V = BatchView;

    open spec fn view(&self) -> BatchView {
        BatchView {
            checkpoint: self.checkpoint,
            transactions: self.transactions@,
            events: self.events@,
            tx_indices: self.tx_indices@,
            display_updates: self.display_updates@,
            object_changes: self.object_changes@,
            packages: self.packages@,
            epoch: self.epoch,
        }
    }
}

/// The views of a sequence of indexed checkpoints.
pub open spec fn views(s: Seq<IndexedCheckpointBatch>) -> Seq<BatchView> {
    s.map_values(|b: IndexedCheckpointBatch| b@)
}

/// Sequence numbers strictly increase along the stream.
pub open spec fn strictly_increasing(s: Seq<BatchView>) -> bool {
    forall|i: int, j: int|
        0 <= i < j < s.len() ==> s[i].checkpoint.sequence_number < s[j].checkpoint.sequence_number
}

/// The sequence number of the first checkpoint of a non-empty run.
pub open spec fn first_seq(s: Seq<BatchView>) -> u64
    recommends
        s.len() > 0,
{
    s.first().checkpoint.sequence_number
}

/// The sequence number of the last checkpoint of a non-empty run.
pub open spec fn last_seq(s: Seq<BatchView>) -> u64
    recommends
        s.len() > 0,
{
    s.last().checkpoint.sequence_number
}

/// Under strictly increasing sequence numbers, the last checkpoint of a
/// non-empty run carries the run's maximum sequence number: a watermark
/// published at `last_seq` covers every checkpoint of the run.
pub proof fn lemma_last_seq_is_max(s: Seq<BatchView>, i: int)
    requires
        strictly_increasing(s),
        0 <= i < s.len(),
    ensures
        s[i].checkpoint.sequence_number <= last_seq(s),
{
}

/// Taking views commutes with concatenation.
pub proof fn lemma_views_append(a: Seq<IndexedCheckpointBatch>, b: Seq<IndexedCheckpointBatch>)
    ensures
        views(a + b) == views(a) + views(b),
{
    assert(views(a + b) =~= views(a) + views(b));
}

} // verus!
