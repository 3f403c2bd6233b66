use checkpoint_committer::checkpoint::{
    CheckpointRecord, IndexedCheckpointBatch, TransactionRecord,
};
use checkpoint_committer::committer::{CommitError, Committer, CommitterConfig};
use checkpoint_committer::store::{Category, FaultPlan, InMemoryStore};

fn ckpt(seq: u64, epoch: u64, tx_count: u64) -> IndexedCheckpointBatch {
    let mut transactions = Vec::new();
    let mut i: u64 = 0;
    while i < tx_count {
        transactions.push(TransactionRecord {
            tx_sequence_number: seq * 1000 + i,
            checkpoint_sequence_number: seq,
        });
        i += 1;
    }
    IndexedCheckpointBatch {
        checkpoint: CheckpointRecord { sequence_number: seq, epoch },
        transactions,
        events: vec![],
        tx_indices: vec![],
        display_updates: vec![],
        object_changes: vec![],
        packages: vec![],
        epoch: None,
    }
}

fn committer() -> Committer {
    Committer::new(CommitterConfig::new(5, false))
}

#[test]
fn concrete_scenario_three_checkpoints() {
    // Checkpoints 10, 11, 12 with 5, 0, 3 transactions and batch size 5:
    // one batch of 8 transactions, watermark 12, rate observation 8 / 3.
    let mut c = committer();
    let mut store = InMemoryStore::new();
    let chunk = vec![ckpt(10, 1, 5), ckpt(11, 1, 0), ckpt(12, 1, 3)];

    let summary = c.commit_checkpoints(&mut store, &chunk).unwrap();
    assert_eq!(summary.first_sequence_number, 10);
    assert_eq!(summary.last_sequence_number, 12);
    assert_eq!(summary.checkpoints_committed, 3);
    assert_eq!(summary.transactions_committed, 8);
    assert_eq!(summary.epochs_committed, 0);

    assert_eq!(c.watermark.latest(), Some(12));
    assert_eq!(c.metrics.total_tx_checkpoint_committed, 3);
    assert_eq!(c.metrics.total_transaction_committed, 8);
    assert_eq!(c.metrics.transaction_per_checkpoint.len(), 1);
    let obs = c.metrics.transaction_per_checkpoint[0];
    assert_eq!(obs.transactions, 8);
    assert_eq!(obs.checkpoints, 3);

    assert_eq!(store.transactions.len(), 8);
    assert_eq!(store.checkpoints.len(), 3);
    assert!(store.has_checkpoint(10));
    assert!(store.has_checkpoint(11));
    assert!(store.has_checkpoint(12));
    assert!(!store.has_checkpoint(13));
}

#[test]
fn bulk_failure_never_reaches_phase_two() {
    // Whatever single bulk category fails, the checkpoint metadata is never
    // written and the watermark never advances.
    let plans = [
        (
            FaultPlan { transactions: true, ..all_clear() },
            Category::Transactions,
        ),
        (FaultPlan { tx_indices: true, ..all_clear() }, Category::TxIndices),
        (FaultPlan { events: true, ..all_clear() }, Category::Events),
        (FaultPlan { displays: true, ..all_clear() }, Category::Displays),
        (FaultPlan { packages: true, ..all_clear() }, Category::Packages),
        (FaultPlan { objects: true, ..all_clear() }, Category::Objects),
        (FaultPlan { epochs: true, ..all_clear() }, Category::Epochs),
    ];
    for (plan, category) in plans {
        let mut c = committer();
        let mut store = InMemoryStore::with_faults(plan);
        let chunk = vec![ckpt(10, 1, 2), ckpt(11, 1, 1)];
        let err = c.commit_checkpoints(&mut store, &chunk).unwrap_err();
        assert_eq!(err, CommitError::PersistenceFailed { category });
        assert_eq!(store.checkpoints.len(), 0, "phase two must not run");
        assert_eq!(c.watermark.latest(), None, "watermark must not advance");
        assert_eq!(c.metrics.total_tx_checkpoint_committed, 0);
        assert_eq!(c.metrics.transaction_per_checkpoint.len(), 0);
    }
}

fn all_clear() -> FaultPlan {
    FaultPlan {
        transactions: false,
        tx_indices: false,
        events: false,
        displays: false,
        packages: false,
        objects: false,
        epochs: false,
        checkpoints: false,
    }
}

#[test]
fn sibling_categories_still_write_when_one_fails() {
    // The bulk writes are fanned out together: a failing events write does
    // not stop the transactions write, but it does stop phase two.
    let plan = FaultPlan { events: true, ..all_clear() };
    let mut c = committer();
    let mut store = InMemoryStore::with_faults(plan);
    let chunk = vec![ckpt(10, 1, 4)];
    let err = c.commit_checkpoints(&mut store, &chunk).unwrap_err();
    assert_eq!(err, CommitError::PersistenceFailed { category: Category::Events });
    assert_eq!(store.transactions.len(), 4);
    assert_eq!(store.events.len(), 0);
    assert_eq!(store.checkpoints.len(), 0);
    assert_eq!(c.watermark.latest(), None);
}

#[test]
fn metadata_failure_reports_checkpoints_and_keeps_watermark() {
    let plan = FaultPlan { checkpoints: true, ..all_clear() };
    let mut c = committer();
    let mut store = InMemoryStore::with_faults(plan);
    let chunk = vec![ckpt(10, 1, 2)];
    let err = c.commit_checkpoints(&mut store, &chunk).unwrap_err();
    assert_eq!(err, CommitError::PersistenceFailed { category: Category::Checkpoints });
    assert_eq!(store.transactions.len(), 2, "bulk phase succeeded");
    assert_eq!(store.checkpoints.len(), 0);
    assert_eq!(c.watermark.latest(), None);
}

#[test]
fn watermark_without_observers_is_fatal() {
    let mut c = committer();
    c.watermark.drop_observers();
    let mut store = InMemoryStore::new();
    let chunk = vec![ckpt(10, 1, 1)];
    let err = c.commit_checkpoints(&mut store, &chunk).unwrap_err();
    assert_eq!(err, CommitError::WatermarkClosed);
    // The data is durable; only the notification failed.
    assert_eq!(store.checkpoints.len(), 1);
    assert_eq!(c.watermark.latest(), None);
}

#[test]
fn replaying_a_batch_is_idempotent() {
    // Replaying the same batch (crash before the watermark advanced, then
    // restart) leaves the store exactly as a single commit does.
    let chunk = vec![ckpt(10, 1, 5), ckpt(11, 1, 0), ckpt(12, 1, 3)];

    let mut once = Committer::new(CommitterConfig::new(5, false));
    let mut store_once = InMemoryStore::new();
    once.commit_checkpoints(&mut store_once, &chunk).unwrap();

    let mut twice = Committer::new(CommitterConfig::new(5, false));
    let mut store_twice = InMemoryStore::new();
    twice.commit_checkpoints(&mut store_twice, &chunk).unwrap();
    twice.commit_checkpoints(&mut store_twice, &chunk).unwrap();

    assert_eq!(store_once.transactions, store_twice.transactions);
    assert_eq!(store_once.checkpoints, store_twice.checkpoints);
    assert_eq!(store_once.events, store_twice.events);
    assert_eq!(store_once.displays, store_twice.displays);
    assert_eq!(store_twice.checkpoints.len(), 3, "no duplicate checkpoint rows");
    assert_eq!(twice.watermark.latest(), Some(12));
}

#[test]
fn watermark_is_monotonic_across_commits() {
    let mut c = committer();
    let mut store = InMemoryStore::new();

    c.commit_checkpoints(&mut store, &vec![ckpt(10, 1, 1), ckpt(11, 1, 2)]).unwrap();
    assert_eq!(c.watermark.latest(), Some(11));
    let v1 = c.watermark.version();

    c.commit_checkpoints(&mut store, &vec![ckpt(12, 1, 0)]).unwrap();
    assert_eq!(c.watermark.latest(), Some(12));
    assert!(c.watermark.changed_since(v1));

    c.commit_checkpoints(&mut store, &vec![ckpt(13, 1, 4), ckpt(14, 1, 1)]).unwrap();
    assert_eq!(c.watermark.latest(), Some(14));
    // After commits covering 10..14 the watermark equals the upper end.
    assert_eq!(c.metrics.latest_tx_checkpoint_sequence_number, Some(14));
    assert_eq!(c.metrics.total_tx_checkpoint_committed, 5);
    assert_eq!(c.metrics.total_transaction_committed, 8);
}

#[test]
fn zero_transaction_checkpoint_commits_cleanly() {
    // A batch holding only a checkpoint with no transactions: the commit
    // succeeds and the per-thousand-transactions latency observation is
    // skipped rather than divided by zero.
    let mut c = committer();
    let mut store = InMemoryStore::new();
    let summary = c.commit_checkpoints(&mut store, &vec![ckpt(11, 1, 0)]).unwrap();
    assert_eq!(summary.transactions_committed, 0);
    assert_eq!(c.watermark.latest(), Some(11));

    c.metrics.observe_transaction_latency(250, summary.transactions_committed);
    assert_eq!(c.metrics.thousand_transaction_avg_commit_latency_ms.len(), 0);

    let obs = c.metrics.transaction_per_checkpoint[0];
    assert_eq!(obs.transactions, 0);
    assert_eq!(obs.checkpoints, 1);
}
