use checkpoint_committer::checkpoint::{
    CheckpointRecord, IndexedCheckpointBatch, TransactionRecord,
};
use checkpoint_committer::committer::{
    Committer, CommitterConfig, CycleOutcome, start_tx_checkpoint_commit_task,
};
use checkpoint_committer::queue::BatchQueue;
use checkpoint_committer::store::InMemoryStore;

fn ckpt(seq: u64, tx_count: u64) -> IndexedCheckpointBatch {
    let mut transactions = Vec::new();
    let mut i: u64 = 0;
    while i < tx_count {
        transactions.push(TransactionRecord {
            tx_sequence_number: seq * 1000 + i,
            checkpoint_sequence_number: seq,
        });
        i += 1;
    }
    IndexedCheckpointBatch {
        checkpoint: CheckpointRecord { sequence_number: seq, epoch: 0 },
        transactions,
        events: vec![],
        tx_indices: vec![],
        display_updates: vec![],
        object_changes: vec![],
        packages: vec![],
        epoch: None,
    }
}

#[test]
fn whole_stream_commits_as_if_unbatched() {
    // Seven checkpoints, batch size three: the loop commits them as
    // chunks of 3, 3 and 1, and the store ends with every marker.
    let mut committer = Committer::new(CommitterConfig::new(3, false));
    let mut store = InMemoryStore::new();
    let mut queue = BatchQueue::new(16);
    for seq in 100..107u64 {
        queue.try_push(ckpt(seq, 2)).unwrap();
    }
    queue.close();

    start_tx_checkpoint_commit_task(&mut committer, &mut store, &mut queue).unwrap();

    assert_eq!(queue.len(), 0);
    assert_eq!(store.checkpoints.len(), 7);
    assert_eq!(store.transactions.len(), 14);
    for seq in 100..107u64 {
        assert!(store.has_checkpoint(seq));
    }
    assert_eq!(committer.watermark.latest(), Some(106));
    assert_eq!(committer.metrics.total_tx_checkpoint_committed, 7);
    assert_eq!(committer.metrics.total_transaction_committed, 14);
    // One rate observation per commit cycle: 3, 3, 1 checkpoints.
    let spans: Vec<u64> = committer
        .metrics
        .transaction_per_checkpoint
        .iter()
        .map(|o| o.checkpoints)
        .collect();
    assert_eq!(spans, vec![3, 3, 1]);
}

#[test]
fn bypass_mode_touches_neither_store_nor_watermark() {
    let mut committer = Committer::new(CommitterConfig::new(3, true));
    let mut store = InMemoryStore::new();
    let mut queue = BatchQueue::new(16);
    for seq in 10..15u64 {
        queue.try_push(ckpt(seq, 3)).unwrap();
    }
    queue.close();

    start_tx_checkpoint_commit_task(&mut committer, &mut store, &mut queue).unwrap();

    assert_eq!(queue.len(), 0, "the stream is still drained");
    assert_eq!(store.checkpoints.len(), 0);
    assert_eq!(store.transactions.len(), 0);
    assert_eq!(committer.watermark.latest(), None);
    assert_eq!(committer.metrics.total_tx_checkpoint_committed, 0);
}

#[test]
fn skip_cycle_reports_the_chunk_bounds() {
    let mut committer = Committer::new(CommitterConfig::new(5, true));
    let mut store = InMemoryStore::new();
    let chunk = vec![ckpt(40, 1), ckpt(41, 0)];
    let outcome = committer.process_chunk(&mut store, &chunk).unwrap();
    assert_eq!(
        outcome,
        CycleOutcome::Skipped { first_sequence_number: 40, last_sequence_number: 41 },
    );
    assert_eq!(store.checkpoints.len(), 0);
    assert_eq!(committer.watermark.latest(), None);
}

#[test]
fn empty_chunk_is_a_no_op_iteration() {
    let mut committer = Committer::new(CommitterConfig::new(5, false));
    let mut store = InMemoryStore::new();
    let outcome = committer.process_chunk(&mut store, &vec![]).unwrap();
    assert_eq!(outcome, CycleOutcome::Idle);
    assert_eq!(store.checkpoints.len(), 0);
    assert_eq!(committer.watermark.latest(), None);
}

#[test]
fn empty_stream_terminates_cleanly() {
    let mut committer = Committer::new(CommitterConfig::default());
    let mut store = InMemoryStore::new();
    let mut queue = BatchQueue::new(4);
    queue.close();
    start_tx_checkpoint_commit_task(&mut committer, &mut store, &mut queue).unwrap();
    assert_eq!(committer.watermark.latest(), None);
    assert_eq!(store.checkpoints.len(), 0);
}

#[test]
fn default_configuration_batches_five_and_commits() {
    let config = CommitterConfig::default();
    assert_eq!(config.checkpoint_commit_batch_size, 5);
    assert!(!config.skip_db_commit);
}
