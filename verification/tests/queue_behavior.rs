use checkpoint_committer::checkpoint::{CheckpointRecord, IndexedCheckpointBatch};
use checkpoint_committer::queue::{BatchQueue, DrainOutcome, PushRefusal};

fn ckpt(seq: u64) -> IndexedCheckpointBatch {
    IndexedCheckpointBatch {
        checkpoint: CheckpointRecord { sequence_number: seq, epoch: 0 },
        transactions: vec![],
        events: vec![],
        tx_indices: vec![],
        display_updates: vec![],
        object_changes: vec![],
        packages: vec![],
        epoch: None,
    }
}

fn seqs(chunk: &[IndexedCheckpointBatch]) -> Vec<u64> {
    chunk.iter().map(|b| b.checkpoint.sequence_number).collect()
}

#[test]
fn drain_is_greedy_and_never_waits_to_fill() {
    // A burst of K + 1 ready checkpoints with batch size K yields one
    // batch of K followed immediately by one batch of 1.
    let k: usize = 4;
    let mut q = BatchQueue::new(16);
    for seq in 0..(k as u64 + 1) {
        q.try_push(ckpt(seq)).unwrap();
    }
    match q.drain_ready(k) {
        DrainOutcome::Ready(chunk) => assert_eq!(seqs(&chunk), vec![0, 1, 2, 3]),
        _ => panic!("expected a full batch"),
    }
    match q.drain_ready(k) {
        DrainOutcome::Ready(chunk) => assert_eq!(seqs(&chunk), vec![4]),
        _ => panic!("expected the remainder at once, not a wait"),
    }
    match q.drain_ready(k) {
        DrainOutcome::Pending => {},
        _ => panic!("an open empty queue asks the consumer to wait"),
    }
}

#[test]
fn batch_size_one_drains_single_checkpoints_in_order() {
    let mut q = BatchQueue::new(8);
    for seq in [10, 11, 12] {
        q.try_push(ckpt(seq)).unwrap();
    }
    for expected in [10u64, 11, 12] {
        match q.drain_ready(1) {
            DrainOutcome::Ready(chunk) => assert_eq!(seqs(&chunk), vec![expected]),
            _ => panic!("expected one checkpoint"),
        }
    }
}

#[test]
fn full_queue_refuses_and_hands_the_record_back() {
    let mut q = BatchQueue::new(2);
    q.try_push(ckpt(1)).unwrap();
    q.try_push(ckpt(2)).unwrap();
    let refused = q.try_push(ckpt(3)).unwrap_err();
    assert_eq!(refused.reason, PushRefusal::Full);
    assert_eq!(refused.batch.checkpoint.sequence_number, 3);
    assert_eq!(q.len(), 2);
}

#[test]
fn closed_queue_refuses_pushes_and_signals_end_of_stream() {
    let mut q = BatchQueue::new(4);
    q.try_push(ckpt(5)).unwrap();
    q.close();
    assert!(q.is_closed());

    let refused = q.try_push(ckpt(6)).unwrap_err();
    assert_eq!(refused.reason, PushRefusal::Closed);

    // What was queued before the close still drains, in FIFO order...
    match q.drain_ready(3) {
        DrainOutcome::Ready(chunk) => assert_eq!(seqs(&chunk), vec![5]),
        _ => panic!("expected the buffered record"),
    }
    // ...and only then does the consumer observe end-of-stream.
    match q.drain_ready(3) {
        DrainOutcome::EndOfStream => {},
        _ => panic!("expected end-of-stream"),
    }
}
