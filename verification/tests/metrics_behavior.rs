use checkpoint_committer::metrics::{IndexerMetrics, latency_per_kilo_tx_ms};
use checkpoint_committer::watermark::CommitWatermark;

#[test]
fn per_kilo_latency_has_exact_values() {
    // 500 ms for 8 transactions: 500 * 1000 / 8 = 62500 ms per thousand.
    assert_eq!(latency_per_kilo_tx_ms(500, 8), Some(62500));
    // Truncating division: 1 * 1000 / 3 = 333.
    assert_eq!(latency_per_kilo_tx_ms(1, 3), Some(333));
    assert_eq!(latency_per_kilo_tx_ms(0, 5), Some(0));
}

#[test]
fn per_kilo_latency_is_undefined_without_transactions() {
    assert_eq!(latency_per_kilo_tx_ms(250, 0), None);
    assert_eq!(latency_per_kilo_tx_ms(0, 0), None);
}

#[test]
fn per_kilo_latency_saturates() {
    assert_eq!(latency_per_kilo_tx_ms(u64::MAX, 1), Some(u64::MAX));
    assert_eq!(latency_per_kilo_tx_ms(u64::MAX, 999), Some(u64::MAX));
}

#[test]
fn counters_saturate_instead_of_wrapping() {
    let mut m = IndexerMetrics::new();
    m.record_committed_batch(u64::MAX - 1, u64::MAX, 0, 1, 2);
    m.record_committed_batch(5, 1, 1, 3, 4);
    assert_eq!(m.total_tx_checkpoint_committed, u64::MAX);
    assert_eq!(m.total_transaction_committed, u64::MAX);
    assert_eq!(m.total_epoch_committed, 1);
    assert_eq!(m.latest_tx_checkpoint_sequence_number, Some(4));
}

#[test]
fn rate_observation_spans_the_sequence_numbers() {
    let mut m = IndexerMetrics::new();
    m.record_committed_batch(3, 8, 0, 10, 12);
    let obs = m.transaction_per_checkpoint[0];
    assert_eq!(obs.transactions, 8);
    assert_eq!(obs.checkpoints, 3);
}

#[test]
fn latency_observations_accumulate_in_order() {
    let mut m = IndexerMetrics::new();
    m.observe_transaction_latency(100, 4);
    m.observe_transaction_latency(90, 0);
    m.observe_transaction_latency(60, 3);
    assert_eq!(m.thousand_transaction_avg_commit_latency_ms, vec![25000, 20000]);
    m.observe_commit_cycle_ms(42);
    m.observe_bulk_phase_ms(17);
    assert_eq!(m.checkpoint_commit_latency_ms, vec![42]);
    assert_eq!(m.bulk_phase_latency_ms, vec![17]);
}

#[test]
fn watermark_versions_notify_observers() {
    let mut w = CommitWatermark::new();
    assert_eq!(w.latest(), None);
    let seen = w.version();
    assert!(!w.changed_since(seen));

    w.publish(7).unwrap();
    assert_eq!(w.latest(), Some(7));
    assert!(w.changed_since(seen));

    // Re-publishing the same value is allowed and still notifies.
    let seen = w.version();
    w.publish(7).unwrap();
    assert!(w.changed_since(seen));
    assert_eq!(w.latest(), Some(7));
}

#[test]
fn watermark_without_observers_refuses_to_publish() {
    let mut w = CommitWatermark::new();
    w.publish(3).unwrap();
    w.drop_observers();
    assert!(w.publish(4).is_err());
    assert_eq!(w.latest(), Some(3), "a refused publish changes nothing");
}
