//! Commit metrics: monotonic counters, the latest-committed gauge, and the
//! derived-rate observations recorded once per committed batch.
//!
//! Metrics are observational only: nothing here can fail, and nothing here
//! influences what gets committed. Counters saturate instead of wrapping,
//! so they never decrease.

use vstd::prelude::*;

verus! {

/// One transactions-per-checkpoint observation: `transactions` transactions
/// spread over a span of `checkpoints` checkpoint sequence numbers.
#[derive(Clone, Copy, Debug, PartialEq, Eq, Structural)]
pub struct RateObservation {
    pub transactions: u64,
    pub checkpoints: u64,
}

/// `a + b` capped at `u64::MAX`.
pub open spec fn sat_add64(a: int, b: int) -> int {
    if a + b > u64::MAX {
        u64::MAX as int
    } else {
        a + b
    }
}

/// The checkpoint span `last - first + 1`, capped at `u64::MAX`.
pub open spec fn span_of(first: u64, last: u64) -> int
    recommends
        first <= last,
{
    sat_add64(last - first, 1)
}

/// Milliseconds to commit one thousand transactions, given that committing
/// `transactions` of them took `elapsed_ms`; capped at `u64::MAX`.
pub open spec fn per_kilo_tx(elapsed_ms: u64, transactions: u64) -> int
    recommends
        transactions > 0,
{
    if elapsed_ms * 1000 / (transactions as int) > u64::MAX {
        u64::MAX as int
    } else {
        elapsed_ms * 1000 / (transactions as int)
    }
}

/// The metrics surface of the committer.
#[derive(Clone, Debug)]
pub struct IndexerMetrics {
    /// Checkpoints committed over the life of the process.
    pub total_tx_checkpoint_committed: u64,
    /// Transactions committed over the life of the process.
    pub total_transaction_committed: u64,
    /// Epoch-change records committed over the life of the process.
    pub total_epoch_committed: u64,
    /// The last committed checkpoint sequence number, as a gauge.
    pub latest_tx_checkpoint_sequence_number: Option<u64>,
    /// Transactions-per-checkpoint observations, one per committed batch.
    pub transaction_per_checkpoint: Vec<RateObservation>,
    /// Per-thousand-transactions commit latency observations, in
    /// milliseconds; batches with no transactions record nothing here.
    pub thousand_transaction_avg_commit_latency_ms: Vec<u64>,
    /// Wall-clock duration of whole commit cycles, in milliseconds.
    pub checkpoint_commit_latency_ms: Vec<u64>,
    /// Wall-clock duration of the concurrent bulk phase, in milliseconds.
    pub bulk_phase_latency_ms: Vec<u64>,
}

/// Milliseconds per one thousand transactions, or `None` for a batch with
/// no transactions at all: the rate is undefined there, and the guard is
/// what keeps a zero transaction count from being divided by.
pub fn latency_per_kilo_tx_ms(elapsed_ms: u64, transactions: u64) -> (r: Option<u64>)
    ensures
        r is None <==> transactions == 0,
        transactions > 0 ==> r == Some(per_kilo_tx(elapsed_ms, transactions) as u64),
{
    if transactions == 0 {
        None
    } else {
        let scaled: u128 = (elapsed_ms as u128) * 1000;
        let q: u128 = scaled / (transactions as u128);
        if q > u64::MAX as u128 {
            Some(u64::MAX)
        } else {
            Some(q as u64)
        }
    }
}

impl IndexerMetrics {
    /// Fresh metrics: every counter zero, no observations yet.
    pub fn new() -> (m: IndexerMetrics)
        ensures
            m.total_tx_checkpoint_committed == 0,
            m.total_transaction_committed == 0,
            m.total_epoch_committed == 0,
            m.latest_tx_checkpoint_sequence_number is None,
            m.transaction_per_checkpoint@ == Seq::<RateObservation>::empty(),
            m.thousand_transaction_avg_commit_latency_ms@ == Seq::<u64>::empty(),
            m.checkpoint_commit_latency_ms@ == Seq::<u64>::empty(),
            m.bulk_phase_latency_ms@ == Seq::<u64>::empty(),
    {
        IndexerMetrics {
            total_tx_checkpoint_committed: 0,
            total_transaction_committed: 0,
            total_epoch_committed: 0,
            latest_tx_checkpoint_sequence_number: None,
            transaction_per_checkpoint: Vec::new(),
            thousand_transaction_avg_commit_latency_ms: Vec::new(),
            checkpoint_commit_latency_ms: Vec::new(),
            bulk_phase_latency_ms: Vec::new(),
        }
    }

    /// Record one successfully committed batch: bump the totals, move the
    /// gauge to the batch's last sequence number, and observe the
    /// transactions-per-checkpoint rate over the batch's span.
    pub fn record_committed_batch(
        &mut self,
        checkpoints: u64,
        transactions: u64,
        epochs: u64,
        first: u64,
        last: u64,
    )
        requires
            first <= last,
        ensures
            final(self).total_tx_checkpoint_committed == sat_add64(
                old(self).total_tx_checkpoint_committed as int,
                checkpoints as int,
            ),
            final(self).total_transaction_committed == sat_add64(
                old(self).total_transaction_committed as int,
                transactions as int,
            ),
            final(self).total_epoch_committed == sat_add64(
                old(self).total_epoch_committed as int,
                epochs as int,
            ),
            final(self).latest_tx_checkpoint_sequence_number == Some(last),
            final(self).transaction_per_checkpoint@ == old(self).transaction_per_checkpoint@.push(
                RateObservation { transactions, checkpoints: span_of(first, last) as u64 },
            ),
            final(self).thousand_transaction_avg_commit_latency_ms == old(
                self,
            ).thousand_transaction_avg_commit_latency_ms,
            final(self).checkpoint_commit_latency_ms == old(self).checkpoint_commit_latency_ms,
            final(self).bulk_phase_latency_ms == old(self).bulk_phase_latency_ms,
    {
        self.total_tx_checkpoint_committed = saturating_add(
            self.total_tx_checkpoint_committed,
            checkpoints,
        );
        self.total_transaction_committed = saturating_add(
            self.total_transaction_committed,
            transactions,
        );
        self.total_epoch_committed = saturating_add(self.total_epoch_committed, epochs);
        self.latest_tx_checkpoint_sequence_number = Some(last);
        let span = saturating_add(last - first, 1);
        self.transaction_per_checkpoint.push(RateObservation { transactions, checkpoints: span });
    }

    /// Observe the per-thousand-transactions commit latency of one batch,
    /// unless the batch held no transactions: the rate is undefined then
    /// and the observation is skipped.
    pub fn observe_transaction_latency(&mut self, elapsed_ms: u64, transactions: u64)
        ensures
            transactions == 0 ==> *final(self) == *old(self),
            transactions > 0 ==> *final(self) == (IndexerMetrics {
                thousand_transaction_avg_commit_latency_ms: final(self).thousand_transaction_avg_commit_latency_ms,
                ..*old(self)
            }) && final(self).thousand_transaction_avg_commit_latency_ms@ == old(
                self,
            ).thousand_transaction_avg_commit_latency_ms@.push(
                per_kilo_tx(elapsed_ms, transactions) as u64,
            ),
    {
        match latency_per_kilo_tx_ms(elapsed_ms, transactions) {
            None => {},
            Some(ms) => {
                self.thousand_transaction_avg_commit_latency_ms.push(ms);
            },
        }
    }

    /// Observe the wall-clock duration of one whole commit cycle.
    pub fn observe_commit_cycle_ms(&mut self, elapsed_ms: u64)
        ensures
            *final(self) == (IndexerMetrics {
                checkpoint_commit_latency_ms: final(self).checkpoint_commit_latency_ms,
                ..*old(self)
            }),
            final(self).checkpoint_commit_latency_ms@ == old(
                self,
            ).checkpoint_commit_latency_ms@.push(elapsed_ms),
    {
        self.checkpoint_commit_latency_ms.push(elapsed_ms);
    }

    /// Observe the wall-clock duration of one concurrent bulk phase.
    pub fn observe_bulk_phase_ms(&mut self, elapsed_ms: u64)
        ensures
            *final(self) == (IndexerMetrics {
                bulk_phase_latency_ms: final(self).bulk_phase_latency_ms,
                ..*old(self)
            }),
            final(self).bulk_phase_latency_ms@ == old(self).bulk_phase_latency_ms@.push(
                elapsed_ms,
            ),
    {
        self.bulk_phase_latency_ms.push(elapsed_ms);
    }
}

/// `a + b` capped at `u64::MAX`.
fn saturating_add(a: u64, b: u64) -> (r: u64)
    ensures
        r == sat_add64(a as int, b as int),
{
    if a <= u64::MAX - b {
        a + b
    } else {
        u64::MAX
    }
}

} // verus!
