//! The committer: drains ready checkpoints from the queue, accumulates
//! them into one commit batch, writes the batch to the store under the
//! two-phase protocol, publishes the watermark, and records metrics.
//!
//! Phase one writes every bulk category; only when all of them succeeded is
//! the checkpoint metadata written, so a metadata row for a sequence number
//! proves the whole checkpoint durable. Any write failure aborts the cycle
//! and is escalated to the caller: there is no in-process retry, recovery
//! is restart-and-replay from the last durable watermark.

use vstd::prelude::*;
use crate::batch::{
    accumulate, lemma_accumulate_append, lemma_accumulate_checkpoints, spec_accumulate,
};
use crate::checkpoint::{
    BatchView, IndexedCheckpointBatch, first_seq, last_seq, lemma_views_append,
    strictly_increasing, views,
};
use crate::metrics::{IndexerMetrics, RateObservation, sat_add64, span_of};
use crate::queue::{BatchQueue, DrainOutcome};
use crate::store::{
    Category, InMemoryStore, first_phase1_failure, lemma_store_commit_append, phase1_applied,
    store_after_commit,
};
use crate::watermark::CommitWatermark;

verus! {

/// The committer's configuration, read once at construction.
#[derive(Clone, Copy, Debug, PartialEq, Eq, Structural)]
pub struct CommitterConfig {
    /// How many ready checkpoints at most are merged into one commit.
    pub checkpoint_commit_batch_size: usize,
    /// The operational bypass: drained batches are discarded unread, the
    /// store and the watermark are never touched.
    pub skip_db_commit: bool,
}

impl CommitterConfig {
    /// A batch size of zero could never make progress.
    pub open spec fn wf(self) -> bool {
        self.checkpoint_commit_batch_size >= 1
    }

    /// A configuration with the given batch size and bypass flag.
    pub fn new(checkpoint_commit_batch_size: usize, skip_db_commit: bool) -> (c: CommitterConfig)
        requires
            checkpoint_commit_batch_size >= 1,
        ensures
            c.checkpoint_commit_batch_size == checkpoint_commit_batch_size,
            c.skip_db_commit == skip_db_commit,
            c.wf(),
    {
        CommitterConfig { checkpoint_commit_batch_size, skip_db_commit }
    }
}

impl Default for CommitterConfig {
    /// Five checkpoints per commit, bypass off.
    fn default() -> (c: CommitterConfig)
        ensures
            c.checkpoint_commit_batch_size == 5,
            !c.skip_db_commit,
            c.wf(),
    {
        CommitterConfig { checkpoint_commit_batch_size: 5, skip_db_commit: false }
    }
}

/// Why a commit cycle failed. Every variant is fatal to the commit task:
/// the caller decides between process exit and restart-and-replay.
#[derive(Clone, Copy, Debug, PartialEq, Eq, Structural)]
pub enum CommitError {
    /// A persistence call failed in the named category.
    PersistenceFailed { category: Category },
    /// The watermark has no live observer left: a wiring defect upstream.
    WatermarkClosed,
}

/// What one successful commit cycle wrote.
#[derive(Clone, Copy, Debug, PartialEq, Eq, Structural)]
pub struct CommitSummary {
    pub first_sequence_number: u64,
    pub last_sequence_number: u64,
    pub checkpoints_committed: u64,
    pub transactions_committed: u64,
    pub epochs_committed: u64,
}

/// The summary a successful commit of `s` reports.
pub open spec fn spec_summary(s: Seq<BatchView>) -> CommitSummary
    recommends
        s.len() > 0,
{
    CommitSummary {
        first_sequence_number: first_seq(s),
        last_sequence_number: last_seq(s),
        checkpoints_committed: s.len() as u64,
        transactions_committed: spec_accumulate(s).transactions.len() as u64,
        epochs_committed: spec_accumulate(s).epochs.len() as u64,
    }
}

/// What one iteration of the commit loop did.
#[derive(Clone, Copy, Debug, PartialEq, Eq, Structural)]
pub enum CycleOutcome {
    /// The drained chunk was empty: a no-op iteration, not an error.
    Idle,
    /// Bypass mode discarded the chunk: the store and the watermark were
    /// never touched.
    Skipped { first_sequence_number: u64, last_sequence_number: u64 },
    /// The chunk was committed.
    Committed(CommitSummary),
}

/// The commit loop's state: configuration, the watermark it alone writes,
/// and the metrics surface.
#[derive(Debug)]
pub struct Committer {
    pub config: CommitterConfig,
    pub watermark: CommitWatermark,
    pub metrics: IndexerMetrics,
}

impl Committer {
    /// A fresh committer: nothing committed, every counter zero.
    pub fn new(config: CommitterConfig) -> (c: Committer)
        requires
            config.wf(),
        ensures
            c.config == config,
            c.watermark.value_opt() is None,
            c.watermark.version_id() == 0,
            c.watermark.is_observed(),
            c.metrics.total_tx_checkpoint_committed == 0,
            c.metrics.total_transaction_committed == 0,
            c.metrics.total_epoch_committed == 0,
            c.metrics.latest_tx_checkpoint_sequence_number is None,
            c.metrics.transaction_per_checkpoint@ == Seq::<RateObservation>::empty(),
            c.metrics.thousand_transaction_avg_commit_latency_ms@ == Seq::<u64>::empty(),
    {
        Committer {
            config,
            watermark: CommitWatermark::new(),
            metrics: IndexerMetrics::new(),
        }
    }

    /// Commit one non-empty run of indexed checkpoints: accumulate it into
    /// a single batch, write every bulk category (phase one), then the
    /// checkpoint metadata markers (phase two), then publish the watermark
    /// and record the metrics.
    ///
    /// If any bulk write fails, the metadata table and the watermark are
    /// untouched and the first failing category, in dispatch order, is
    /// reported. If the metadata write fails, the watermark is untouched.
    /// The watermark is advanced, exactly once, only after phase two
    /// succeeded in full.
    pub fn commit_checkpoints(
        &mut self,
        store: &mut InMemoryStore,
        chunk: &Vec<IndexedCheckpointBatch>,
    ) -> (r: Result<CommitSummary, CommitError>)
        requires
            chunk@.len() >= 1,
            strictly_increasing(views(chunk@)),
            old(self).watermark.admits(last_seq(views(chunk@))),
        ensures
            final(self).config == old(self).config,
            final(store).faults == old(store).faults,
            // The watermark never decreases: whatever it held before lies
            // at or below what a successful commit publishes.
            old(self).watermark.value_opt() matches Some(w) ==> w <= last_seq(views(chunk@)),
            first_phase1_failure(old(store).faults) matches Some(c) ==> {
                &&& r == Err::<CommitSummary, CommitError>(
                    CommitError::PersistenceFailed { category: c },
                )
                &&& final(store)@ == phase1_applied(
                    old(store)@,
                    old(store).faults,
                    spec_accumulate(views(chunk@)),
                )
                &&& final(store)@.checkpoints == old(store)@.checkpoints
                &&& final(self).watermark == old(self).watermark
                &&& final(self).metrics == old(self).metrics
            },
            first_phase1_failure(old(store).faults) is None && old(store).faults.checkpoints ==> {
                &&& r == Err::<CommitSummary, CommitError>(
                    CommitError::PersistenceFailed { category: Category::Checkpoints },
                )
                &&& final(store)@ == phase1_applied(
                    old(store)@,
                    old(store).faults,
                    spec_accumulate(views(chunk@)),
                )
                &&& final(store)@.checkpoints == old(store)@.checkpoints
                &&& final(self).watermark == old(self).watermark
                &&& final(self).metrics == old(self).metrics
            },
            first_phase1_failure(old(store).faults) is None && !old(store).faults.checkpoints ==> {
                &&& final(store)@ == store_after_commit(old(store)@, spec_accumulate(views(chunk@)))
                &&& old(self).watermark.is_observed() ==> {
                    &&& r == Ok::<CommitSummary, CommitError>(spec_summary(views(chunk@)))
                    &&& final(self).watermark.value_opt() == Some(last_seq(views(chunk@)))
                    &&& final(self).watermark.is_observed()
                    &&& final(self).metrics.total_tx_checkpoint_committed == sat_add64(
                        old(self).metrics.total_tx_checkpoint_committed as int,
                        chunk@.len() as int,
                    )
                    &&& final(self).metrics.total_transaction_committed == sat_add64(
                        old(self).metrics.total_transaction_committed as int,
                        spec_accumulate(views(chunk@)).transactions.len() as int,
                    )
                    &&& final(self).metrics.total_epoch_committed == sat_add64(
                        old(self).metrics.total_epoch_committed as int,
                        spec_accumulate(views(chunk@)).epochs.len() as int,
                    )
                    &&& final(self).metrics.latest_tx_checkpoint_sequence_number == Some(
                        last_seq(views(chunk@)),
                    )
                    &&& final(self).metrics.transaction_per_checkpoint@ == old(
                        self,
                    ).metrics.transaction_per_checkpoint@.push(
                        RateObservation {
                            transactions: spec_accumulate(views(chunk@)).transactions.len() as u64,
                            checkpoints: span_of(
                                first_seq(views(chunk@)),
                                last_seq(views(chunk@)),
                            ) as u64,
                        },
                    )
                    &&& final(self).metrics.thousand_transaction_avg_commit_latency_ms == old(
                        self,
                    ).metrics.thousand_transaction_avg_commit_latency_ms
                }
                &&& !old(self).watermark.is_observed() ==> {
                    &&& r == Err::<CommitSummary, CommitError>(CommitError::WatermarkClosed)
                    &&& final(self).watermark == old(self).watermark
                    &&& final(self).metrics == old(self).metrics
                }
            },
    {
        let cb = accumulate(chunk);
        proof {
            lemma_accumulate_checkpoints(views(chunk@));
        }
        let n = cb.checkpoints.len();
        let first = cb.checkpoints[0].sequence_number;
        let last = cb.checkpoints[n - 1].sequence_number;
        proof {
            assert(views(chunk@)[0] == chunk@[0]@);
            assert(views(chunk@)[n - 1] == chunk@[n - 1]@);
            assert(first == first_seq(views(chunk@)));
            assert(last == last_seq(views(chunk@)));
            if n > 1 {
                assert(views(chunk@)[0].checkpoint.sequence_number < views(chunk@)[
                    n - 1
                ].checkpoint.sequence_number);
            }
            assert(first <= last);
        }
        let checkpoint_count: u64 = n as u64;
        let tx_count: u64 = cb.transactions.len() as u64;
        let epoch_count: u64 = cb.epochs.len() as u64;

        // Phase one: every bulk category is written; in the deployed
        // pipeline these calls are issued concurrently and joined, so every
        // category is attempted whether or not a sibling fails. The first
        // failure in dispatch order is the one escalated.
        let mut failed: Option<Category> = None;
        if let Err(e) = store.persist_transactions(&cb.transactions) {
            if failed.is_none() {
                failed = Some(e.category);
            }
        }
        if let Err(e) = store.persist_tx_indices(&cb.tx_indices) {
            if failed.is_none() {
                failed = Some(e.category);
            }
        }
        if let Err(e) = store.persist_events(&cb.events) {
            if failed.is_none() {
                failed = Some(e.category);
            }
        }
        if let Err(e) = store.persist_displays(&cb.display_updates) {
            if failed.is_none() {
                failed = Some(e.category);
            }
        }
        if let Err(e) = store.persist_packages(&cb.packages) {
            if failed.is_none() {
                failed = Some(e.category);
            }
        }
        if let Err(e) = store.persist_objects(&cb.object_changes) {
            if failed.is_none() {
                failed = Some(e.category);
            }
        }
        if let Err(e) = store.persist_epoch(&cb.epochs) {
            if failed.is_none() {
                failed = Some(e.category);
            }
        }
        proof {
            assert(store@ =~= phase1_applied(old(store)@, old(store).faults, cb@));
        }
        if let Some(category) = failed {
            return Err(CommitError::PersistenceFailed { category });
        }

        // Phase two: the commit markers, strictly after every bulk write
        // succeeded.
        if let Err(e) = store.persist_checkpoints(&cb.checkpoints) {
            return Err(CommitError::PersistenceFailed { category: e.category });
        }
        proof {
            assert(store@ =~= store_after_commit(old(store)@, cb@));
        }

        // Publish the watermark, then record the metrics.
        if let Err(_) = self.watermark.publish(last) {
            return Err(CommitError::WatermarkClosed);
        }
        self.metrics.record_committed_batch(checkpoint_count, tx_count, epoch_count, first, last);
        Ok(
            CommitSummary {
                first_sequence_number: first,
                last_sequence_number: last,
                checkpoints_committed: checkpoint_count,
                transactions_committed: tx_count,
                epochs_committed: epoch_count,
            },
        )
    }

    /// One iteration of the commit loop, given a drained chunk: an empty
    /// chunk is a no-op; in bypass mode the chunk is discarded and neither
    /// the store nor the watermark is ever touched; otherwise the chunk is
    /// committed under the two-phase protocol.
    pub fn process_chunk(
        &mut self,
        store: &mut InMemoryStore,
        chunk: &Vec<IndexedCheckpointBatch>,
    ) -> (r: Result<CycleOutcome, CommitError>)
        requires
            chunk@.len() > 0 && !old(self).config.skip_db_commit ==> strictly_increasing(
                views(chunk@),
            ) && old(self).watermark.admits(last_seq(views(chunk@))),
        ensures
            final(self).config == old(self).config,
            final(store).faults == old(store).faults,
            chunk@.len() == 0 ==> r == Ok::<CycleOutcome, CommitError>(CycleOutcome::Idle)
                && *final(self) == *old(self) && *final(store) == *old(store),
            chunk@.len() > 0 && old(self).config.skip_db_commit ==> {
                &&& r == Ok::<CycleOutcome, CommitError>(
                    CycleOutcome::Skipped {
                        first_sequence_number: first_seq(views(chunk@)),
                        last_sequence_number: last_seq(views(chunk@)),
                    },
                )
                &&& *final(self) == *old(self)
                &&& *final(store) == *old(store)
            },
            chunk@.len() > 0 && !old(self).config.skip_db_commit ==> {
                &&& first_phase1_failure(old(store).faults) matches Some(c) ==> {
                    &&& r == Err::<CycleOutcome, CommitError>(
                        CommitError::PersistenceFailed { category: c },
                    )
                    &&& final(store)@ == phase1_applied(
                        old(store)@,
                        old(store).faults,
                        spec_accumulate(views(chunk@)),
                    )
                    &&& final(store)@.checkpoints == old(store)@.checkpoints
                    &&& final(self).watermark == old(self).watermark
                    &&& final(self).metrics == old(self).metrics
                }
                &&& first_phase1_failure(old(store).faults) is None && old(
                    store,
                ).faults.checkpoints ==> {
                    &&& r == Err::<CycleOutcome, CommitError>(
                        CommitError::PersistenceFailed { category: Category::Checkpoints },
                    )
                    &&& final(store)@.checkpoints == old(store)@.checkpoints
                    &&& final(self).watermark == old(self).watermark
                    &&& final(self).metrics == old(self).metrics
                }
                &&& first_phase1_failure(old(store).faults) is None && !old(
                    store,
                ).faults.checkpoints ==> {
                    &&& final(store)@ == store_after_commit(
                        old(store)@,
                        spec_accumulate(views(chunk@)),
                    )
                    &&& old(self).watermark.is_observed() ==> {
                        &&& r == Ok::<CycleOutcome, CommitError>(
                            CycleOutcome::Committed(spec_summary(views(chunk@))),
                        )
                        &&& final(self).watermark.value_opt() == Some(last_seq(views(chunk@)))
                        &&& final(self).watermark.is_observed()
                    }
                    &&& !old(self).watermark.is_observed() ==> {
                        &&& r == Err::<CycleOutcome, CommitError>(CommitError::WatermarkClosed)
                        &&& final(self).watermark == old(self).watermark
                        &&& final(self).metrics == old(self).metrics
                    }
                }
            },
    {
        if chunk.len() == 0 {
            return Ok(CycleOutcome::Idle);
        }
        if self.config.skip_db_commit {
            let first = chunk[0].checkpoint.sequence_number;
            let last = chunk[chunk.len() - 1].checkpoint.sequence_number;
            proof {
                assert(views(chunk@)[0] == chunk@[0]@);
                assert(views(chunk@)[chunk@.len() - 1] == chunk@[chunk@.len() - 1]@);
            }
            return Ok(
                CycleOutcome::Skipped {
                    first_sequence_number: first,
                    last_sequence_number: last,
                },
            );
        }
        match self.commit_checkpoints(store, chunk) {
            Ok(summary) => Ok(CycleOutcome::Committed(summary)),
            Err(e) => Err(e),
        }
    }
}

/// Run the whole commit loop over a closed queue: drain whatever is ready,
/// at most the configured batch size at a time, and process each chunk in
/// turn until end-of-stream, which terminates the task cleanly.
///
/// With bypass off and a healthy store, the store ends up exactly as one
/// commit of the entire stream would leave it — batching never changes the
/// final state — and the watermark ends at the stream's last sequence
/// number. With bypass on, the store and the watermark are never touched.
#[verifier::loop_isolation(false)]
pub fn start_tx_checkpoint_commit_task(
    committer: &mut Committer,
    store: &mut InMemoryStore,
    queue: &mut BatchQueue,
) -> (r: Result<(), CommitError>)
    requires
        old(committer).config.wf(),
        old(queue).spec_closed(),
        !old(committer).config.skip_db_commit ==> {
            &&& old(store).faults.fails_none()
            &&& old(committer).watermark.is_observed()
            &&& strictly_increasing(views(old(queue).contents()))
            &&& old(queue).contents().len() > 0 ==> old(committer).watermark.admits(
                first_seq(views(old(queue).contents())),
            )
        },
    ensures
        r == Ok::<(), CommitError>(()),
        final(queue).contents().len() == 0,
        final(committer).config == old(committer).config,
        old(committer).config.skip_db_commit ==> *final(store) == *old(store)
            && final(committer).watermark == old(committer).watermark,
        !old(committer).config.skip_db_commit ==> {
            &&& final(store)@ == store_after_commit(
                old(store)@,
                spec_accumulate(views(old(queue).contents())),
            )
            &&& old(queue).contents().len() > 0 ==> final(committer).watermark.value_opt()
                == Some(last_seq(views(old(queue).contents())))
            &&& old(queue).contents().len() == 0 ==> final(committer).watermark == old(
                committer,
            ).watermark
        },
{
    let ghost stream = old(queue).contents();
    let mut processed: Ghost<Seq<IndexedCheckpointBatch>> = Ghost(Seq::empty());
    proof {
        assert(Seq::<IndexedCheckpointBatch>::empty() + stream =~= stream);
        assert(views(Seq::<IndexedCheckpointBatch>::empty()) =~= Seq::<BatchView>::empty());
        assert(store_after_commit(
            old(store)@,
            spec_accumulate(views(Seq::<IndexedCheckpointBatch>::empty())),
        ) =~= old(store)@);
    }
    loop
        invariant
            committer.config == old(committer).config,
            queue.spec_closed(),
            store.faults == old(store).faults,
            stream == processed@ + queue.contents(),
            committer.config.skip_db_commit ==> *store == *old(store) && committer.watermark
                == old(committer).watermark,
            !committer.config.skip_db_commit ==> {
                &&& committer.watermark.is_observed()
                &&& store@ == store_after_commit(
                    old(store)@,
                    spec_accumulate(views(processed@)),
                )
                &&& processed@.len() == 0 ==> committer.watermark == old(committer).watermark
                &&& processed@.len() > 0 ==> committer.watermark.value_opt() == Some(
                    last_seq(views(processed@)),
                )
            },
        decreases queue.contents().len(),
    {
        match queue.drain_ready(committer.config.checkpoint_commit_batch_size) {
            DrainOutcome::EndOfStream => {
                proof {
                    assert(processed@ =~= stream);
                }
                return Ok(());
            },
            DrainOutcome::Pending => {
                proof {
                    assert(false);
                }
                return Ok(());
            },
            DrainOutcome::Ready(chunk) => {
                let ghost p = processed@;
                proof {
                    assert(forall|i: int|
                        0 <= i < chunk@.len() ==> chunk@[i] == stream[p.len() + i]);
                    if !committer.config.skip_db_commit {
                        lemma_views_append(p, chunk@);
                        assert forall|i: int, j: int|
                            0 <= i < j < views(chunk@).len() implies views(
                            chunk@,
                        )[i].checkpoint.sequence_number < views(
                            chunk@,
                        )[j].checkpoint.sequence_number by {
                            assert(views(chunk@)[i] == views(stream)[p.len() + i]);
                            assert(views(chunk@)[j] == views(stream)[p.len() + j]);
                        }
                        assert(views(chunk@).last() == views(stream)[p.len() + chunk@.len() - 1]);
                        if p.len() == 0 {
                            assert(views(chunk@).first() == views(stream)[0]);
                            assert(first_seq(views(chunk@)) == first_seq(views(stream)));
                            if chunk@.len() > 1 {
                                assert(views(stream)[0].checkpoint.sequence_number <= views(
                                    stream,
                                )[chunk@.len() - 1].checkpoint.sequence_number);
                            }
                            assert(committer.watermark.admits(last_seq(views(chunk@))));
                        } else {
                            assert(views(p).last() == views(stream)[p.len() - 1]);
                            assert(last_seq(views(p)) == views(
                                stream,
                            )[p.len() - 1].checkpoint.sequence_number);
                            assert(views(stream)[p.len() - 1].checkpoint.sequence_number < views(
                                stream,
                            )[p.len() + chunk@.len() - 1].checkpoint.sequence_number);
                            assert(committer.watermark.admits(last_seq(views(chunk@))));
                        }
                    }
                }
                match committer.process_chunk(store, &chunk) {
                    Ok(_) => {},
                    Err(e) => {
                        proof {
                            assert(false);
                        }
                        return Err(e);
                    },
                }
                proof {
                    assert(stream =~= (p + chunk@) + queue.contents());
                    if !committer.config.skip_db_commit {
                        lemma_views_append(p, chunk@);
                        lemma_store_commit_append(
                            old(store)@,
                            spec_accumulate(views(p)),
                            spec_accumulate(views(chunk@)),
                        );
                        lemma_accumulate_append(views(p), views(chunk@));
                        assert(views(p + chunk@).last() == views(chunk@).last());
                        assert(last_seq(views(p + chunk@)) == last_seq(views(chunk@)));
                    }
                }
                processed = Ghost(p + chunk@);
            },
        }
    }
}

} // verus!
