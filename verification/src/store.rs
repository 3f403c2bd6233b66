//! The category-partitioned store: an executable model of the persistence
//! collaborator, with per-category fallible writes.
//!
//! Every category is a keyed table, and a write upserts a batch of records,
//! so re-writing a batch after a crash-and-replay leaves the table as a
//! single write would. Injected faults make a chosen category's write fail
//! without touching the store, which is how the commit protocol's atomicity
//! is exercised.

use vstd::prelude::*;
use std::collections::BTreeMap;
use crate::batch::{CommitBatchView, concat_commit_views, lemma_accumulate_append, spec_accumulate};
use crate::checkpoint::BatchView;
use crate::checkpoint::{
    CheckpointRecord, DisplayUpdate, EpochRecord, EventRecord, ObjectChangeRecord, PackageRecord,
    TransactionRecord, TxIndexRecord,
};
use crate::table::{
    lemma_table_after_concat, lemma_table_after_idempotent, store_all, table_after,
};

verus! {

/// One data category of the store.
#[derive(Clone, Copy, Debug, PartialEq, Eq, Structural)]
pub enum Category {
    Transactions,
    TxIndices,
    Events,
    Displays,
    Packages,
    Objects,
    Epochs,
    Checkpoints,
}

/// Which categories' writes are made to fail. All flags clear means a
/// healthy store.
#[derive(Clone, Copy, Debug, PartialEq, Eq, Structural)]
pub struct FaultPlan {
    pub transactions: bool,
    pub tx_indices: bool,
    pub events: bool,
    pub displays: bool,
    pub packages: bool,
    pub objects: bool,
    pub epochs: bool,
    pub checkpoints: bool,
}

impl FaultPlan {
    /// Whether the write for category `c` is made to fail.
    pub open spec fn fails(self, c: Category) -> bool {
        match c {
            Category::Transactions => self.transactions,
            Category::TxIndices => self.tx_indices,
            Category::Events => self.events,
            Category::Displays => self.displays,
            Category::Packages => self.packages,
            Category::Objects => self.objects,
            Category::Epochs => self.epochs,
            Category::Checkpoints => self.checkpoints,
        }
    }

    /// No write fails.
    pub open spec fn fails_none(self) -> bool {
        self == FaultPlan {
            transactions: false,
            tx_indices: false,
            events: false,
            displays: false,
            packages: false,
            objects: false,
            epochs: false,
            checkpoints: false,
        }
    }

    /// The healthy plan: every write succeeds.
    pub fn fault_free() -> (p: FaultPlan)
        ensures
            p.fails_none(),
    {
        FaultPlan {
            transactions: false,
            tx_indices: false,
            events: false,
            displays: false,
            packages: false,
            objects: false,
            epochs: false,
            checkpoints: false,
        }
    }
}

/// The first bulk category whose write fails under `f`, in dispatch order,
/// or `None` when every bulk write succeeds. The checkpoint-metadata
/// category is not a bulk category: it is written in its own second phase.
pub open spec fn first_phase1_failure(f: FaultPlan) -> Option<Category> {
    if f.transactions {
        Some(Category::Transactions)
    } else if f.tx_indices {
        Some(Category::TxIndices)
    } else if f.events {
        Some(Category::Events)
    } else if f.displays {
        Some(Category::Displays)
    } else if f.packages {
        Some(Category::Packages)
    } else if f.objects {
        Some(Category::Objects)
    } else if f.epochs {
        Some(Category::Epochs)
    } else {
        None
    }
}

/// A failed write, naming the category whose persistence call failed.
#[derive(Clone, Copy, Debug, PartialEq, Eq, Structural)]
pub struct StoreError {
    pub category: Category,
}

/// The store's durable contents: one keyed table per category.
#[verifier::ext_equal]
pub struct StoreView {
    pub transactions: Map<u64, TransactionRecord>,
    pub tx_indices: Map<u64, TxIndexRecord>,
    pub events: Map<u64, EventRecord>,
    pub displays: Map<u64, DisplayUpdate>,
    pub packages: Map<u64, PackageRecord>,
    pub objects: Map<u64, ObjectChangeRecord>,
    pub epochs: Map<u64, EpochRecord>,
    pub checkpoints: Map<u64, CheckpointRecord>,
}

/// The contents of a store that holds nothing yet.
pub open spec fn empty_store_view() -> StoreView {
    StoreView {
        transactions: Map::empty(),
        tx_indices: Map::empty(),
        events: Map::empty(),
        displays: Map::empty(),
        packages: Map::empty(),
        objects: Map::empty(),
        epochs: Map::empty(),
        checkpoints: Map::empty(),
    }
}

/// The store after the first, concurrent phase of a commit: every bulk
/// category whose write succeeds holds its part of the commit unit, a
/// category whose write fails is untouched, and the checkpoint metadata
/// table is never touched in this phase.
pub open spec fn phase1_applied(pre: StoreView, f: FaultPlan, cb: CommitBatchView) -> StoreView {
    StoreView {
        transactions: if f.transactions {
            pre.transactions
        } else {
            table_after(pre.transactions, cb.transactions)
        },
        tx_indices: if f.tx_indices {
            pre.tx_indices
        } else {
            table_after(pre.tx_indices, cb.tx_indices)
        },
        events: if f.events {
            pre.events
        } else {
            table_after(pre.events, cb.events)
        },
        displays: if f.displays {
            pre.displays
        } else {
            table_after(pre.displays, cb.display_updates)
        },
        packages: if f.packages {
            pre.packages
        } else {
            table_after(pre.packages, cb.packages)
        },
        objects: if f.objects {
            pre.objects
        } else {
            table_after(pre.objects, cb.object_changes)
        },
        epochs: if f.epochs {
            pre.epochs
        } else {
            table_after(pre.epochs, cb.epochs)
        },
        checkpoints: pre.checkpoints,
    }
}

/// The store after a fully successful commit of one commit unit: every bulk
/// category and, after them, the checkpoint metadata markers.
pub open spec fn store_after_commit(pre: StoreView, cb: CommitBatchView) -> StoreView {
    StoreView {
        transactions: table_after(pre.transactions, cb.transactions),
        tx_indices: table_after(pre.tx_indices, cb.tx_indices),
        events: table_after(pre.events, cb.events),
        displays: table_after(pre.displays, cb.display_updates),
        packages: table_after(pre.packages, cb.packages),
        objects: table_after(pre.objects, cb.object_changes),
        epochs: table_after(pre.epochs, cb.epochs),
        checkpoints: table_after(pre.checkpoints, cb.checkpoints),
    }
}

/// Committing the same commit unit twice in a row leaves the store exactly
/// as one commit does: replaying a batch after a crash before the watermark
/// advanced cannot duplicate or alter any row.
pub proof fn lemma_store_commit_idempotent(pre: StoreView, cb: CommitBatchView)
    ensures
        store_after_commit(store_after_commit(pre, cb), cb) == store_after_commit(pre, cb),
{
    lemma_table_after_idempotent(pre.transactions, cb.transactions);
    lemma_table_after_idempotent(pre.tx_indices, cb.tx_indices);
    lemma_table_after_idempotent(pre.events, cb.events);
    lemma_table_after_idempotent(pre.displays, cb.display_updates);
    lemma_table_after_idempotent(pre.packages, cb.packages);
    lemma_table_after_idempotent(pre.objects, cb.object_changes);
    lemma_table_after_idempotent(pre.epochs, cb.epochs);
    lemma_table_after_idempotent(pre.checkpoints, cb.checkpoints);
    assert(store_after_commit(store_after_commit(pre, cb), cb) =~= store_after_commit(pre, cb));
}

/// Committing two units in turn equals committing their concatenation:
/// cutting a stream into batches does not change where the store ends up.
pub proof fn lemma_store_commit_append(pre: StoreView, a: CommitBatchView, b: CommitBatchView)
    ensures
        store_after_commit(store_after_commit(pre, a), b) == store_after_commit(
            pre,
            concat_commit_views(a, b),
        ),
{
    lemma_table_after_concat(pre.transactions, a.transactions, b.transactions);
    lemma_table_after_concat(pre.tx_indices, a.tx_indices, b.tx_indices);
    lemma_table_after_concat(pre.events, a.events, b.events);
    lemma_table_after_concat(pre.displays, a.display_updates, b.display_updates);
    lemma_table_after_concat(pre.packages, a.packages, b.packages);
    lemma_table_after_concat(pre.objects, a.object_changes, b.object_changes);
    lemma_table_after_concat(pre.epochs, a.epochs, b.epochs);
    lemma_table_after_concat(pre.checkpoints, a.checkpoints, b.checkpoints);
    assert(store_after_commit(store_after_commit(pre, a), b) =~= store_after_commit(
        pre,
        concat_commit_views(a, b),
    ));
}

/// Cutting a stream of checkpoints into two consecutive commit batches
/// leaves the store exactly where a single commit of the whole stream
/// would: batching is invisible in the final store state, and the rows of
/// every category keep the input order of the stream.
pub proof fn lemma_batching_invisible(pre: StoreView, s1: Seq<BatchView>, s2: Seq<BatchView>)
    ensures
        store_after_commit(store_after_commit(pre, spec_accumulate(s1)), spec_accumulate(s2))
            == store_after_commit(pre, spec_accumulate(s1 + s2)),
{
    lemma_accumulate_append(s1, s2);
    lemma_store_commit_append(pre, spec_accumulate(s1), spec_accumulate(s2));
}

/// The executable store model: one ordered table per category, plus the
/// injected fault plan.
#[derive(Debug)]
pub struct InMemoryStore {
    pub transactions: BTreeMap<u64, TransactionRecord>,
    pub tx_indices: BTreeMap<u64, TxIndexRecord>,
    pub events: BTreeMap<u64, EventRecord>,
    pub displays: BTreeMap<u64, DisplayUpdate>,
    pub packages: BTreeMap<u64, PackageRecord>,
    pub objects: BTreeMap<u64, ObjectChangeRecord>,
    pub epochs: BTreeMap<u64, EpochRecord>,
    pub checkpoints: BTreeMap<u64, CheckpointRecord>,
    /// Which categories' writes fail; healthy stores have every flag clear.
    pub faults: FaultPlan,
}

impl View for InMemoryStore {
    type V = StoreView;

    open spec fn view(&self) -> StoreView {
        StoreView {
            transactions: self.transactions@,
            tx_indices: self.tx_indices@,
            events: self.events@,
            displays: self.displays@,
            packages: self.packages@,
            objects: self.objects@,
            epochs: self.epochs@,
            checkpoints: self.checkpoints@,
        }
    }
}

impl InMemoryStore {
    /// A fresh, healthy, empty store.
    pub fn new() -> (s: InMemoryStore)
        ensures
            s@ == empty_store_view(),
            s.faults.fails_none(),
    {
        InMemoryStore::with_faults(FaultPlan::fault_free())
    }

    /// A fresh, empty store whose writes fail as `faults` says.
    pub fn with_faults(faults: FaultPlan) -> (s: InMemoryStore)
        ensures
            s@ == empty_store_view(),
            s.faults == faults,
    {
        let s = InMemoryStore {
            transactions: BTreeMap::new(),
            tx_indices: BTreeMap::new(),
            events: BTreeMap::new(),
            displays: BTreeMap::new(),
            packages: BTreeMap::new(),
            objects: BTreeMap::new(),
            epochs: BTreeMap::new(),
            checkpoints: BTreeMap::new(),
            faults,
        };
        proof {
            assert(s@ =~= empty_store_view());
        }
        s
    }

    /// Persist a batch of transactions.
    pub fn persist_transactions(&mut self, recs: &Vec<TransactionRecord>) -> (r: Result<
        (),
        StoreError,
    >)
        ensures
            final(self).faults == old(self).faults,
            old(self).faults.transactions ==> r == Err::<(), StoreError>(
                StoreError { category: Category::Transactions },
            ) && *final(self) == *old(self),
            !old(self).faults.transactions ==> r == Ok::<(), StoreError>(()) && final(self)@
                == (StoreView {
                transactions: table_after(old(self)@.transactions, recs@),
                ..old(self)@
            }),
    {
        if self.faults.transactions {
            Err(StoreError { category: Category::Transactions })
        } else {
            store_all(&mut self.transactions, recs);
            proof {
                assert(self@ =~= StoreView {
                    transactions: table_after(old(self)@.transactions, recs@),
                    ..old(self)@
                });
            }
            Ok(())
        }
    }

    /// Persist a batch of transaction secondary indices.
    pub fn persist_tx_indices(&mut self, recs: &Vec<TxIndexRecord>) -> (r: Result<(), StoreError>)
        ensures
            final(self).faults == old(self).faults,
            old(self).faults.tx_indices ==> r == Err::<(), StoreError>(
                StoreError { category: Category::TxIndices },
            ) && *final(self) == *old(self),
            !old(self).faults.tx_indices ==> r == Ok::<(), StoreError>(()) && final(self)@
                == (StoreView { tx_indices: table_after(old(self)@.tx_indices, recs@), ..old(self)@ }),
    {
        if self.faults.tx_indices {
            Err(StoreError { category: Category::TxIndices })
        } else {
            store_all(&mut self.tx_indices, recs);
            proof {
                assert(self@ =~= StoreView {
                    tx_indices: table_after(old(self)@.tx_indices, recs@),
                    ..old(self)@
                });
            }
            Ok(())
        }
    }

    /// Persist a batch of events.
    pub fn persist_events(&mut self, recs: &Vec<EventRecord>) -> (r: Result<(), StoreError>)
        ensures
            final(self).faults == old(self).faults,
            old(self).faults.events ==> r == Err::<(), StoreError>(
                StoreError { category: Category::Events },
            ) && *final(self) == *old(self),
            !old(self).faults.events ==> r == Ok::<(), StoreError>(()) && final(self)@
                == (StoreView { events: table_after(old(self)@.events, recs@), ..old(self)@ }),
    {
        if self.faults.events {
            Err(StoreError { category: Category::Events })
        } else {
            store_all(&mut self.events, recs);
            proof {
                assert(self@ =~= StoreView {
                    events: table_after(old(self)@.events, recs@),
                    ..old(self)@
                });
            }
            Ok(())
        }
    }

    /// Persist a batch of display-metadata updates; for each object type the
    /// latest update in the batch wins.
    pub fn persist_displays(&mut self, recs: &Vec<DisplayUpdate>) -> (r: Result<(), StoreError>)
        ensures
            final(self).faults == old(self).faults,
            old(self).faults.displays ==> r == Err::<(), StoreError>(
                StoreError { category: Category::Displays },
            ) && *final(self) == *old(self),
            !old(self).faults.displays ==> r == Ok::<(), StoreError>(()) && final(self)@
                == (StoreView { displays: table_after(old(self)@.displays, recs@), ..old(self)@ }),
    {
        if self.faults.displays {
            Err(StoreError { category: Category::Displays })
        } else {
            store_all(&mut self.displays, recs);
            proof {
                assert(self@ =~= StoreView {
                    displays: table_after(old(self)@.displays, recs@),
                    ..old(self)@
                });
            }
            Ok(())
        }
    }

    /// Persist a batch of packages.
    pub fn persist_packages(&mut self, recs: &Vec<PackageRecord>) -> (r: Result<(), StoreError>)
        ensures
            final(self).faults == old(self).faults,
            old(self).faults.packages ==> r == Err::<(), StoreError>(
                StoreError { category: Category::Packages },
            ) && *final(self) == *old(self),
            !old(self).faults.packages ==> r == Ok::<(), StoreError>(()) && final(self)@
                == (StoreView { packages: table_after(old(self)@.packages, recs@), ..old(self)@ }),
    {
        if self.faults.packages {
            Err(StoreError { category: Category::Packages })
        } else {
            store_all(&mut self.packages, recs);
            proof {
                assert(self@ =~= StoreView {
                    packages: table_after(old(self)@.packages, recs@),
                    ..old(self)@
                });
            }
            Ok(())
        }
    }

    /// Persist a batch of object changes; for each object the latest change
    /// in the batch wins.
    pub fn persist_objects(&mut self, recs: &Vec<ObjectChangeRecord>) -> (r: Result<
        (),
        StoreError,
    >)
        ensures
            final(self).faults == old(self).faults,
            old(self).faults.objects ==> r == Err::<(), StoreError>(
                StoreError { category: Category::Objects },
            ) && *final(self) == *old(self),
            !old(self).faults.objects ==> r == Ok::<(), StoreError>(()) && final(self)@
                == (StoreView { objects: table_after(old(self)@.objects, recs@), ..old(self)@ }),
    {
        if self.faults.objects {
            Err(StoreError { category: Category::Objects })
        } else {
            store_all(&mut self.objects, recs);
            proof {
                assert(self@ =~= StoreView {
                    objects: table_after(old(self)@.objects, recs@),
                    ..old(self)@
                });
            }
            Ok(())
        }
    }

    /// Persist a batch of epoch-change records.
    pub fn persist_epoch(&mut self, recs: &Vec<EpochRecord>) -> (r: Result<(), StoreError>)
        ensures
            final(self).faults == old(self).faults,
            old(self).faults.epochs ==> r == Err::<(), StoreError>(
                StoreError { category: Category::Epochs },
            ) && *final(self) == *old(self),
            !old(self).faults.epochs ==> r == Ok::<(), StoreError>(()) && final(self)@
                == (StoreView { epochs: table_after(old(self)@.epochs, recs@), ..old(self)@ }),
    {
        if self.faults.epochs {
            Err(StoreError { category: Category::Epochs })
        } else {
            store_all(&mut self.epochs, recs);
            proof {
                assert(self@ =~= StoreView {
                    epochs: table_after(old(self)@.epochs, recs@),
                    ..old(self)@
                });
            }
            Ok(())
        }
    }

    /// Persist a batch of checkpoint metadata records: the commit markers,
    /// written only after every bulk category of the batch is durable.
    pub fn persist_checkpoints(&mut self, recs: &Vec<CheckpointRecord>) -> (r: Result<
        (),
        StoreError,
    >)
        ensures
            final(self).faults == old(self).faults,
            old(self).faults.checkpoints ==> r == Err::<(), StoreError>(
                StoreError { category: Category::Checkpoints },
            ) && *final(self) == *old(self),
            !old(self).faults.checkpoints ==> r == Ok::<(), StoreError>(()) && final(self)@
                == (StoreView {
                checkpoints: table_after(old(self)@.checkpoints, recs@),
                ..old(self)@
            }),
    {
        if self.faults.checkpoints {
            Err(StoreError { category: Category::Checkpoints })
        } else {
            store_all(&mut self.checkpoints, recs);
            proof {
                assert(self@ =~= StoreView {
                    checkpoints: table_after(old(self)@.checkpoints, recs@),
                    ..old(self)@
                });
            }
            Ok(())
        }
    }

    /// Whether the store holds a commit marker for `sequence_number`: by the
    /// two-phase protocol this implies every category of that checkpoint is
    /// durable.
    pub fn has_checkpoint(&self, sequence_number: u64) -> (r: bool)
        ensures
            r == self@.checkpoints.contains_key(sequence_number),
    {
        broadcast use vstd::std_specs::btree::group_btree_axioms;
        broadcast use vstd::laws_cmp::group_laws_cmp;

        self.checkpoints.contains_key(&sequence_number)
    }
}

} // verus!
