//! The commit watermark: a single-writer, many-reader versioned cell
//! holding the highest checkpoint sequence number known durably committed.
//!
//! The committer owns the cell and is its only writer; observers read it
//! through shared references and can poll the version counter to notice
//! updates. The cell can be marked as having lost its observers, which
//! models the wiring defect in which nothing listens for commit
//! notifications any more: publishing then fails and changes nothing.

use vstd::prelude::*;

verus! {

/// The observable "last committed checkpoint" value.
#[derive(Clone, Debug)]
pub struct CommitWatermark {
    value: Option<u64>,
    version: u64,
    observed: bool,
}

impl CommitWatermark {
    /// The published value: `None` before the first commit.
    pub closed spec fn value_opt(&self) -> Option<u64> {
        self.value
    }

    /// How many times a value has been published (saturating).
    pub closed spec fn version_id(&self) -> u64 {
        self.version
    }

    /// Whether any observer is still listening for updates.
    pub closed spec fn is_observed(&self) -> bool {
        self.observed
    }

    /// Whether publishing `seq` would keep the watermark non-decreasing.
    pub open spec fn admits(&self, seq: u64) -> bool {
        match self.value_opt() {
            None => true,
            Some(v) => seq >= v,
        }
    }

    /// A fresh watermark: nothing committed yet, observers listening.
    pub fn new() -> (w: CommitWatermark)
        ensures
            w.value_opt() is None,
            w.version_id() == 0,
            w.is_observed(),
    {
        CommitWatermark { value: None, version: 0, observed: true }
    }

    /// The latest committed checkpoint sequence number, if any.
    pub fn latest(&self) -> (r: Option<u64>)
        ensures
            r == self.value_opt(),
    {
        self.value
    }

    /// The current version counter, for observers that poll for updates.
    pub fn version(&self) -> (r: u64)
        ensures
            r == self.version_id(),
    {
        self.version
    }

    /// Whether the watermark has moved past a version an observer saw.
    pub fn changed_since(&self, seen_version: u64) -> (r: bool)
        ensures
            r == (self.version_id() != seen_version),
    {
        self.version != seen_version
    }

    /// Publish a newly committed sequence number. The watermark never
    /// decreases, and each successful publish bumps the version counter so
    /// observers notice the update. Publishing fails, and changes nothing,
    /// exactly when no observer is listening any more.
    pub fn publish(&mut self, seq: u64) -> (r: Result<(), ()>)
        requires
            old(self).admits(seq),
        ensures
            old(self).is_observed() ==> {
                &&& r == Ok::<(), ()>(())
                &&& final(self).value_opt() == Some(seq)
                &&& final(self).is_observed()
                &&& final(self).version_id() >= old(self).version_id()
                &&& old(self).version_id() < u64::MAX ==> final(self).version_id() == old(
                    self,
                ).version_id() + 1
            },
            !old(self).is_observed() ==> r == Err::<(), ()>(()) && *final(self) == *old(self),
    {
        if !self.observed {
            return Err(());
        }
        self.value = Some(seq);
        if self.version < u64::MAX {
            self.version = self.version + 1;
        }
        Ok(())
    }

    /// Mark every observer as gone: from here on publishing fails. This
    /// models the programming-contract violation of a commit-notification
    /// channel whose receiving side was dropped.
    pub fn drop_observers(&mut self)
        ensures
            !final(self).is_observed(),
            final(self).value_opt() == old(self).value_opt(),
            final(self).version_id() == old(self).version_id(),
    {
        self.observed = false;
    }
}

} // verus!
