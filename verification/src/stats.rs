//! Run statistics and the event aggregator: outcomes arrive one at a time,
//! in completion order, and are folded into counters without loss or double
//! counting.

use vstd::prelude::*;
use crate::outcome::RunOutcome;

verus! {

/// Whether an outcome counts as a failure: a run that failed (including one
/// that could not be launched) or a run that exceeded its timeout.
pub open spec fn counts_as_failed(o: RunOutcome) -> bool {
    o matches RunOutcome::Failed { .. } || o is TimedOut
}

/// How many outcomes in `os` passed.
pub open spec fn count_passed(os: Seq<RunOutcome>) -> nat
    decreases os.len(),
{
    if os.len() == 0 {
        0
    } else {
        count_passed(os.drop_last()) + (if os.last() is Passed {
            1nat
        } else {
            0nat
        })
    }
}

/// How many outcomes in `os` failed (including timeouts).
pub open spec fn count_failed(os: Seq<RunOutcome>) -> nat
    decreases os.len(),
{
    if os.len() == 0 {
        0
    } else {
        count_failed(os.drop_last()) + (if counts_as_failed(os.last()) {
            1nat
        } else {
            0nat
        })
    }
}

/// How many outcomes in `os` were aborted by cancellation.
pub open spec fn count_aborted(os: Seq<RunOutcome>) -> nat
    decreases os.len(),
{
    if os.len() == 0 {
        0
    } else {
        count_aborted(os.drop_last()) + (if os.last() is Aborted {
            1nat
        } else {
            0nat
        })
    }
}

/// Every outcome is counted in exactly one of the three counters.
pub proof fn lemma_counts_sum(os: Seq<RunOutcome>)
    ensures
        count_passed(os) + count_failed(os) + count_aborted(os) == os.len(),
    decreases os.len(),
{
    if os.len() > 0 {
        lemma_counts_sum(os.drop_last());
    }
}

/// Aggregate counters for one run, plus the overall success predicate.
#[derive(Clone, Copy, PartialEq, Eq, Structural, Debug)]
pub struct RunStats {
    pub passed: u64,
    pub failed: u64,
    pub skipped: u64,
    pub aborted: u64,
}

impl RunStats {
    /// A run succeeds exactly when nothing failed and nothing was aborted.
    pub open spec fn spec_is_success(&self) -> bool {
        self.failed == 0 && self.aborted == 0
    }

    /// The number of selected cases accounted for: every executed, failed,
    /// timed-out or aborted case, but not the skipped ones.
    pub open spec fn accounted(&self) -> int {
        self.passed + self.failed + self.aborted
    }

    /// Whether the run succeeded: no failures and no aborts. A cancelled
    /// run (aborted cases present) is unsuccessful even if every case that
    /// actually ran had passed.
    pub fn is_success(&self) -> (b: bool)
        ensures
            b == self.spec_is_success(),
    {
        self.failed == 0 && self.aborted == 0
    }
}

/// Consumes per-case outcomes in completion order and accumulates RunStats.
/// The skipped counter is fixed at construction from the selection; the
/// ghost history records every outcome observed so far.
pub struct RunAggregator {
    pub stats: RunStats,
    pub observed: u64,
    pub history: Ghost<Seq<RunOutcome>>,
}

impl RunAggregator {
    /// The counters are exactly the counts over the observed history.
    pub open spec fn inv(&self) -> bool {
        &&& self.observed == self.history@.len()
        &&& self.stats.passed == count_passed(self.history@)
        &&& self.stats.failed == count_failed(self.history@)
        &&& self.stats.aborted == count_aborted(self.history@)
    }

    /// A fresh aggregator: nothing observed yet; `skipped` is the number of
    /// catalog cases the selection skipped.
    pub fn new(skipped: u64) -> (a: RunAggregator)
        ensures
            a.inv(),
            a.history@ =~= Seq::<RunOutcome>::empty(),
            a.observed == 0,
            a.stats == (RunStats { passed: 0, failed: 0, skipped, aborted: 0 }),
    {
        RunAggregator {
            stats: RunStats { passed: 0, failed: 0, skipped, aborted: 0 },
            observed: 0,
            history: Ghost(Seq::empty()),
        }
    }

    /// Record one outcome: exactly one counter is incremented, chosen by the
    /// outcome's variant, and the skipped counter never moves.
    pub fn record_outcome(&mut self, o: RunOutcome)
        requires
            old(self).inv(),
            old(self).observed < u64::MAX,
        ensures
            final(self).inv(),
            final(self).history@ == old(self).history@.push(o),
            final(self).observed == old(self).observed + 1,
            final(self).stats.skipped == old(self).stats.skipped,
            final(self).stats.passed == old(self).stats.passed + (if o is Passed {
                1int
            } else {
                0int
            }),
            final(self).stats.failed == old(self).stats.failed + (if counts_as_failed(o) {
                1int
            } else {
                0int
            }),
            final(self).stats.aborted == old(self).stats.aborted + (if o is Aborted {
                1int
            } else {
                0int
            }),
    {
        proof {
            lemma_counts_sum(self.history@);
            assert(self.history@.push(o).drop_last() =~= self.history@);
        }
        match o {
            RunOutcome::Passed => {
                self.stats.passed = self.stats.passed + 1;
            },
            RunOutcome::Failed { .. } => {
                self.stats.failed = self.stats.failed + 1;
            },
            RunOutcome::TimedOut => {
                self.stats.failed = self.stats.failed + 1;
            },
            RunOutcome::Aborted => {
                self.stats.aborted = self.stats.aborted + 1;
            },
        }
        self.observed = self.observed + 1;
        proof {
            self.history@ = self.history@.push(o);
        }
    }

    /// A running (or, once the driver has seen one outcome per selected
    /// case, final) snapshot of the statistics.
    pub fn snapshot(&self) -> (s: RunStats)
        ensures
            s == self.stats,
    {
        self.stats
    }
}

/// An all-passing run succeeds: when every observed outcome is Passed, the
/// final statistics show every case passed, none failed, none aborted, and
/// the success predicate holds.
pub proof fn lemma_all_passed_is_success(agg: RunAggregator)
    requires
        agg.inv(),
        forall|i: int| 0 <= i < agg.history@.len() ==> agg.history@[i] is Passed,
    ensures
        agg.stats.passed == agg.history@.len(),
        agg.stats.failed == 0,
        agg.stats.aborted == 0,
        agg.stats.spec_is_success(),
{
    lemma_count_all_passed(agg.history@);
    lemma_counts_sum(agg.history@);
}

/// In an all-passing history the passed counter is the whole length.
proof fn lemma_count_all_passed(os: Seq<RunOutcome>)
    requires
        forall|i: int| 0 <= i < os.len() ==> os[i] is Passed,
    ensures
        count_passed(os) == os.len(),
    decreases os.len(),
{
    if os.len() > 0 {
        lemma_count_all_passed(os.drop_last());
    }
}

/// A suffix of aborted outcomes is fully counted in the aborted counter.
proof fn lemma_count_aborted_suffix(os: Seq<RunOutcome>, k: int)
    requires
        0 <= k <= os.len(),
        forall|i: int| k <= i < os.len() ==> os[i] is Aborted,
    ensures
        count_aborted(os) >= os.len() - k,
    decreases os.len(),
{
    if os.len() > 0 && k < os.len() {
        lemma_count_aborted_suffix(os.drop_last(), k);
    }
}

/// A cancelled run accounts for every selected case and is unsuccessful:
/// if after `k` completed cases every later outcome is Aborted (and at
/// least one is), the statistics account for the whole history — `k` real
/// outcomes plus the aborted remainder — and success does not hold.
pub proof fn lemma_cancelled_run_accounts_all(agg: RunAggregator, k: int)
    requires
        agg.inv(),
        0 <= k < agg.history@.len(),
        forall|i: int| k <= i < agg.history@.len() ==> agg.history@[i] is Aborted,
    ensures
        agg.stats.accounted() == agg.history@.len(),
        agg.stats.aborted >= agg.history@.len() - k,
        !agg.stats.spec_is_success(),
{
    lemma_counts_sum(agg.history@);
    lemma_count_aborted_suffix(agg.history@, k);
}

} // verus!
