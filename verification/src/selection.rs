//! Turning a catalog into a selection: every case is either selected for
//! execution or recorded as skipped with its reason, never silently dropped.

use vstd::prelude::*;
use crate::filter::{ignored_matches, name_filter_matches, RunIgnored, TestFilterBuilder};
use crate::model::{TestCase, TestCatalog};
use crate::partition::{partition_selects, spec_shard, Partitioner, PartitionKind};
use crate::partition::{count_shard, hash_shard, lemma_partition_disjoint_exhaustive};
use crate::stable_hash::stable_hash;

verus! {

/// What became of one catalog case: it executes, or it is skipped because
/// its ignored flag did not match, its name matched no filter, or it belongs
/// to another shard.
#[derive(Clone, Copy, PartialEq, Eq, Structural, Debug)]
pub enum CaseStatus {
    Executing,
    SkippedIgnored,
    SkippedNameFiltered,
    SkippedPartitionedOut,
}

/// Whether a case passes both filter predicates (ignored-status and name),
/// before any partitioning.
pub open spec fn filters_pass(f: TestFilterBuilder, c: TestCase) -> bool {
    &&& ignored_matches(f.run_ignored, c.ignored)
    &&& name_filter_matches(f.name_filters.deep_view(), c.name@)
}

/// How many of the first `j` catalog cases pass both filters: the position
/// that case `j` would take in the filtered sequence.
pub open spec fn filtered_count(cases: Seq<TestCase>, f: TestFilterBuilder, j: int) -> nat
    decreases j,
{
    if j <= 0 {
        0
    } else {
        filtered_count(cases, f, j - 1) + (if filters_pass(f, cases[j - 1]) {
            1nat
        } else {
            0nat
        })
    }
}

/// The status of one case: the ignored-status filter is applied first, then
/// the name filter, then the partition rule (on the filtered position).
pub open spec fn spec_case_status(f: TestFilterBuilder, c: TestCase, fpos: nat) -> CaseStatus {
    if !ignored_matches(f.run_ignored, c.ignored) {
        CaseStatus::SkippedIgnored
    } else if !name_filter_matches(f.name_filters.deep_view(), c.name@) {
        CaseStatus::SkippedNameFiltered
    } else {
        match f.partitioner {
            None => CaseStatus::Executing,
            Some(p) => if partition_selects(p, c.binary_id@, c.name@, fpos) {
                CaseStatus::Executing
            } else {
                CaseStatus::SkippedPartitionedOut
            },
        }
    }
}

/// The filtered/partitioned subset of a catalog: one status per catalog
/// case, in catalog order.
#[derive(Debug)]
pub struct Selection {
    pub statuses: Vec<CaseStatus>,
}

/// True when `s` is exactly the selection that `f` makes from `cases`.
pub open spec fn selection_matches(s: Selection, f: TestFilterBuilder, cases: Seq<
    TestCase,
>) -> bool {
    &&& s.statuses@.len() == cases.len()
    &&& forall|j: int|
        0 <= j < cases.len() ==> s.statuses@[j] == spec_case_status(f, cases[j], filtered_count(
            cases, f, j))
}

/// How many of the first `j` statuses are Executing.
pub open spec fn executing_count_prefix(sts: Seq<CaseStatus>, j: int) -> nat
    decreases j,
{
    if j <= 0 {
        0
    } else {
        executing_count_prefix(sts, j - 1) + (if sts[j - 1] is Executing {
            1nat
        } else {
            0nat
        })
    }
}

/// The Executing count over a prefix never exceeds the prefix length.
pub proof fn lemma_executing_count_le(sts: Seq<CaseStatus>, j: int)
    requires
        j >= 0,
    ensures
        executing_count_prefix(sts, j) <= j,
    decreases j,
{
    if j > 0 {
        lemma_executing_count_le(sts, j - 1);
    }
}

impl TestFilterBuilder {
    /// Build the selection for a catalog: evaluate both filters for every
    /// case in order, and apply the partition rule to the cases that pass,
    /// by their position in the filtered sequence.
    pub fn select(&self, catalog: &TestCatalog) -> (s: Selection)
        requires
            self.wf(),
        ensures
            selection_matches(s, *self, catalog.cases@),
    {
        let n = catalog.cases.len();
        let mut statuses: Vec<CaseStatus> = Vec::new();
        let mut fcount: usize = 0;
        let mut j: usize = 0;
        while j < n
            invariant
                self.wf(),
                n == catalog.cases@.len(),
                j <= n,
                statuses@.len() == j,
                fcount == filtered_count(catalog.cases@, *self, j as int),
                fcount <= j,
                forall|t: int|
                    0 <= t < j ==> statuses@[t] == spec_case_status(*self, catalog.cases@[t],
                        filtered_count(catalog.cases@, *self, t)),
            decreases n - j,
        {
            let c = &catalog.cases[j];
            let ig_ok = self.ignored_pass(c.ignored);
            let nm_ok = if ig_ok {
                self.name_pass(c.name.as_str())
            } else {
                false
            };
            let st: CaseStatus = if !ig_ok {
                CaseStatus::SkippedIgnored
            } else if !nm_ok {
                CaseStatus::SkippedNameFiltered
            } else {
                match &self.partitioner {
                    None => CaseStatus::Executing,
                    Some(p) => {
                        let shard: u64 = match p.kind {
                            PartitionKind::Hash => hash_shard(
                                stable_hash(c.binary_id.as_str(), c.name.as_str()),
                                p.total,
                            ),
                            PartitionKind::Count => count_shard(fcount, p.total),
                        };
                        if shard == p.index {
                            CaseStatus::Executing
                        } else {
                            CaseStatus::SkippedPartitionedOut
                        }
                    },
                }
            };
            statuses.push(st);
            if ig_ok && nm_ok {
                fcount = fcount + 1;
            }
            j = j + 1;
        }
        Selection { statuses }
    }
}

impl Selection {
    /// Number of cases in the underlying catalog.
    pub fn len(&self) -> (n: usize)
        ensures
            n == self.statuses@.len(),
    {
        self.statuses.len()
    }

    /// How many cases execute.
    pub fn executing_count(&self) -> (n: usize)
        ensures
            n == executing_count_prefix(self.statuses@, self.statuses@.len() as int),
    {
        let mut n: usize = 0;
        let mut j: usize = 0;
        while j < self.statuses.len()
            invariant
                j <= self.statuses@.len(),
                n == executing_count_prefix(self.statuses@, j as int),
                n <= j,
            decreases self.statuses@.len() - j,
        {
            if matches!(self.statuses[j], CaseStatus::Executing) {
                n = n + 1;
            }
            j = j + 1;
        }
        n
    }

    /// The catalog indices of the executing cases, in catalog order.
    pub fn executing_indices(&self) -> (v: Vec<usize>)
        ensures
            v@.len() == executing_count_prefix(self.statuses@, self.statuses@.len() as int),
            forall|k: int|
                0 <= k < v@.len() ==> v@[k] < self.statuses@.len() && self.statuses@[v@[k] as int]
                    is Executing,
            forall|j: int|
                0 <= j < self.statuses@.len() && self.statuses@[j] is Executing ==> exists|k: int|
                    0 <= k < v@.len() && v@[k] == j,
            forall|k1: int, k2: int| 0 <= k1 < k2 < v@.len() ==> v@[k1] < v@[k2],
    {
        let mut v: Vec<usize> = Vec::new();
        let mut j: usize = 0;
        while j < self.statuses.len()
            invariant
                j <= self.statuses@.len(),
                v@.len() == executing_count_prefix(self.statuses@, j as int),
                forall|k: int|
                    0 <= k < v@.len() ==> v@[k] < j && self.statuses@[v@[k] as int] is Executing,
                forall|t: int|
                    0 <= t < j && self.statuses@[t] is Executing ==> exists|k: int|
                        0 <= k < v@.len() && v@[k] == t,
                forall|k1: int, k2: int| 0 <= k1 < k2 < v@.len() ==> v@[k1] < v@[k2],
            decreases self.statuses@.len() - j,
        {
            if matches!(self.statuses[j], CaseStatus::Executing) {
                let ghost old_v = v@;
                v.push(j);
                assert forall|t: int|
                    0 <= t < j + 1 && self.statuses@[t] is Executing implies exists|k: int|
                    0 <= k < v@.len() && v@[k] == t by {
                    if t == j {
                        assert(v@[old_v.len() as int] == j);
                    } else {
                        let k = choose|k: int| 0 <= k < old_v.len() && old_v[k] == t;
                        assert(v@[k] == t);
                    }
                }
            }
            j = j + 1;
        }
        v
    }
}

/// How many of the first `j` catalog cases pass the filters does not depend
/// on the partition rule: two filters that agree on the ignored mode and the
/// name substrings count alike.
pub proof fn lemma_filtered_count_ignores_partitioner(
    cases: Seq<TestCase>,
    f1: TestFilterBuilder,
    f2: TestFilterBuilder,
    j: int,
)
    requires
        f1.run_ignored == f2.run_ignored,
        f1.name_filters == f2.name_filters,
    ensures
        filtered_count(cases, f1, j) == filtered_count(cases, f2, j),
    decreases j,
{
    if j > 0 {
        lemma_filtered_count_ignores_partitioner(cases, f1, f2, j - 1);
    }
}

/// The filter that selects shard `i` out of `total`, with the other filter
/// settings held fixed.
pub open spec fn shard_filter(
    run_ignored: RunIgnored,
    name_filters: Vec<String>,
    kind: PartitionKind,
    i: u64,
    total: u64,
) -> TestFilterBuilder {
    TestFilterBuilder {
        run_ignored,
        name_filters,
        partitioner: Some(Partitioner { kind, index: i, total }),
    }
}

/// True when catalog case `j` is Executing in the selection that shard `i`
/// of `total` makes, with the other filter settings held fixed.
pub open spec fn executes_in_shard(
    cases: Seq<TestCase>,
    run_ignored: RunIgnored,
    name_filters: Vec<String>,
    kind: PartitionKind,
    i: u64,
    total: u64,
    j: int,
) -> bool {
    let fi = shard_filter(run_ignored, name_filters, kind, i, total);
    spec_case_status(fi, cases[j], filtered_count(cases, fi, j)) is Executing
}

/// Partition exhaustiveness and disjointness over a catalog: hold the
/// ignored mode and name filters fixed and pick any valid shard count.
/// Every case that passes the filters is Executing under exactly one shard
/// index in `1..=total` (its own shard), and a case that fails the filters
/// is Executing under none; so the union over `index = 1..=total` of the
/// partitioned selections is the filtered set, each case exactly once.
pub proof fn lemma_partition_covers_catalog(
    cases: Seq<TestCase>,
    run_ignored: RunIgnored,
    name_filters: Vec<String>,
    kind: PartitionKind,
    total: u64,
    j: int,
)
    requires
        total >= 1,
        0 <= j < cases.len(),
    ensures
        ({
            let f1 = shard_filter(run_ignored, name_filters, kind, 1, total);
            let shard = spec_shard(kind, total, cases[j].binary_id@, cases[j].name@,
                filtered_count(cases, f1, j));
            &&& filters_pass(f1, cases[j]) ==> {
                &&& 1 <= shard <= total
                &&& forall|i: u64|
                    1 <= i <= total ==> (#[trigger] executes_in_shard(cases, run_ignored,
                        name_filters, kind, i, total, j) <==> i == shard)
            }
            &&& !filters_pass(f1, cases[j]) ==> forall|i: u64|
                1 <= i <= total ==> !(#[trigger] executes_in_shard(cases, run_ignored,
                    name_filters, kind, i, total, j))
        }),
{
    let f1 = shard_filter(run_ignored, name_filters, kind, 1, total);
    let fpos = filtered_count(cases, f1, j);
    lemma_partition_disjoint_exhaustive(kind, total, cases[j].binary_id@, cases[j].name@, fpos);
    assert forall|i: u64| 1 <= i <= total implies filtered_count(cases, #[trigger] shard_filter(
        run_ignored, name_filters, kind, i, total), j) == fpos by {
        lemma_filtered_count_ignores_partitioner(cases, shard_filter(run_ignored, name_filters,
            kind, i, total), f1, j);
    }
}

} // verus!
