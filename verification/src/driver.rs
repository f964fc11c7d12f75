//! A serial run driver: executes every selected case, one at a time, each
//! as its own child process, and folds the outcomes into run statistics.
//! Every selected case is accounted for — nothing vanishes — with its full
//! result (outcome, wall-clock duration, captured output) recorded, and a
//! run that was never cancelled reports no aborted cases. A case whose
//! binary the run does not know can never launch: it is owed a failure, and
//! the contract counts those. Bounded parallelism, per-case timeouts and
//! cancellation belong to a concurrent caller built on the RunnerState
//! machine.

use vstd::prelude::*;
use crate::invoke::{now_millis, run_command_captured, single_test_args};
use crate::model::{TestBinary, TestCase, TestCatalog};
use crate::outcome::{classify_execution, CaseResult, RunOutcome};
use crate::selection::{executing_count_prefix, lemma_executing_count_le, CaseStatus, Selection};
use crate::stats::{count_aborted, count_failed, count_passed, lemma_counts_sum};
use crate::stats::{RunAggregator, RunStats};

verus! {

/// Find the binary carrying the given identifier, by linear search in
/// enumeration order.
pub fn find_binary(binaries: &Vec<TestBinary>, binary_id: &String) -> (r: Option<usize>)
    ensures
        r matches Some(j) ==> j < binaries@.len() && binaries@[j as int].binary_id@ == binary_id@,
        r is None ==> forall|j: int|
            0 <= j < binaries@.len() ==> binaries@[j].binary_id@ != binary_id@,
{
    let mut j: usize = 0;
    while j < binaries.len()
        invariant
            j <= binaries@.len(),
            forall|t: int| 0 <= t < j ==> binaries@[t].binary_id@ != binary_id@,
        decreases binaries@.len() - j,
    {
        if binaries[j].binary_id == *binary_id {
            return Some(j);
        }
        j = j + 1;
    }
    None
}

/// True when some binary of the run carries the given identifier.
pub open spec fn spec_has_binary(binaries: Seq<TestBinary>, id: Seq<char>) -> bool {
    exists|j: int| 0 <= j < binaries.len() && binaries[j].binary_id@ == id
}

/// How many of the first `j` catalog cases the selection marks Executing
/// although no binary of the run carries their identifier: such a case can
/// never launch and is owed a could-not-launch failure.
pub open spec fn missing_binary_count(
    binaries: Seq<TestBinary>,
    cases: Seq<TestCase>,
    sts: Seq<CaseStatus>,
    j: int,
) -> nat
    decreases j,
{
    if j <= 0 {
        0
    } else {
        missing_binary_count(binaries, cases, sts, j - 1) + (if sts[j - 1] is Executing
            && !spec_has_binary(binaries, cases[j - 1].binary_id@) {
            1nat
        } else {
            0nat
        })
    }
}

/// The outcome variants of a sequence of per-case results.
pub open spec fn result_outcomes(rs: Seq<CaseResult>) -> Seq<RunOutcome> {
    rs.map_values(|cr: CaseResult| cr.outcome)
}

/// One finished run: the aggregate statistics, and one full result per
/// executed case — outcome, wall-clock duration, captured output — in
/// execution order, for the reporter to consume.
#[derive(Debug)]
pub struct RunReport {
    pub stats: RunStats,
    pub results: Vec<CaseResult>,
}

/// Run every case the selection marks Executing, in selection order, one
/// child process at a time. The statistics are exactly the counts over the
/// returned results: they account for every executing case, count the
/// skipped ones, and — since nothing cancels a serial run — report no
/// aborts. Every executing case whose binary is unknown to the run is
/// counted as failed (it could not launch), and only the remaining cases
/// can pass; a launch failure never halts the remaining cases.
pub fn run_selection_serial(
    binaries: &Vec<TestBinary>,
    catalog: &TestCatalog,
    selection: &Selection,
) -> (r: RunReport)
    requires
        selection.statuses@.len() == catalog.cases@.len(),
    ensures
        ({
            let n = selection.statuses@.len() as int;
            let execn = executing_count_prefix(selection.statuses@, n);
            let missing = missing_binary_count(binaries@, catalog.cases@, selection.statuses@, n);
            &&& r.stats.aborted == 0
            &&& r.stats.skipped == n - execn
            &&& r.stats.accounted() == execn
            &&& r.stats.failed >= missing
            &&& r.stats.passed + missing <= execn
            &&& r.results@.len() == execn
            &&& r.stats.passed == count_passed(result_outcomes(r.results@))
            &&& r.stats.failed == count_failed(result_outcomes(r.results@))
            &&& r.stats.aborted == count_aborted(result_outcomes(r.results@))
        }),
{
    let n = catalog.cases.len();
    let total = selection.len();
    let execn = selection.executing_count();
    proof {
        lemma_executing_count_le(selection.statuses@, selection.statuses@.len() as int);
    }
    let skipped = total - execn;
    let mut agg = RunAggregator::new(skipped as u64);
    let mut results: Vec<CaseResult> = Vec::new();
    let mut j: usize = 0;
    proof {
        assert(result_outcomes(results@) =~= Seq::<RunOutcome>::empty());
    }
    while j < n
        invariant
            n == catalog.cases@.len(),
            selection.statuses@.len() == n,
            j <= n,
            agg.inv(),
            agg.stats.skipped == skipped,
            agg.observed == executing_count_prefix(selection.statuses@, j as int),
            results@.len() == agg.observed,
            agg.history@ == result_outcomes(results@),
            agg.stats.aborted == 0,
            agg.stats.failed >= missing_binary_count(binaries@, catalog.cases@,
                selection.statuses@, j as int),
            agg.stats.passed + missing_binary_count(binaries@, catalog.cases@,
                selection.statuses@, j as int) <= executing_count_prefix(selection.statuses@,
                j as int),
        decreases n - j,
    {
        if matches!(selection.statuses[j], CaseStatus::Executing) {
            let case = &catalog.cases[j];
            let t0 = now_millis();
            let (outcome, output): (RunOutcome, String) = match find_binary(binaries,
                &case.binary_id) {
                None => {
                    proof {
                        assert(!spec_has_binary(binaries@, case.binary_id@)) by {
                            if spec_has_binary(binaries@, case.binary_id@) {
                                let w = choose|w: int|
                                    0 <= w < binaries@.len() && binaries@[w].binary_id@
                                        == case.binary_id@;
                            }
                        }
                    }
                    (classify_execution(true, false, None), String::new())
                },
                Some(b) => {
                    let args = single_test_args(&case.name, case.ignored);
                    let bin = &binaries[b];
                    match run_command_captured(&bin.path, &args, &bin.cwd) {
                        Err(_) => (classify_execution(true, false, None), String::new()),
                        Ok(cap) => {
                            let mut out = cap.stdout;
                            out.append(cap.stderr.as_str());
                            (classify_execution(false, false, cap.exit_code), out)
                        },
                    }
                },
            };
            let t1 = now_millis();
            let duration_ms: u64 = if t1 >= t0 {
                t1 - t0
            } else {
                0
            };
            proof {
                lemma_executing_count_le(selection.statuses@, j as int);
            }
            let ghost old_results = results@;
            agg.record_outcome(outcome);
            results.push(CaseResult { outcome, duration_ms, output });
            proof {
                assert(result_outcomes(results@) =~= result_outcomes(old_results).push(outcome));
            }
        }
        j = j + 1;
    }
    proof {
        lemma_counts_sum(agg.history@);
    }
    RunReport { stats: agg.snapshot(), results }
}

} // verus!
