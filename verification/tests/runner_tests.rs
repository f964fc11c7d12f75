use nextest_runner::outcome::{classify_execution, RunOutcome};
use nextest_runner::runner::{CaseSlot, RunnerState};
use nextest_runner::stats::RunAggregator;

#[test]
fn classify_launch_failure_is_failed_with_cause() {
    let r = classify_execution(true, false, None);
    assert_eq!(r, RunOutcome::Failed { could_not_launch: true, exit_code: None });
}

#[test]
fn classify_timeout_wins_over_exit_code() {
    let r = classify_execution(false, true, Some(0));
    assert_eq!(r, RunOutcome::TimedOut);
}

#[test]
fn classify_exit_zero_passes() {
    assert_eq!(classify_execution(false, false, Some(0)), RunOutcome::Passed);
}

#[test]
fn classify_nonzero_exit_fails_with_code() {
    assert_eq!(
        classify_execution(false, false, Some(101)),
        RunOutcome::Failed { could_not_launch: false, exit_code: Some(101) }
    );
}

#[test]
fn classify_signal_death_fails_without_code() {
    assert_eq!(
        classify_execution(false, false, None),
        RunOutcome::Failed { could_not_launch: false, exit_code: None }
    );
}

#[test]
fn worker_bound_is_respected() {
    let mut rs = RunnerState::new(5, 2);
    assert_eq!(rs.poll_start(), Some(0));
    assert_eq!(rs.poll_start(), Some(1));
    // both workers busy: nothing more may start
    assert_eq!(rs.poll_start(), None);
    assert_eq!(rs.running(), 2);
    rs.record_outcome(0, RunOutcome::Passed);
    assert_eq!(rs.running(), 1);
    assert_eq!(rs.poll_start(), Some(2));
    assert_eq!(rs.running(), 2);
    assert_eq!(rs.poll_start(), None);
}

#[test]
fn all_passing_run_reaches_success() {
    let n = 4;
    let mut rs = RunnerState::new(n, 2);
    let mut agg = RunAggregator::new(0);
    loop {
        match rs.poll_start() {
            Some(case) => {
                let outcome = RunOutcome::Passed;
                rs.record_outcome(case, outcome);
                agg.record_outcome(outcome);
            }
            None => {
                if rs.is_complete() {
                    break;
                }
            }
        }
    }
    let stats = agg.snapshot();
    assert_eq!(stats.passed, n as u64);
    assert_eq!(stats.failed, 0);
    assert_eq!(stats.aborted, 0);
    assert!(stats.is_success());
}

#[test]
fn cancellation_accounts_for_every_case() {
    let n = 4;
    let mut rs = RunnerState::new(n, 2);
    let mut agg = RunAggregator::new(0);
    // two cases go in flight; one completes before cancellation (k = 1)
    assert_eq!(rs.poll_start(), Some(0));
    assert_eq!(rs.poll_start(), Some(1));
    rs.record_outcome(0, RunOutcome::Passed);
    agg.record_outcome(RunOutcome::Passed);
    rs.request_cancel();
    // no new case starts once cancellation is requested
    assert_eq!(rs.poll_start(), None);
    // the in-flight case is terminated and reported as aborted
    rs.record_outcome(1, RunOutcome::Aborted);
    agg.record_outcome(RunOutcome::Aborted);
    // every still-queued case drains as aborted
    let drained = rs.drain_queued();
    assert_eq!(drained, vec![2, 3]);
    for _ in &drained {
        agg.record_outcome(RunOutcome::Aborted);
    }
    assert!(rs.is_complete());
    let stats = agg.snapshot();
    assert_eq!(stats.passed + stats.failed + stats.aborted, n as u64);
    assert_eq!(stats.passed, 1);
    assert_eq!(stats.aborted, 3);
    assert!(!stats.is_success());
}

#[test]
fn cancel_is_idempotent() {
    let mut rs = RunnerState::new(2, 1);
    rs.request_cancel();
    rs.request_cancel();
    assert!(rs.cancelled);
    let drained = rs.drain_queued();
    assert_eq!(drained, vec![0, 1]);
    assert_eq!(rs.slots, vec![
        CaseSlot::Done(RunOutcome::Aborted),
        CaseSlot::Done(RunOutcome::Aborted),
    ]);
}

#[test]
fn aggregator_counts_each_variant_once() {
    let mut agg = RunAggregator::new(7);
    agg.record_outcome(RunOutcome::Passed);
    agg.record_outcome(RunOutcome::Failed { could_not_launch: false, exit_code: Some(1) });
    agg.record_outcome(RunOutcome::TimedOut);
    agg.record_outcome(RunOutcome::Aborted);
    let stats = agg.snapshot();
    assert_eq!(stats.passed, 1);
    // a timeout counts as a failure in the aggregate
    assert_eq!(stats.failed, 2);
    assert_eq!(stats.aborted, 1);
    assert_eq!(stats.skipped, 7);
    assert_eq!(agg.observed, 4);
    assert!(!stats.is_success());
}

#[test]
fn skipped_cases_do_not_spoil_success() {
    let mut agg = RunAggregator::new(3);
    agg.record_outcome(RunOutcome::Passed);
    let stats = agg.snapshot();
    assert_eq!(stats.skipped, 3);
    assert!(stats.is_success());
}
