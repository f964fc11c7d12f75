//! Per-case run outcomes and the classification of a finished execution.

use vstd::prelude::*;

verus! {

/// The result of running one selected case. A failure either could not be
/// launched at all (`could_not_launch`, with no exit code) or ran and exited
/// unsuccessfully (with the exit code when the platform reported one).
#[derive(Clone, Copy, PartialEq, Eq, Structural, Debug)]
pub enum RunOutcome {
    Passed,
    Failed { could_not_launch: bool, exit_code: Option<i32> },
    TimedOut,
    Aborted,
}

/// The full per-case result: the outcome, the wall-clock duration of the
/// attempt, and the output the child wrote on both streams. The reporter is
/// the consumer of the captured output; the aggregator reads the outcome.
#[derive(Debug, Clone)]
pub struct CaseResult {
    pub outcome: RunOutcome,
    pub duration_ms: u64,
    pub output: String,
}

/// What outcome a finished (non-aborted) execution attempt gets:
/// a spawn failure is a failure with the distinguished "could not launch"
/// cause; a timeout wins over the exit code; exit code 0 passes; anything
/// else fails carrying the exit detail.
pub open spec fn spec_classify(launch_failed: bool, timed_out: bool, exit_code: Option<
    i32,
>) -> RunOutcome {
    if launch_failed {
        RunOutcome::Failed { could_not_launch: true, exit_code: None }
    } else if timed_out {
        RunOutcome::TimedOut
    } else if exit_code == Some(0i32) {
        RunOutcome::Passed
    } else {
        RunOutcome::Failed { could_not_launch: false, exit_code }
    }
}

/// Classify one execution attempt. A case whose child could not be spawned
/// is Failed with the "could not launch" cause (never fatal to the run); a
/// case whose timeout elapsed is TimedOut regardless of any exit code.
pub fn classify_execution(launch_failed: bool, timed_out: bool, exit_code: Option<i32>) -> (r:
    RunOutcome)
    ensures
        r == spec_classify(launch_failed, timed_out, exit_code),
        launch_failed ==> (r == RunOutcome::Failed { could_not_launch: true, exit_code: None }),
        !launch_failed && timed_out ==> r == RunOutcome::TimedOut,
{
    if launch_failed {
        RunOutcome::Failed { could_not_launch: true, exit_code: None }
    } else if timed_out {
        RunOutcome::TimedOut
    } else {
        match exit_code {
            Some(c) => {
                if c == 0 {
                    RunOutcome::Passed
                } else {
                    RunOutcome::Failed { could_not_launch: false, exit_code: Some(c) }
                }
            },
            None => RunOutcome::Failed { could_not_launch: false, exit_code: None },
        }
    }
}

} // verus!
