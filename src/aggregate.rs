use vstd::prelude::*;

use crate::error::HarnessError;
use crate::invocation::{RunOutcome, RunResult};
use crate::summary::Summary;

verus! {

/// The abstract state of a benchmarking session: how many runs were asked
/// for, the durations measured so far (the run history), and whether the
/// session was aborted because the target program could not be started.
pub struct RunLog {
    pub count: nat,
    pub history: Seq<u64>,
    pub aborted: bool,
}

/// The duration that a completed run contributes to the history.
pub open spec fn duration_of(outcome: RunOutcome) -> u64 {
    match outcome {
        RunOutcome::Completed(r) => r.duration_nanos,
        RunOutcome::LaunchFailed => 0,
    }
}

impl RunLog {
    /// A session of `count` runs before the first run.
    pub open spec fn fresh(count: nat) -> RunLog {
        RunLog { count, history: Seq::empty(), aborted: false }
    }

    /// At least one run is asked for, the history never outgrows the count,
    /// and an aborted session keeps no partial history.
    pub open spec fn wf(self) -> bool {
        &&& self.count > 0
        &&& self.history.len() <= self.count
        &&& self.aborted ==> self.history.len() == 0
    }

    /// More runs are owed.
    pub open spec fn is_running(self) -> bool {
        !self.aborted && self.history.len() < self.count
    }

    /// Every requested run has completed.
    pub open spec fn is_complete(self) -> bool {
        !self.aborted && self.history.len() == self.count
    }

    /// The state after one run attempt. A completed run, failed or not,
    /// appends its duration; a launch failure aborts the session and
    /// discards the partial history. Once the session is over, nothing
    /// changes it.
    pub open spec fn after(self, outcome: RunOutcome) -> RunLog {
        if !self.is_running() {
            self
        } else {
            match outcome {
                RunOutcome::Completed(r) => RunLog {
                    count: self.count,
                    history: self.history.push(r.duration_nanos),
                    aborted: false,
                },
                RunOutcome::LaunchFailed => RunLog {
                    count: self.count,
                    history: Seq::empty(),
                    aborted: true,
                },
            }
        }
    }

    /// The state after a sequence of run attempts, in order.
    pub open spec fn replay(self, outcomes: Seq<RunOutcome>) -> RunLog
        decreases outcomes.len(),
    {
        if outcomes.len() == 0 {
            self
        } else {
            self.replay(outcomes.drop_last()).after(outcomes.last())
        }
    }
}

/// What a session asks of its caller next.
#[derive(Debug, PartialEq, Eq)]
pub enum Action {
    /// Start the target program once more; `run` is the 1-based index of
    /// that run.
    Invoke { run: usize },
    /// All runs completed: report these statistics.
    Finish(Summary),
    /// The target program could not be started: stop with an error.
    Abort,
}

/// The report emitted for one completed run.
#[derive(Debug, PartialEq, Eq)]
pub enum RunReport {
    /// The run exited with status zero after `duration_nanos`.
    Succeeded { run: usize, duration_nanos: u64 },
    /// The run failed; `stderr_text` is what it wrote as diagnostics.
    Failed { run: usize, stderr_text: String },
}

impl RunReport {
    /// Whether this is the report for run number `run` that gave `result`.
    pub open spec fn reports(self, run: int, result: RunResult) -> bool {
        match self {
            RunReport::Succeeded { run: n, duration_nanos } => {
                &&& result.succeeded
                &&& n == run
                &&& duration_nanos == result.duration_nanos
            },
            RunReport::Failed { run: n, stderr_text } => {
                &&& !result.succeeded
                &&& n == run
                &&& stderr_text@ == result.stderr_text@
            },
        }
    }
}

/// A benchmarking session: it asks for a fixed number of runs, one after
/// another, and keeps each run's duration.
#[derive(Debug)]
pub struct Aggregator {
    count: usize,
    history: Vec<u64>,
    aborted: bool,
}

impl View for Aggregator {
    type V = RunLog;

    closed spec fn view(&self) -> RunLog {
        RunLog { count: self.count as nat, history: self.history@, aborted: self.aborted }
    }
}

impl Aggregator {
    /// Opens a session of `count` runs. A count of zero is refused, so that
    /// no run is ever started and no mean is taken over nothing.
    pub fn new(count: usize) -> (r: Result<Aggregator, HarnessError>)
        ensures
            count == 0 <==> r is Err,
            r is Err ==> r->Err_0 == HarnessError::InvalidCount,
            r is Ok ==> r->Ok_0@ == RunLog::fresh(count as nat),
            r is Ok ==> r->Ok_0@.wf(),
    {
        if count == 0 {
            Err(HarnessError::InvalidCount)
        } else {
            Ok(Aggregator { count, history: Vec::new(), aborted: false })
        }
    }

    /// The number of runs asked for.
    pub fn count(&self) -> (n: usize)
        ensures
            n == self@.count,
    {
        self.count
    }

    /// The durations measured so far, in the order of the runs.
    pub fn durations(&self) -> (d: &Vec<u64>)
        ensures
            d@ == self@.history,
    {
        &self.history
    }

    /// Decides what comes next: another run while runs are owed, the
    /// statistics once all have completed, or an abort after a launch
    /// failure.
    pub fn next_action(&self) -> (a: Action)
        requires
            self@.wf(),
        ensures
            a is Invoke <==> self@.is_running(),
            a is Invoke ==> a->run == self@.history.len() + 1,
            a is Finish <==> self@.is_complete(),
            a is Finish ==> a->Finish_0.describes(self@.history),
            a is Abort <==> self@.aborted,
    {
        if self.aborted {
            Action::Abort
        } else if self.history.len() < self.count {
            Action::Invoke { run: self.history.len() + 1 }
        } else {
            Action::Finish(Summary::of(&self.history))
        }
    }

    /// Takes in the outcome of the run that `next_action` asked for. A
    /// completed run is recorded and reported whether it succeeded or not; a
    /// launch failure aborts the session.
    pub fn record(&mut self, outcome: RunOutcome) -> (r: Result<RunReport, HarnessError>)
        requires
            old(self)@.wf(),
            old(self)@.is_running(),
        ensures
            final(self)@ == old(self)@.after(outcome),
            final(self)@.wf(),
            outcome is LaunchFailed ==> r == Err::<RunReport, HarnessError>(
                HarnessError::LaunchFailure,
            ),
            outcome is Completed ==> r is Ok && r->Ok_0.reports(
                old(self)@.history.len() + 1int,
                outcome->Completed_0,
            ),
    {
        match outcome {
            RunOutcome::Completed(result) => {
                let run = self.history.len() + 1;
                self.history.push(result.duration_nanos);
                if result.succeeded {
                    Ok(RunReport::Succeeded { run, duration_nanos: result.duration_nanos })
                } else {
                    Ok(RunReport::Failed { run, stderr_text: result.stderr_text })
                }
            },
            RunOutcome::LaunchFailed => {
                self.history = Vec::new();
                self.aborted = true;
                Err(HarnessError::LaunchFailure)
            },
        }
    }
}

} // verus!
