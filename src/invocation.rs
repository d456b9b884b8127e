use vstd::prelude::*;

verus! {

/// What one completed run of the target program gave.
#[derive(Debug, PartialEq, Eq)]
pub struct RunResult {
    /// Whether the program exited normally with status zero.
    pub succeeded: bool,
    /// The program's diagnostic output; empty when the run succeeded.
    pub stderr_text: String,
    /// Wall-clock time of the run, process creation included, in nanoseconds.
    pub duration_nanos: u64,
}

/// What one attempt to run the target program gave.
#[derive(Debug, PartialEq, Eq)]
pub enum RunOutcome {
    /// The program started and terminated.
    Completed(RunResult),
    /// The program could not be started at all; no time was measured.
    LaunchFailed,
}

impl RunResult {
    /// Classifies a terminated run. `exit_code` is the program's exit status,
    /// or `None` when it ended abnormally (killed by a signal). A run
    /// succeeded exactly when it exited with status zero; the diagnostic text
    /// is kept for failed runs only.
    pub fn from_exit(exit_code: Option<i32>, stderr_text: String, duration_nanos: u64) -> (r: RunResult)
        ensures
            r.succeeded == (exit_code == Some(0i32)),
            r.duration_nanos == duration_nanos,
            r.succeeded ==> r.stderr_text@ == Seq::<char>::empty(),
            !r.succeeded ==> r.stderr_text@ == stderr_text@,
    {
        let succeeded = match exit_code {
            Some(c) => c == 0,
            None => false,
        };
        let kept = if succeeded {
            String::new()
        } else {
            stderr_text
        };
        RunResult { succeeded, stderr_text: kept, duration_nanos }
    }
}

} // verus!
