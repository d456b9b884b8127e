use vstd::prelude::*;

verus! {

/// The ways a benchmarking session can end abnormally.
#[derive(Debug, Clone, Copy, PartialEq, Eq, Structural)]
pub enum HarnessError {
    /// The command line did not name a program to run.
    UsageError,
    /// The repetition count was missing, not a number, or not positive.
    InvalidCount,
    /// The operating system could not start the target program.
    LaunchFailure,
}

/// The process exit status for a session's result: zero exactly when the
/// session completed, whatever the target program's own runs returned.
pub fn exit_code<T>(result: &Result<T, HarnessError>) -> (code: i32)
    ensures
        (code == 0) <==> result is Ok,
{
    match result {
        Ok(_) => 0,
        Err(_) => 1,
    }
}

} // verus!
