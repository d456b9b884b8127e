//! A benchmarking harness core: it validates what the caller hands it, then
//! drives a fixed number of runs of a target program, keeps each run's
//! duration and reports the total and the mean.
//!
//! Starting a process and reading the clock are left to the caller: the
//! library decides what to do next and what to report, given what each run
//! returned.

mod aggregate;
mod count;
mod error;
mod invocation;
mod laws;
mod run_spec;
mod summary;

pub use aggregate::{duration_of, Action, Aggregator, RunLog, RunReport};
pub use count::{
    count_value, decimal_value, is_digit, is_valid_count, is_white, lemma_negative_count_is_refused,
    lemma_non_numeric_count_is_refused, parse_count, trimmed, unsigned_digits,
};
pub use error::{exit_code, HarnessError};
pub use invocation::{RunOutcome, RunResult};
pub use laws::{
    durations_of, lemma_failed_runs_still_counted, lemma_full_run_has_count_entries,
    lemma_launch_failure_aborts, lemma_replay_records_each_run, lemma_replay_wf,
};
pub use run_spec::{validate_args, RunSpec};
pub use summary::{total_of, Summary};
