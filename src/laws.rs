use vstd::prelude::*;

use crate::aggregate::{duration_of, RunLog};
use crate::invocation::RunOutcome;

verus! {

/// The durations that a sequence of run attempts contributes, in order.
pub open spec fn durations_of(outcomes: Seq<RunOutcome>) -> Seq<u64> {
    outcomes.map_values(|o: RunOutcome| duration_of(o))
}

/// Replaying run attempts from a fresh session keeps the session
/// well-formed and records at most one duration per attempt.
pub proof fn lemma_replay_wf(count: nat, outcomes: Seq<RunOutcome>)
    requires
        count > 0,
    ensures
        RunLog::fresh(count).replay(outcomes).wf(),
        RunLog::fresh(count).replay(outcomes).count == count,
        RunLog::fresh(count).replay(outcomes).history.len() <= outcomes.len(),
    decreases outcomes.len(),
{
    if outcomes.len() > 0 {
        lemma_replay_wf(count, outcomes.drop_last());
    }
}

/// As long as the target program starts every time and no more runs were
/// attempted than asked for, the history holds the duration of every
/// attempt, in order.
pub proof fn lemma_replay_records_each_run(count: nat, outcomes: Seq<RunOutcome>)
    requires
        count > 0,
        outcomes.len() <= count,
        forall|i: int| 0 <= i < outcomes.len() ==> outcomes[i] is Completed,
    ensures
        RunLog::fresh(count).replay(outcomes) == (RunLog {
            count,
            history: durations_of(outcomes),
            aborted: false,
        }),
    decreases outcomes.len(),
{
    if outcomes.len() > 0 {
        let prefix = outcomes.drop_last();
        assert forall|i: int| 0 <= i < prefix.len() implies prefix[i] is Completed by {
            assert(prefix[i] == outcomes[i]);
        }
        lemma_replay_records_each_run(count, prefix);
        assert(outcomes.last() is Completed);
        assert(durations_of(outcomes) =~= durations_of(prefix).push(
            duration_of(outcomes.last()),
        ));
    } else {
        assert(durations_of(outcomes) =~= Seq::<u64>::empty());
    }
}

/// A full session, in which every one of the `count` requested runs
/// started, ends complete with exactly `count` durations in its history,
/// one per run and in the order of the runs.
pub proof fn lemma_full_run_has_count_entries(count: nat, outcomes: Seq<RunOutcome>)
    requires
        count > 0,
        outcomes.len() == count,
        forall|i: int| 0 <= i < outcomes.len() ==> outcomes[i] is Completed,
    ensures
        RunLog::fresh(count).replay(outcomes).is_complete(),
        RunLog::fresh(count).replay(outcomes).history.len() == count,
        forall|i: int|
            0 <= i < count ==> RunLog::fresh(count).replay(outcomes).history[i]
                == outcomes[i]->Completed_0.duration_nanos,
{
    lemma_replay_records_each_run(count, outcomes);
}

/// Runs in which the target program exited with a failure status still
/// count: a session whose every run failed ends complete, with one duration
/// per run, so its total and mean are still reported.
pub proof fn lemma_failed_runs_still_counted(count: nat, outcomes: Seq<RunOutcome>)
    requires
        count > 0,
        outcomes.len() == count,
        forall|i: int|
            0 <= i < outcomes.len() ==> outcomes[i] is Completed
                && !outcomes[i]->Completed_0.succeeded,
    ensures
        RunLog::fresh(count).replay(outcomes).is_complete(),
        RunLog::fresh(count).replay(outcomes).history == durations_of(outcomes),
{
    lemma_replay_records_each_run(count, outcomes);
}

/// Once the target program fails to start, the session is aborted: it keeps
/// no partial history, asks for no further run and never completes, however
/// many runs had succeeded before and whatever later attempts would give.
pub proof fn lemma_launch_failure_aborts(count: nat, outcomes: Seq<RunOutcome>, k: int)
    requires
        count > 0,
        outcomes.len() <= count,
        0 <= k < outcomes.len(),
        outcomes[k] is LaunchFailed,
    ensures
        RunLog::fresh(count).replay(outcomes).aborted,
        RunLog::fresh(count).replay(outcomes).history.len() == 0,
        !RunLog::fresh(count).replay(outcomes).is_running(),
        !RunLog::fresh(count).replay(outcomes).is_complete(),
    decreases outcomes.len(),
{
    let prefix = outcomes.drop_last();
    lemma_replay_wf(count, prefix);
    if k < outcomes.len() - 1 {
        assert(prefix[k] == outcomes[k]);
        lemma_launch_failure_aborts(count, prefix, k);
    }
}

} // verus!
