use bench_harness::{
    exit_code, Action, Aggregator, HarnessError, RunOutcome, RunReport, RunResult, Summary,
};

const MS: u64 = 1_000_000;

fn completed(exit: Option<i32>, stderr: &str, nanos: u64) -> RunOutcome {
    RunOutcome::Completed(RunResult::from_exit(exit, stderr.to_string(), nanos))
}

/// Plays a session through, the way a driver does, and returns the reports
/// and how it ended.
fn play(count: usize, mut outcomes: Vec<RunOutcome>) -> (Vec<RunReport>, Result<Summary, HarnessError>, usize) {
    let mut agg = Aggregator::new(count).unwrap();
    let mut reports = Vec::new();
    let mut invocations = 0;
    outcomes.reverse();
    loop {
        match agg.next_action() {
            Action::Invoke { run } => {
                invocations += 1;
                assert_eq!(run, invocations);
                let outcome = outcomes.pop().expect("more runs asked for than planned");
                match agg.record(outcome) {
                    Ok(report) => reports.push(report),
                    Err(e) => assert_eq!(e, HarnessError::LaunchFailure),
                }
            }
            Action::Finish(summary) => return (reports, Ok(summary), invocations),
            Action::Abort => return (reports, Err(HarnessError::LaunchFailure), invocations),
        }
    }
}

#[test]
fn zero_count_is_refused_before_any_run() {
    assert_eq!(Aggregator::new(0).unwrap_err(), HarnessError::InvalidCount);
}

#[test]
fn fresh_session_asks_for_first_run() {
    let agg = Aggregator::new(4).unwrap();
    assert_eq!(agg.count(), 4);
    assert!(agg.durations().is_empty());
    assert_eq!(agg.next_action(), Action::Invoke { run: 1 });
}

#[test]
fn mean_of_three_fixed_durations() {
    let outcomes = vec![
        completed(Some(0), "", 100 * MS),
        completed(Some(0), "", 200 * MS),
        completed(Some(0), "", 300 * MS),
    ];
    let (reports, result, invocations) = play(3, outcomes);
    assert_eq!(invocations, 3);
    let summary = result.unwrap();
    assert_eq!(summary.runs, 3);
    assert_eq!(summary.total_nanos, 600 * MS as u128);
    assert_eq!(summary.mean_nanos, 200 * MS as u128);
    assert_eq!(
        reports,
        vec![
            RunReport::Succeeded { run: 1, duration_nanos: 100 * MS },
            RunReport::Succeeded { run: 2, duration_nanos: 200 * MS },
            RunReport::Succeeded { run: 3, duration_nanos: 300 * MS },
        ]
    );
    assert_eq!(exit_code(&Ok::<Summary, HarnessError>(summary)), 0);
}

#[test]
fn full_run_keeps_count_durations() {
    let mut agg = Aggregator::new(5).unwrap();
    for k in 0..5u64 {
        assert_eq!(agg.next_action(), Action::Invoke { run: k as usize + 1 });
        agg.record(completed(Some(0), "", k + 1)).unwrap();
    }
    assert_eq!(agg.durations(), &vec![1, 2, 3, 4, 5]);
    match agg.next_action() {
        Action::Finish(s) => {
            assert_eq!(s.runs, 5);
            assert_eq!(s.total_nanos, 15);
            assert_eq!(s.mean_nanos, 3);
        }
        other => panic!("expected the statistics, got {:?}", other),
    }
}

#[test]
fn always_failing_program_still_gives_a_mean() {
    let outcomes = vec![
        completed(Some(1), "boom\n", 10),
        completed(Some(1), "boom\n", 20),
        completed(Some(1), "", 40),
    ];
    let (reports, result, invocations) = play(3, outcomes);
    assert_eq!(invocations, 3);
    assert_eq!(
        reports,
        vec![
            RunReport::Failed { run: 1, stderr_text: "boom\n".to_string() },
            RunReport::Failed { run: 2, stderr_text: "boom\n".to_string() },
            RunReport::Failed { run: 3, stderr_text: String::new() },
        ]
    );
    let summary = result.unwrap();
    assert_eq!(summary.total_nanos, 70);
    assert_eq!(summary.mean_nanos, 23);
    assert_eq!(exit_code(&Ok::<Summary, HarnessError>(summary)), 0);
}

#[test]
fn mixed_results_all_count_toward_mean() {
    let outcomes = vec![
        completed(Some(0), "", 100),
        completed(None, "killed", 300),
        completed(Some(2), "bad", 200),
        completed(Some(0), "", 400),
    ];
    let (reports, result, _) = play(4, outcomes);
    assert!(matches!(reports[1], RunReport::Failed { run: 2, .. }));
    let summary = result.unwrap();
    assert_eq!(summary.total_nanos, 1000);
    assert_eq!(summary.mean_nanos, 250);
}

#[test]
fn launch_failure_aborts_and_discards_history() {
    let outcomes = vec![
        completed(Some(0), "", 100),
        completed(Some(0), "", 100),
        RunOutcome::LaunchFailed,
    ];
    let (reports, result, invocations) = play(5, outcomes);
    assert_eq!(invocations, 3);
    assert_eq!(reports.len(), 2);
    assert_eq!(result, Err(HarnessError::LaunchFailure));
    assert_ne!(exit_code(&result), 0);
}

#[test]
fn launch_failure_on_first_run() {
    let mut agg = Aggregator::new(3).unwrap();
    assert_eq!(agg.record(RunOutcome::LaunchFailed).unwrap_err(), HarnessError::LaunchFailure);
    assert!(agg.durations().is_empty());
    assert_eq!(agg.next_action(), Action::Abort);
}

#[test]
fn launch_failure_after_runs_empties_history() {
    let mut agg = Aggregator::new(3).unwrap();
    agg.record(completed(Some(0), "", 7)).unwrap();
    assert_eq!(agg.durations(), &vec![7]);
    assert!(agg.record(RunOutcome::LaunchFailed).is_err());
    assert!(agg.durations().is_empty());
    assert_eq!(agg.next_action(), Action::Abort);
}

#[test]
fn exit_status_classification() {
    let ok = RunResult::from_exit(Some(0), "noise".to_string(), 5);
    assert!(ok.succeeded);
    assert_eq!(ok.stderr_text, "");
    assert_eq!(ok.duration_nanos, 5);
    let failed = RunResult::from_exit(Some(1), "oops".to_string(), 6);
    assert!(!failed.succeeded);
    assert_eq!(failed.stderr_text, "oops");
    let signalled = RunResult::from_exit(None, String::new(), 7);
    assert!(!signalled.succeeded);
    let negative = RunResult::from_exit(Some(-1), String::new(), 8);
    assert!(!negative.succeeded);
}

#[test]
fn summary_rounds_mean_down() {
    let s = Summary::of(&vec![1, 2]);
    assert_eq!(s.total_nanos, 3);
    assert_eq!(s.mean_nanos, 1);
    let single = Summary::of(&vec![9]);
    assert_eq!((single.runs, single.total_nanos, single.mean_nanos), (1, 9, 9));
}

#[test]
fn summary_total_is_exact_for_large_durations() {
    let s = Summary::of(&vec![u64::MAX, u64::MAX, u64::MAX]);
    assert_eq!(s.total_nanos, 3 * u64::MAX as u128);
    assert_eq!(s.mean_nanos, u64::MAX as u128);
}
