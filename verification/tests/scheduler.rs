use browser_test::{
    collected_failures_error, BrowserTestError, BrowserTestFailurePolicy, BrowserTestParallelism,
    NonZeroCount, RunOutcome, SchedulerAction, TestScheduler,
};

/// Drives a scheduler over tests with the given results (`true` for a pass). Running tests
/// finish in the order they were started. Returns the outcome and the started tests in order.
fn drive(
    parallelism: BrowserTestParallelism,
    policy: BrowserTestFailurePolicy,
    results: &[bool],
) -> (RunOutcome, Vec<usize>) {
    let mut scheduler = TestScheduler::new(parallelism, policy, results.len());
    let mut started = Vec::new();
    let mut running = std::collections::VecDeque::new();
    loop {
        match scheduler.next_action() {
            SchedulerAction::Start(i) => {
                started.push(i);
                running.push_back(i);
            }
            SchedulerAction::AwaitCompletion => {
                let i = running.pop_front().expect("a test should be running");
                assert!(scheduler.is_running(i));
                scheduler.record_completion(i, results[i]);
            }
            SchedulerAction::Finish(outcome) => {
                assert!(running.is_empty());
                return (outcome, started);
            }
        }
    }
}

fn two() -> BrowserTestParallelism {
    BrowserTestParallelism::Parallel(
        NonZeroCount::new(2).expect("literal parallelism should be non-zero"),
    )
}

#[test]
fn parallelism_max_parallel_tests_treats_sequential_as_one() {
    assert_eq!(
        BrowserTestParallelism::Sequential.max_parallel_tests().get(),
        1
    );

    let max_parallel_tests = NonZeroCount::new(3).expect("literal parallelism should be non-zero");
    assert_eq!(
        BrowserTestParallelism::Parallel(max_parallel_tests)
            .max_parallel_tests()
            .get(),
        3
    );
}

#[test]
fn browser_test_failures_returns_ok_when_empty() {
    let (outcome, _) = drive(
        BrowserTestParallelism::Sequential,
        BrowserTestFailurePolicy::RunAll,
        &[true, true],
    );

    assert_eq!(outcome, RunOutcome::AllPassed);
}

#[test]
fn browser_test_failures_returns_aggregate_report_with_children() {
    let (outcome, _) = drive(
        BrowserTestParallelism::Sequential,
        BrowserTestFailurePolicy::RunAll,
        &[false, false],
    );

    let RunOutcome::CollectedFailures(failed) = outcome else {
        panic!("non-empty failure collection should fail");
    };
    assert_eq!(failed, vec![0, 1]);
    assert!(collected_failures_error(failed.len())
        .to_display_string()
        .contains(&BrowserTestError::RunTests { failed_tests: 2 }.to_display_string()));
}

#[test]
fn sequential_fail_fast_stops_after_first_failure() {
    let (outcome, started) = drive(
        BrowserTestParallelism::Sequential,
        BrowserTestFailurePolicy::FailFast,
        &[false, true],
    );

    assert_eq!(outcome, RunOutcome::FirstFailure(0));
    assert_eq!(started, vec![0]);
}

#[test]
fn sequential_run_all_continues_after_failure_and_panic() {
    let (outcome, started) = drive(
        BrowserTestParallelism::Sequential,
        BrowserTestFailurePolicy::RunAll,
        &[false, false, true],
    );

    assert_eq!(started, vec![0, 1, 2]);
    let RunOutcome::CollectedFailures(failed) = outcome else {
        panic!("run-all should report collected failures");
    };
    assert_eq!(failed.len(), 2);
    assert_eq!(
        collected_failures_error(failed.len()),
        BrowserTestError::RunTests { failed_tests: 2 }
    );
}

#[test]
fn parallel_fail_fast_stops_starting_new_tests_but_waits_for_running_tests() {
    let (outcome, started) = drive(two(), BrowserTestFailurePolicy::FailFast, &[false, false, true]);

    let RunOutcome::CollectedFailures(failed) = outcome else {
        panic!("fail-fast should report failures from already-running tests");
    };
    assert_eq!(failed, vec![0, 1]);
    assert_eq!(started, vec![0, 1]);
}

#[test]
fn parallel_run_all_starts_every_test() {
    let (outcome, started) = drive(two(), BrowserTestFailurePolicy::RunAll, &[true, true, true]);

    assert_eq!(outcome, RunOutcome::AllPassed);
    assert_eq!(started, vec![0, 1, 2]);
}

#[test]
fn parallel_failures_are_reported_in_index_order() {
    let mut scheduler = TestScheduler::new(two(), BrowserTestFailurePolicy::RunAll, 3);
    assert_eq!(scheduler.next_action(), SchedulerAction::Start(0));
    assert_eq!(scheduler.next_action(), SchedulerAction::Start(1));
    assert_eq!(scheduler.next_action(), SchedulerAction::AwaitCompletion);
    scheduler.record_completion(1, false);
    assert_eq!(scheduler.next_action(), SchedulerAction::Start(2));
    scheduler.record_completion(2, false);
    assert_eq!(scheduler.next_action(), SchedulerAction::AwaitCompletion);
    scheduler.record_completion(0, false);
    assert_eq!(
        scheduler.next_action(),
        SchedulerAction::Finish(RunOutcome::CollectedFailures(vec![0, 1, 2]))
    );
}

#[test]
fn parallel_one_behaves_like_sequential() {
    let one = BrowserTestParallelism::Parallel(NonZeroCount::one());
    let (outcome, started) = drive(one, BrowserTestFailurePolicy::FailFast, &[true, false, true]);

    assert_eq!(outcome, RunOutcome::FirstFailure(1));
    assert_eq!(started, vec![0, 1]);
}

#[test]
fn empty_run_finishes_at_once() {
    let (outcome, started) = drive(two(), BrowserTestFailurePolicy::FailFast, &[]);

    assert_eq!(outcome, RunOutcome::AllPassed);
    assert!(started.is_empty());
}

#[test]
fn defaults_are_sequential_and_fail_fast() {
    assert_eq!(BrowserTestParallelism::default(), BrowserTestParallelism::Sequential);
    assert_eq!(BrowserTestFailurePolicy::default(), BrowserTestFailurePolicy::FailFast);
}
