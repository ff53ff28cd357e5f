use std::time::Duration;

use browser_test::{
    BrowserTestFailurePolicy, BrowserTestParallelism, BrowserTestVisibility, BrowserTimeouts,
    CapturedLine, DriverOutputConfig, DriverOutputSource, ElementQueryWaitConfig, NonZeroCount,
    PauseDecision, PauseOutcome, ResolvedDriverOutputConfig, RunErrorSource, RunEvent,
    RunFailure, RunLifecycle, RunResult, RunStep, RunnerSettings,
    DEFAULT_BROWSER_DRIVER_OUTPUT_TAIL_LINES,
};

#[test]
fn runner_defaults_to_sequential_fail_fast_execution() {
    let runner = RunnerSettings::new();

    assert_eq!(runner.parallelism, BrowserTestParallelism::Sequential);
    assert_eq!(runner.failure_policy, BrowserTestFailurePolicy::FailFast);
}

#[test]
fn runner_parallelism_builders_set_scheduling_mode() {
    let max_parallel_tests = NonZeroCount::new(3).expect("literal parallelism should be non-zero");

    let runner = RunnerSettings::new()
        .with_test_parallelism(BrowserTestParallelism::Parallel(max_parallel_tests));
    assert_eq!(
        runner.parallelism,
        BrowserTestParallelism::Parallel(max_parallel_tests)
    );

    let runner = runner.with_test_parallelism(BrowserTestParallelism::Sequential);
    assert_eq!(runner.parallelism, BrowserTestParallelism::Sequential);
}

#[test]
fn runner_failure_policy_builders_set_failure_mode() {
    let runner = RunnerSettings::new().with_failure_policy(BrowserTestFailurePolicy::RunAll);
    assert_eq!(runner.failure_policy, BrowserTestFailurePolicy::RunAll);

    let runner = runner.with_failure_policy(BrowserTestFailurePolicy::FailFast);
    assert_eq!(runner.failure_policy, BrowserTestFailurePolicy::FailFast);
}

#[test]
fn runner_visibility_builder_sets_visible_mode() {
    let runner = RunnerSettings::new().with_visibility(&BrowserTestVisibility::Visible, None);
    assert!(runner.visible);

    let runner = runner.with_visibility(&BrowserTestVisibility::Headless, None);
    assert!(!runner.visible);
}

#[test]
fn runner_visibility_builder_reads_default_env() {
    let visibility = BrowserTestVisibility::from_env();
    assert_eq!(visibility.env_var().as_deref(), Some("BROWSER_TEST_VISIBLE"));

    let runner = RunnerSettings::new().with_visibility(&visibility, Some("yes"));

    assert!(runner.visible);
}

#[test]
fn runner_browser_driver_output_builder_sets_capture() {
    let runner =
        RunnerSettings::new().with_driver_output(DriverOutputConfig::tail_lines(12), None, None);

    let ResolvedDriverOutputConfig::TailLines(tail_lines) = runner.driver_output else {
        panic!("browser driver output tail-line capture should be configured");
    };
    assert_eq!(tail_lines.get(), 12);
}

#[test]
fn deprecated_browser_driver_output_builder_sets_capture() {
    let runner = RunnerSettings::new().with_browser_driver_output(
        browser_test::BrowserDriverOutputConfig::new(12),
        None,
        None,
    );

    let ResolvedDriverOutputConfig::TailLines(tail_lines) = runner.driver_output else {
        panic!("browser driver output tail-line capture should be configured");
    };
    assert_eq!(tail_lines.get(), 12);
}

#[test]
fn runner_browser_driver_output_zero_tail_disables_capture() {
    let runner =
        RunnerSettings::new().with_driver_output(DriverOutputConfig::tail_lines(0), None, None);

    assert!(matches!(
        runner.driver_output,
        ResolvedDriverOutputConfig::Disabled
    ));
}

#[test]
fn browser_driver_output_from_env_uses_default_tail_lines() {
    let runner =
        RunnerSettings::new().with_driver_output(DriverOutputConfig::from_env(), Some("1"), None);

    let ResolvedDriverOutputConfig::TailLines(tail_lines) = runner.driver_output else {
        panic!("env browser driver output tail-line capture should be configured");
    };
    assert_eq!(tail_lines.get(), DEFAULT_BROWSER_DRIVER_OUTPUT_TAIL_LINES);
}

#[test]
fn browser_driver_output_tail_lines_creates_fresh_capture_per_run() {
    let runner =
        RunnerSettings::new().with_driver_output(DriverOutputConfig::tail_lines(1), None, None);

    let mut first = runner
        .driver_output_capture_for_run()
        .expect("tail-line capture should be enabled");
    let second = runner
        .driver_output_capture_for_run()
        .expect("tail-line capture should be enabled");

    first.push(CapturedLine {
        source: DriverOutputSource::Stdout,
        sequence: 0,
        line: "first run".to_owned(),
    });

    assert_eq!(first.snapshot().total_lines, 1);
    assert_eq!(second.snapshot().total_lines, 0);
}

#[test]
fn browser_driver_output_disabled_creates_no_capture_for_run() {
    let runner =
        RunnerSettings::new().with_driver_output(DriverOutputConfig::disabled(), None, None);

    assert!(runner.driver_output_capture_for_run().is_none());
}

#[test]
fn runner_webdriver_timeouts_builder_sets_default_timeouts() {
    let timeouts = BrowserTimeouts::builder()
        .script_timeout(Duration::from_secs(10))
        .page_load_timeout(Duration::from_secs(10))
        .implicit_wait_timeout(Duration::from_secs(0))
        .build();

    let runner = RunnerSettings::new().with_timeouts(timeouts);

    assert_eq!(runner.webdriver_timeouts, Some(timeouts));
}

#[test]
fn deprecated_webdriver_timeouts_builder_sets_default_timeouts() {
    let timeouts = BrowserTimeouts::builder()
        .script_timeout(Duration::from_secs(10))
        .page_load_timeout(Duration::from_secs(10))
        .implicit_wait_timeout(Duration::from_secs(0))
        .build();

    let runner = RunnerSettings::new().with_webdriver_timeouts(timeouts);

    assert_eq!(runner.webdriver_timeouts, Some(timeouts));
}

#[test]
fn runner_element_query_wait_builder_sets_default_wait() {
    let wait = ElementQueryWaitConfig::builder()
        .timeout(Duration::from_secs(10))
        .interval(Duration::from_millis(500))
        .build();

    let runner = RunnerSettings::new().with_element_query_wait(wait);

    assert_eq!(runner.element_query_wait, Some(wait));
}

#[test]
fn runner_with_no_tests_returns_without_starting_webdriver_or_pausing() {
    let run = RunLifecycle::new(0, true);

    assert_eq!(run.next_step(), RunStep::Finish(RunResult::Succeeded));
}

#[test]
fn termination_failure_is_attached_to_existing_test_failure() {
    let mut run = RunLifecycle::new(1, false);
    run.record(RunEvent::DriverStarted);
    run.record(RunEvent::TestsFinished(false));
    assert_eq!(run.next_step(), RunStep::TerminateDriver);
    run.record(RunEvent::DriverTerminationFailed);

    assert_eq!(
        run.next_step(),
        RunStep::Finish(RunResult::Failed(RunFailure {
            source: RunErrorSource::Tests,
            termination_child: true,
            attach_driver_output: true,
        }))
    );
}

#[test]
fn run_pauses_then_starts_driver_and_terminates_it() {
    let mut run = RunLifecycle::new(2, true);
    assert_eq!(run.next_step(), RunStep::Pause);
    run.record(RunEvent::PauseEnded(PauseOutcome::Decided(PauseDecision::Continue)));
    assert_eq!(run.next_step(), RunStep::StartDriver);
    run.record(RunEvent::DriverStarted);
    assert_eq!(run.next_step(), RunStep::RunTests);
    run.record(RunEvent::TestsFinished(true));
    assert_eq!(run.next_step(), RunStep::TerminateDriver);
    run.record(RunEvent::DriverTerminated);
    assert_eq!(run.next_step(), RunStep::Finish(RunResult::Succeeded));
}

#[test]
fn aborted_pause_succeeds_without_driver() {
    let mut run = RunLifecycle::new(2, true);
    run.record(RunEvent::PauseEnded(PauseOutcome::Decided(PauseDecision::Abort)));
    assert_eq!(run.next_step(), RunStep::Finish(RunResult::Succeeded));
}

#[test]
fn pause_and_start_failures_are_reported() {
    let mut run = RunLifecycle::new(2, true);
    run.record(RunEvent::PauseEnded(PauseOutcome::EndOfInput));
    assert_eq!(
        run.next_step(),
        RunStep::Finish(RunResult::Failed(RunFailure {
            source: RunErrorSource::Pause(browser_test::BrowserTestError::ReadPauseResponse),
            termination_child: false,
            attach_driver_output: false,
        }))
    );

    let mut run = RunLifecycle::new(2, false);
    run.record(RunEvent::DriverStartFailed);
    assert_eq!(
        run.next_step(),
        RunStep::Finish(RunResult::Failed(RunFailure {
            source: RunErrorSource::StartDriver,
            termination_child: false,
            attach_driver_output: true,
        }))
    );
}

#[test]
fn termination_failure_alone_is_reported() {
    let mut run = RunLifecycle::new(1, false);
    run.record(RunEvent::DriverStarted);
    run.record(RunEvent::TestsFinished(true));
    run.record(RunEvent::DriverTerminationFailed);
    assert_eq!(
        run.next_step(),
        RunStep::Finish(RunResult::Failed(RunFailure {
            source: RunErrorSource::TerminateDriver,
            termination_child: false,
            attach_driver_output: true,
        }))
    );
}

#[test]
fn visibility_modes_resolve() {
    assert!(!BrowserTestVisibility::headless().is_visible(Some("1")));
    assert!(BrowserTestVisibility::visible().is_visible(None));
    assert!(!BrowserTestVisibility::from_env().is_visible(None));
    let custom = BrowserTestVisibility::from_env_var("MY_VISIBLE".to_owned());
    assert_eq!(custom.env_var().as_deref(), Some("MY_VISIBLE"));
    assert!(custom.is_visible(Some("on")));
    assert!(!custom.is_visible(Some("off")));
    assert_eq!(BrowserTestVisibility::default(), BrowserTestVisibility::Headless);
}
