//! Runner configuration and the life cycle of a run: the empty-run shortcut, the manual pause,
//! the driver start, the tests, and the driver's termination.
use crate::driver_output::{
    env_requested_count, is_resolved_count, opt_str_view, DriverOutputCapture,
    DriverOutputConfig, ResolvedDriverOutputConfig,
};
use crate::env::{env_flag_enabled, env_flag_value_enabled, lemma_flag_words};
use crate::text::normalized;
use crate::error::BrowserTestError;
use crate::pause::{PauseConfig, PauseDecision, PauseOutcome};
use crate::scheduler::{BrowserTestFailurePolicy, BrowserTestParallelism};
use crate::timeout::BrowserTimeouts;
use crate::wait::ElementQueryWaitConfig;
use vstd::prelude::*;
use vstd::string::*;

verus! {

/// Environment variable that makes Chrome visible when a visibility reads the default variable.
pub const DEFAULT_VISIBLE_ENV: &'static str = "BROWSER_TEST_VISIBLE";

/// Chrome visibility mode.
#[derive(Debug, Clone, PartialEq, Eq, Hash)]
pub enum BrowserTestVisibility {
    /// Run Chrome headlessly.
    Headless,
    /// Run Chrome visibly.
    Visible,
    /// Visible when the named environment variable is a switched-on flag.
    FromEnvVar(String),
    /// Visible when `BROWSER_TEST_VISIBLE` is a switched-on flag.
    FromEnv,
}

impl Default for BrowserTestVisibility {
    fn default() -> (r: Self)
        ensures
            r == BrowserTestVisibility::Headless,
    {
        BrowserTestVisibility::Headless
    }
}

impl BrowserTestVisibility {
    /// Whether this mode makes Chrome visible, given the value of the variable it reads.
    pub open spec fn visible_spec(&self, env_value: Option<Seq<char>>) -> bool {
        match self {
            BrowserTestVisibility::Headless => false,
            BrowserTestVisibility::Visible => true,
            BrowserTestVisibility::FromEnvVar(_) => env_flag_value_enabled(env_value),
            BrowserTestVisibility::FromEnv => env_flag_value_enabled(env_value),
        }
    }

    /// A mode that reads a variable, whether the default one or a named one, makes Chrome
    /// visible exactly when the variable holds a switched-on flag, whatever its name: an unset
    /// variable keeps it headless, and `1`, `true`, `yes`, `on` or `enabled` (trimmed, in any
    /// ASCII case) make it visible. The fixed modes ignore the variable.
    pub proof fn lemma_variable_visibility(&self, env_value: Option<Seq<char>>)
        ensures
            self is Headless ==> !self.visible_spec(env_value),
            self is Visible ==> self.visible_spec(env_value),
            self is FromEnvVar || self is FromEnv ==> {
                &&& self.visible_spec(env_value) == env_flag_value_enabled(env_value)
                &&& self.visible_spec(env_value) == BrowserTestVisibility::FromEnv.visible_spec(
                    env_value,
                )
                &&& env_value is None ==> !self.visible_spec(env_value)
                &&& (env_value matches Some(v) && (normalized(v) == "1"@ || normalized(v)
                    == "true"@ || normalized(v) == "yes"@ || normalized(v) == "on"@
                    || normalized(v) == "enabled"@)) ==> self.visible_spec(env_value)
            },
            forall|a: String, b: String|
                #[trigger] BrowserTestVisibility::FromEnvVar(a).visible_spec(env_value)
                    == #[trigger] BrowserTestVisibility::FromEnvVar(b).visible_spec(env_value),
    {
        if let Some(v) = env_value {
            lemma_flag_words(v);
        }
    }

    /// A headless visibility config.
    pub fn headless() -> (r: Self)
        ensures
            r == BrowserTestVisibility::Headless,
    {
        BrowserTestVisibility::Headless
    }

    /// A visible visibility config.
    pub fn visible() -> (r: Self)
        ensures
            r == BrowserTestVisibility::Visible,
    {
        BrowserTestVisibility::Visible
    }

    /// A visibility config read from `BROWSER_TEST_VISIBLE`.
    pub fn from_env() -> (r: Self)
        ensures
            r == BrowserTestVisibility::FromEnv,
    {
        BrowserTestVisibility::FromEnv
    }

    /// A visibility config read from the environment variable `env_var`.
    pub fn from_env_var(env_var: String) -> (r: Self)
        ensures
            r == BrowserTestVisibility::FromEnvVar(env_var),
    {
        BrowserTestVisibility::FromEnvVar(env_var)
    }

    /// The environment variable this mode reads, if any.
    pub fn env_var(&self) -> (r: Option<String>)
        ensures
            r matches Some(name) ==> (match self {
                BrowserTestVisibility::FromEnvVar(n) => name@ == n@,
                BrowserTestVisibility::FromEnv => name@ == DEFAULT_VISIBLE_ENV@,
                _ => false,
            }),
            r is None <==> (self is Headless || self is Visible),
    {
        match self {
            BrowserTestVisibility::Headless => None,
            BrowserTestVisibility::Visible => None,
            BrowserTestVisibility::FromEnvVar(name) => Some(name.clone()),
            BrowserTestVisibility::FromEnv => Some(String::from_str(DEFAULT_VISIBLE_ENV)),
        }
    }

    /// Whether Chrome runs visibly; `env_value` is the value of the variable named by
    /// [`Self::env_var`] (`None` when unset or when no variable is read).
    pub fn is_visible(&self, env_value: Option<&str>) -> (r: bool)
        ensures
            r == self.visible_spec(opt_str_view(env_value)),
    {
        match self {
            BrowserTestVisibility::Headless => false,
            BrowserTestVisibility::Visible => true,
            BrowserTestVisibility::FromEnvVar(_) => env_flag_enabled(env_value),
            BrowserTestVisibility::FromEnv => env_flag_enabled(env_value),
        }
    }
}

/// The capture setting a runner keeps for a driver-output config, resolved at configuration
/// time; `flag_value` and `tail_value` are the values of the two driver-output variables.
pub fn browser_driver_output_setting(
    config: DriverOutputConfig,
    flag_value: Option<&str>,
    tail_value: Option<&str>,
) -> (r: ResolvedDriverOutputConfig)
    ensures
        is_resolved_count(r, config.requested_count(opt_str_view(flag_value), opt_str_view(tail_value))),
{
    config.resolve(flag_value, tail_value)
}

/// Everything a runner is configured with that decides how a run goes.
#[derive(Debug, Clone)]
pub struct RunnerSettings {
    /// Whether Chrome runs visibly.
    pub visible: bool,
    /// The manual pause before the driver starts, if configured.
    pub pause: Option<PauseConfig>,
    /// Extra context shown with the pause prompt.
    pub hint: Option<String>,
    /// How tests are scheduled.
    pub parallelism: BrowserTestParallelism,
    /// How failures affect the rest of the run.
    pub failure_policy: BrowserTestFailurePolicy,
    /// Timeouts applied to every session, unless a test overrides them.
    pub webdriver_timeouts: Option<BrowserTimeouts>,
    /// Element-query wait applied to every session, unless a test overrides it.
    pub element_query_wait: Option<ElementQueryWaitConfig>,
    /// Whether, and how much, browser-driver output is captured.
    pub driver_output: ResolvedDriverOutputConfig,
}

impl RunnerSettings {
    /// Headless, no pause or hint, sequential and fail-fast, no session defaults, no capture.
    pub fn new() -> (r: Self)
        ensures
            !r.visible,
            r.pause is None,
            r.hint is None,
            r.parallelism == BrowserTestParallelism::Sequential,
            r.failure_policy == BrowserTestFailurePolicy::FailFast,
            r.webdriver_timeouts is None,
            r.element_query_wait is None,
            r.driver_output == ResolvedDriverOutputConfig::Disabled,
    {
        RunnerSettings {
            visible: false,
            pause: None,
            hint: None,
            parallelism: BrowserTestParallelism::Sequential,
            failure_policy: BrowserTestFailurePolicy::FailFast,
            webdriver_timeouts: None,
            element_query_wait: None,
            driver_output: ResolvedDriverOutputConfig::Disabled,
        }
    }

    /// Configure Chrome visibility; the mode is resolved now, with `env_value` the value of the
    /// variable it reads.
    pub fn with_visibility(self, visibility: &BrowserTestVisibility, env_value: Option<&str>) -> (r:
        Self)
        ensures
            r == (RunnerSettings { visible: visibility.visible_spec(opt_str_view(env_value)), ..self }),
    {
        let visible = visibility.is_visible(env_value);
        RunnerSettings { visible, ..self }
    }

    /// Pause before starting the driver when the config is enabled.
    pub fn with_pause(self, pause: PauseConfig) -> (r: Self)
        ensures
            r == (RunnerSettings { pause: Some(pause), ..self }),
    {
        RunnerSettings { pause: Some(pause), ..self }
    }

    /// Set extra context shown with the pause prompt.
    pub fn with_hint(self, hint: String) -> (r: Self)
        ensures
            r == (RunnerSettings { hint: Some(hint), ..self }),
    {
        RunnerSettings { hint: Some(hint), ..self }
    }

    /// Set timeouts applied to every session.
    pub fn with_timeouts(self, timeouts: BrowserTimeouts) -> (r: Self)
        ensures
            r == (RunnerSettings { webdriver_timeouts: Some(timeouts), ..self }),
    {
        RunnerSettings { webdriver_timeouts: Some(timeouts), ..self }
    }

    /// Former name of [`Self::with_timeouts`].
    pub fn with_webdriver_timeouts(self, timeouts: BrowserTimeouts) -> (r: Self)
        ensures
            r == (RunnerSettings { webdriver_timeouts: Some(timeouts), ..self }),
    {
        self.with_timeouts(timeouts)
    }

    /// Set the element-query wait applied to every session.
    pub fn with_element_query_wait(self, wait: ElementQueryWaitConfig) -> (r: Self)
        ensures
            r == (RunnerSettings { element_query_wait: Some(wait), ..self }),
    {
        RunnerSettings { element_query_wait: Some(wait), ..self }
    }

    /// Configure how tests are scheduled.
    pub fn with_test_parallelism(self, parallelism: BrowserTestParallelism) -> (r: Self)
        ensures
            r == (RunnerSettings { parallelism, ..self }),
    {
        RunnerSettings { parallelism, ..self }
    }

    /// Configure how failures affect the rest of the run.
    pub fn with_failure_policy(self, failure_policy: BrowserTestFailurePolicy) -> (r: Self)
        ensures
            r == (RunnerSettings { failure_policy, ..self }),
    {
        RunnerSettings { failure_policy, ..self }
    }

    /// Capture recent browser-driver output; the config is resolved now, with `flag_value`
    /// and `tail_value` the values of the two driver-output variables.
    pub fn with_driver_output(
        self,
        config: DriverOutputConfig,
        flag_value: Option<&str>,
        tail_value: Option<&str>,
    ) -> (r: Self)
        ensures
            is_resolved_count(
                r.driver_output,
                config.requested_count(opt_str_view(flag_value), opt_str_view(tail_value)),
            ),
            r == (RunnerSettings { driver_output: r.driver_output, ..self }),
    {
        let driver_output = browser_driver_output_setting(config, flag_value, tail_value);
        RunnerSettings { driver_output, ..self }
    }

    /// Former name of [`Self::with_driver_output`].
    pub fn with_browser_driver_output(
        self,
        config: DriverOutputConfig,
        flag_value: Option<&str>,
        tail_value: Option<&str>,
    ) -> (r: Self)
        ensures
            is_resolved_count(
                r.driver_output,
                config.requested_count(opt_str_view(flag_value), opt_str_view(tail_value)),
            ),
            r == (RunnerSettings { driver_output: r.driver_output, ..self }),
    {
        self.with_driver_output(config, flag_value, tail_value)
    }

    /// A fresh, empty output capture for one run, when capture is enabled.
    pub fn driver_output_capture_for_run(&self) -> (r: Option<DriverOutputCapture>)
        ensures
            r is Some <==> self.driver_output is TailLines,
            r matches Some(c) ==> c.wf() && c.seen() == Seq::<
                crate::driver_output::CapturedLine,
            >::empty() && (self.driver_output matches ResolvedDriverOutputConfig::TailLines(n)
                && c.capacity() == n.view_value()),
    {
        match self.driver_output {
            ResolvedDriverOutputConfig::Disabled => None,
            ResolvedDriverOutputConfig::TailLines(n) => Some(DriverOutputCapture::new(n)),
        }
    }
}

/// Which part of a run an error comes from.
#[derive(Debug, PartialEq, Eq)]
pub enum RunErrorSource {
    /// The pause dialogue failed with this error context.
    Pause(BrowserTestError),
    /// The driver could not be started.
    StartDriver,
    /// The tests failed; their report is the error.
    Tests,
    /// The driver could not be terminated.
    TerminateDriver,
}

/// How a failed run is reported.
#[derive(Debug, PartialEq, Eq)]
pub struct RunFailure {
    /// The error the run returns.
    pub source: RunErrorSource,
    /// Whether the driver-termination error is added as a child of the tests' report.
    pub termination_child: bool,
    /// Whether recent driver output is attached to the error.
    pub attach_driver_output: bool,
}

/// How a run ends.
#[derive(Debug, PartialEq, Eq)]
pub enum RunResult {
    /// The run succeeded (also when there was nothing to run or the pause was aborted).
    Succeeded,
    /// The run failed.
    Failed(RunFailure),
}

impl Clone for RunErrorSource {
    fn clone(&self) -> (r: Self)
        ensures
            r == *self,
    {
        match self {
            RunErrorSource::Pause(e) => RunErrorSource::Pause(e.clone()),
            RunErrorSource::StartDriver => RunErrorSource::StartDriver,
            RunErrorSource::Tests => RunErrorSource::Tests,
            RunErrorSource::TerminateDriver => RunErrorSource::TerminateDriver,
        }
    }
}

impl Clone for RunFailure {
    fn clone(&self) -> (r: Self)
        ensures
            r == *self,
    {
        RunFailure {
            source: self.source.clone(),
            termination_child: self.termination_child,
            attach_driver_output: self.attach_driver_output,
        }
    }
}

impl Clone for RunResult {
    fn clone(&self) -> (r: Self)
        ensures
            r == *self,
    {
        match self {
            RunResult::Succeeded => RunResult::Succeeded,
            RunResult::Failed(f) => RunResult::Failed(f.clone()),
        }
    }
}

/// Where a run stands.
#[derive(Debug, Clone, PartialEq, Eq)]
pub enum RunPhase {
    /// Waiting for the pause dialogue.
    Pausing,
    /// Waiting for the driver to start.
    StartingDriver,
    /// Waiting for the tests to finish.
    RunningTests,
    /// Waiting for the driver to terminate; whether the tests failed.
    Terminating(bool),
    /// Over, with this result.
    Over(RunResult),
}

/// The next piece of outside work a run asks for.
#[derive(Debug, Clone, PartialEq, Eq)]
pub enum RunStep {
    /// Hold the pause dialogue.
    Pause,
    /// Start the driver.
    StartDriver,
    /// Run the tests against the started driver.
    RunTests,
    /// Terminate the driver.
    TerminateDriver,
    /// The run is over.
    Finish(RunResult),
}

/// What happened when the last requested piece of work was done.
#[derive(Debug, Clone, PartialEq, Eq)]
pub enum RunEvent {
    /// The pause dialogue ended.
    PauseEnded(PauseOutcome),
    /// The driver started.
    DriverStarted,
    /// The driver failed to start.
    DriverStartFailed,
    /// The tests finished; whether they all passed.
    TestsFinished(bool),
    /// The driver terminated.
    DriverTerminated,
    /// The driver failed to terminate.
    DriverTerminationFailed,
}

/// The life cycle of one run.
pub struct RunLifecycle {
    phase: RunPhase,
}

/// The failure a run reports for the error of one of its parts.
pub open spec fn failure(source: RunErrorSource, termination_child: bool, attach: bool) -> RunResult {
    RunResult::Failed(RunFailure { source, termination_child, attach_driver_output: attach })
}

/// The phase that follows `phase` after `event`; an event that does not belong to the phase
/// leaves it unchanged.
pub open spec fn next_run_phase(phase: RunPhase, event: RunEvent) -> RunPhase {
    match phase {
        RunPhase::Pausing => match event {
            RunEvent::PauseEnded(PauseOutcome::Decided(PauseDecision::Continue)) => RunPhase::StartingDriver,
            RunEvent::PauseEnded(PauseOutcome::Decided(PauseDecision::Abort)) => RunPhase::Over(RunResult::Succeeded),
            RunEvent::PauseEnded(o) => RunPhase::Over(
                failure(RunErrorSource::Pause(o.error_spec().unwrap()), false, false),
            ),
            _ => phase,
        },
        RunPhase::StartingDriver => match event {
            RunEvent::DriverStarted => RunPhase::RunningTests,
            RunEvent::DriverStartFailed => RunPhase::Over(
                failure(RunErrorSource::StartDriver, false, true),
            ),
            _ => phase,
        },
        RunPhase::RunningTests => match event {
            RunEvent::TestsFinished(passed) => RunPhase::Terminating(!passed),
            _ => phase,
        },
        RunPhase::Terminating(tests_failed) => match event {
            RunEvent::DriverTerminated => if tests_failed {
                RunPhase::Over(failure(RunErrorSource::Tests, false, true))
            } else {
                RunPhase::Over(RunResult::Succeeded)
            },
            RunEvent::DriverTerminationFailed => if tests_failed {
                RunPhase::Over(failure(RunErrorSource::Tests, true, true))
            } else {
                RunPhase::Over(failure(RunErrorSource::TerminateDriver, false, true))
            },
            _ => phase,
        },
        RunPhase::Over(_) => phase,
    }
}

impl RunLifecycle {
    /// Where the run stands.
    pub closed spec fn phase(&self) -> RunPhase {
        self.phase
    }

    /// A run of `test_count` tests: with no tests it is over at once, successfully, without a
    /// pause or a driver; otherwise it begins with the pause when one is enabled, else with
    /// the driver start.
    pub fn new(test_count: usize, pause_enabled: bool) -> (r: Self)
        ensures
            r.phase() == (if test_count == 0 {
                RunPhase::Over(RunResult::Succeeded)
            } else if pause_enabled {
                RunPhase::Pausing
            } else {
                RunPhase::StartingDriver
            }),
    {
        let phase = if test_count == 0 {
            RunPhase::Over(RunResult::Succeeded)
        } else if pause_enabled {
            RunPhase::Pausing
        } else {
            RunPhase::StartingDriver
        };
        RunLifecycle { phase }
    }

    /// The work that the current phase asks for.
    pub fn next_step(&self) -> (r: RunStep)
        ensures
            r == (match self.phase() {
                RunPhase::Pausing => RunStep::Pause,
                RunPhase::StartingDriver => RunStep::StartDriver,
                RunPhase::RunningTests => RunStep::RunTests,
                RunPhase::Terminating(_) => RunStep::TerminateDriver,
                RunPhase::Over(result) => RunStep::Finish(result),
            }),
    {
        match &self.phase {
            RunPhase::Pausing => RunStep::Pause,
            RunPhase::StartingDriver => RunStep::StartDriver,
            RunPhase::RunningTests => RunStep::RunTests,
            RunPhase::Terminating(_) => RunStep::TerminateDriver,
            RunPhase::Over(result) => RunStep::Finish(result.clone()),
        }
    }

    /// Records what happened when the work of the current phase was done, and moves on.
    pub fn record(&mut self, event: RunEvent)
        ensures
            final(self).phase() == next_run_phase(old(self).phase(), event),
    {
        let next = match &self.phase {
            RunPhase::Pausing => match event {
                RunEvent::PauseEnded(o) => match o {
                    PauseOutcome::Decided(PauseDecision::Continue) => RunPhase::StartingDriver,
                    PauseOutcome::Decided(PauseDecision::Abort) => RunPhase::Over(
                        RunResult::Succeeded,
                    ),
                    _ => {
                        let e = match o.error() {
                            Some(e) => e,
                            None => BrowserTestError::ReadPauseResponse,
                        };
                        RunPhase::Over(
                            RunResult::Failed(
                                RunFailure {
                                    source: RunErrorSource::Pause(e),
                                    termination_child: false,
                                    attach_driver_output: false,
                                },
                            ),
                        )
                    },
                },
                _ => RunPhase::Pausing,
            },
            RunPhase::StartingDriver => match event {
                RunEvent::DriverStarted => RunPhase::RunningTests,
                RunEvent::DriverStartFailed => RunPhase::Over(
                    RunResult::Failed(
                        RunFailure {
                            source: RunErrorSource::StartDriver,
                            termination_child: false,
                            attach_driver_output: true,
                        },
                    ),
                ),
                _ => RunPhase::StartingDriver,
            },
            RunPhase::RunningTests => match event {
                RunEvent::TestsFinished(passed) => RunPhase::Terminating(!passed),
                _ => RunPhase::RunningTests,
            },
            RunPhase::Terminating(tests_failed) => {
                let tests_failed = *tests_failed;
                match event {
                    RunEvent::DriverTerminated => if tests_failed {
                        RunPhase::Over(
                            RunResult::Failed(
                                RunFailure {
                                    source: RunErrorSource::Tests,
                                    termination_child: false,
                                    attach_driver_output: true,
                                },
                            ),
                        )
                    } else {
                        RunPhase::Over(RunResult::Succeeded)
                    },
                    RunEvent::DriverTerminationFailed => if tests_failed {
                        RunPhase::Over(
                            RunResult::Failed(
                                RunFailure {
                                    source: RunErrorSource::Tests,
                                    termination_child: true,
                                    attach_driver_output: true,
                                },
                            ),
                        )
                    } else {
                        RunPhase::Over(
                            RunResult::Failed(
                                RunFailure {
                                    source: RunErrorSource::TerminateDriver,
                                    termination_child: false,
                                    attach_driver_output: true,
                                },
                            ),
                        )
                    },
                    _ => RunPhase::Terminating(tests_failed),
                }
            },
            RunPhase::Over(result) => RunPhase::Over(result.clone()),
        };
        self.phase = next;
    }
}

/// Once the driver has started, the run cannot end before the driver is terminated: from the
/// test phase the only way forward is the termination phase, and the termination phase ends
/// the run only on a termination event.
pub proof fn lemma_started_driver_is_terminated(event: RunEvent, tests_failed: bool)
    ensures
        next_run_phase(RunPhase::RunningTests, event) == RunPhase::RunningTests
            || next_run_phase(RunPhase::RunningTests, event) is Terminating,
        next_run_phase(RunPhase::Terminating(tests_failed), event) is Over ==> (event
            is DriverTerminated || event is DriverTerminationFailed),
{
}

/// When both the tests and the driver's termination fail, the tests' failure is reported, with
/// the termination failure as a child; a termination failure after passing tests is reported
/// on its own; recent driver output goes with both.
pub proof fn lemma_termination_failure_merge(tests_failed: bool)
    ensures
        next_run_phase(RunPhase::Terminating(tests_failed), RunEvent::DriverTerminationFailed)
            == RunPhase::Over(
            if tests_failed {
                failure(RunErrorSource::Tests, true, true)
            } else {
                failure(RunErrorSource::TerminateDriver, false, true)
            },
        ),
{
}

/// The phase a run reaches from `phase` after the events `events`, in order.
pub open spec fn phase_after(phase: RunPhase, events: Seq<RunEvent>) -> RunPhase
    decreases events.len(),
{
    if events.len() == 0 {
        phase
    } else {
        next_run_phase(phase_after(phase, events.drop_last()), events.last())
    }
}

/// A run whose tests failed never ends successfully. Tests that finish with a failure lead to
/// the termination phase, and from there, whatever events follow, the run either still waits
/// for the driver's termination or is over with the tests' failure, recent driver output
/// attached; a clean termination reports exactly the tests' failure.
pub proof fn lemma_failed_tests_never_succeed(events: Seq<RunEvent>)
    ensures
        next_run_phase(RunPhase::RunningTests, RunEvent::TestsFinished(false))
            == RunPhase::Terminating(true),
        phase_after(RunPhase::Terminating(true), events) == RunPhase::Terminating(true) || (
        phase_after(RunPhase::Terminating(true), events) matches RunPhase::Over(
            RunResult::Failed(f),
        ) && f.source == RunErrorSource::Tests && f.attach_driver_output),
        phase_after(RunPhase::Terminating(true), events) != RunPhase::Over(RunResult::Succeeded),
        next_run_phase(RunPhase::Terminating(true), RunEvent::DriverTerminated) == RunPhase::Over(
            RunResult::Failed(
                (RunFailure {
                    source: RunErrorSource::Tests,
                    termination_child: false,
                    attach_driver_output: true,
                }),
            ),
        ),
    decreases events.len(),
{
    if events.len() > 0 {
        lemma_failed_tests_never_succeed(events.drop_last());
    }
}

/// A run succeeds only when its tests passed: the termination phase ends the run successfully
/// only after passing tests and a clean termination.
pub proof fn lemma_success_needs_passing_tests(tests_failed: bool, event: RunEvent)
    ensures
        next_run_phase(RunPhase::Terminating(tests_failed), event) == RunPhase::Over(
            RunResult::Succeeded,
        ) <==> (!tests_failed && event is DriverTerminated),
{
}

/// A run ends successfully only in two ways: the user aborts at the pause, before the driver
/// is started, or the tests pass and the driver terminates cleanly. A driver that fails to
/// start fails the run with the start error, and a pause dialogue that fails fails the run
/// with the dialogue's error, without driver output (no driver was started).
pub proof fn lemma_success_paths(phase: RunPhase, event: RunEvent)
    ensures
        !(phase is Over) && next_run_phase(phase, event) == RunPhase::Over(RunResult::Succeeded)
            ==> (phase == RunPhase::Pausing && event == RunEvent::PauseEnded(
            PauseOutcome::Decided(PauseDecision::Abort),
        )) || (phase == RunPhase::Terminating(false) && event == RunEvent::DriverTerminated),
        next_run_phase(RunPhase::StartingDriver, RunEvent::DriverStartFailed) == RunPhase::Over(
            RunResult::Failed(
                (RunFailure {
                    source: RunErrorSource::StartDriver,
                    termination_child: false,
                    attach_driver_output: true,
                }),
            ),
        ),
        next_run_phase(RunPhase::Pausing, RunEvent::PauseEnded(PauseOutcome::WriteFailed))
            == RunPhase::Over(
            RunResult::Failed(
                (RunFailure {
                    source: RunErrorSource::Pause(BrowserTestError::FlushPausePrompt),
                    termination_child: false,
                    attach_driver_output: false,
                }),
            ),
        ),
        next_run_phase(RunPhase::Pausing, RunEvent::PauseEnded(PauseOutcome::ReadFailed))
            == RunPhase::Over(
            RunResult::Failed(
                (RunFailure {
                    source: RunErrorSource::Pause(BrowserTestError::ReadPauseResponse),
                    termination_child: false,
                    attach_driver_output: false,
                }),
            ),
        ),
        next_run_phase(RunPhase::Pausing, RunEvent::PauseEnded(PauseOutcome::EndOfInput))
            == RunPhase::Over(
            RunResult::Failed(
                (RunFailure {
                    source: RunErrorSource::Pause(BrowserTestError::ReadPauseResponse),
                    termination_child: false,
                    attach_driver_output: false,
                }),
            ),
        ),
        next_run_phase(
            RunPhase::Pausing,
            RunEvent::PauseEnded(PauseOutcome::Decided(PauseDecision::Continue)),
        ) == RunPhase::StartingDriver,
{
}

/// A run aborted at the pause ends successfully without starting the driver.
pub proof fn lemma_aborted_pause_succeeds_without_driver()
    ensures
        next_run_phase(
            RunPhase::Pausing,
            RunEvent::PauseEnded(PauseOutcome::Decided(PauseDecision::Abort)),
        ) == RunPhase::Over(RunResult::Succeeded),
{
}

} // verus!
