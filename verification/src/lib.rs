//! Configuration, scheduling and reporting logic of a browser-test runner.
//!
//! The library decides everything a run of browser tests depends on: how environment flags and
//! configuration resolve, which test starts when and which failures a run reports, how the
//! manual pause dialogue proceeds, how a run moves from pause to driver start, tests and driver
//! termination, and how captured driver output is kept and shown. The asynchronous work (the
//! terminal, the browser driver, the `WebDriver` sessions) is performed by its caller, which
//! reports back what happened.

mod driver_output;
mod env;
mod error;
mod execution;
mod pause;
mod primitives;
mod runner;
mod scheduler;
mod text;
mod timeout;
mod wait;

pub use driver_output::{
    driver_output_attachment, driver_output_text, env_requested_count, env_tail_line_count,
    is_resolved_count, last_lines, lemma_header_counts_shown_lines, lemma_lines_shown_in_order,
    lemma_resolve_from_resolved_round_trip, line_text, lines_text,
    opt_str_view, render_driver_output, source_label, source_label_text, BrowserDriverOutputConfig,
    CapturedLine, DriverOutputCapture, DriverOutputConfig, DriverOutputSnapshot,
    DriverOutputSource, ResolvedDriverOutputConfig, DEFAULT_BROWSER_DRIVER_OUTPUT_ENV,
    DEFAULT_BROWSER_DRIVER_OUTPUT_TAIL_LINES, DEFAULT_BROWSER_DRIVER_OUTPUT_TAIL_LINES_ENV,
};
pub use env::{
    env_flag_enabled, env_flag_value_enabled, is_enabled_word, lemma_flag_ignores_line_ending,
    lemma_flag_words,
};
pub use error::BrowserTestError;
pub use execution::{
    execution_error, fallback_test_name_text, panic_message_text, panic_payload_message,
    reported_test_name, resolve_element_query_wait, resolve_webdriver_timeouts, TestFailure,
};
pub use pause::{
    answer_decision, classify_pause_answer, default_pause_message, default_pause_prompt,
    lemma_answer_ignores_line_ending, lemma_answer_words,
    lemma_blank_answer_aborts, lemma_from_resolved_round_trip, reminder_text, PauseActivation, PauseConfig, PauseDecision,
    PauseDialog, PauseEvent, PauseOutcome, PausePhase, PauseStep, ResolvedPauseConfig,
    DEFAULT_PAUSE_ENV,
};
pub use primitives::{duration_spans_no_time, NonZeroCount};
pub use runner::{
    browser_driver_output_setting, failure, lemma_aborted_pause_succeeds_without_driver,
    lemma_failed_tests_never_succeed, lemma_success_needs_passing_tests, lemma_success_paths,
    phase_after,
    lemma_started_driver_is_terminated, lemma_termination_failure_merge, next_run_phase,
    BrowserTestVisibility, RunErrorSource, RunEvent, RunFailure, RunLifecycle, RunPhase,
    RunResult, RunStep, RunnerSettings, DEFAULT_VISIBLE_ENV,
};
pub use scheduler::{
    collected_failures_error, count_state, failed_indices, failed_prefix,
    lemma_failed_indices_exact, lemma_parallel_one_is_sequential, BrowserTestFailurePolicy,
    BrowserTestParallelism, RunOutcome, RunOutcomeView, SchedulerAction, TestScheduler, TestState,
};
pub use text::{
    ascii_lower, decimal, is_white_space, lemma_ascii_white_space, lemma_trim_ignores_line_ending,
    lemma_non_ascii_white_space, lemma_trim_ignores_trailing_white_space,
    lemma_trimmed_removes_only_white_space, normalized, parse_usize, trim_end_index,
    trim_start_index, trimmed,
};
pub use timeout::{thirtyfour_timeout_configuration, BrowserTimeouts, BrowserTimeoutsBuilder};
pub use wait::{ElementQueryWaitConfig, ElementQueryWaitConfigBuilder, ElementQueryWaitConfigError};
