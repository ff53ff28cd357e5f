use std::time::Duration;

use browser_test::{
    execution_error, panic_payload_message, reported_test_name, resolve_element_query_wait,
    resolve_webdriver_timeouts, BrowserTestError, BrowserTimeouts, ElementQueryWaitConfig,
    TestFailure,
};

fn runner_timeouts() -> BrowserTimeouts {
    BrowserTimeouts::builder()
        .script_timeout(Duration::from_secs(10))
        .page_load_timeout(Duration::from_secs(10))
        .implicit_wait_timeout(Duration::from_secs(10))
        .build()
}

#[test]
fn execution_uses_test_override_before_runner_default() {
    let test_timeouts = BrowserTimeouts::builder()
        .script_timeout(Duration::from_secs(5))
        .page_load_timeout(Duration::from_secs(5))
        .implicit_wait_timeout(Duration::from_secs(5))
        .build();

    let resolved = resolve_webdriver_timeouts(Some(test_timeouts), Some(runner_timeouts()));

    assert_eq!(resolved, Some(test_timeouts));

    let runner_wait = ElementQueryWaitConfig::builder()
        .timeout(Duration::from_secs(10))
        .interval(Duration::from_secs(1))
        .build();
    let test_wait = ElementQueryWaitConfig::builder()
        .timeout(Duration::from_secs(5))
        .interval(Duration::from_millis(500))
        .build();

    let resolved = resolve_element_query_wait(Some(test_wait), Some(runner_wait));

    assert_eq!(resolved, Some(test_wait));
}

#[test]
fn execution_falls_back_to_runner_default() {
    let resolved = resolve_webdriver_timeouts(None, Some(runner_timeouts()));

    assert_eq!(resolved, Some(runner_timeouts()));

    let runner_wait = ElementQueryWaitConfig::builder()
        .timeout(Duration::from_secs(10))
        .interval(Duration::from_millis(500))
        .build();

    let resolved = resolve_element_query_wait(None, Some(runner_wait));

    assert_eq!(resolved, Some(runner_wait));
}

#[test]
fn execution_preserves_unconfigured_default() {
    assert_eq!(resolve_webdriver_timeouts(None, None), None);
    assert_eq!(resolve_element_query_wait(None, None), None);
}

#[test]
fn handles_common_payload_types() {
    let owned = "owned".to_owned();
    assert_eq!(panic_payload_message(Some("static"), None), "static");
    assert_eq!(panic_payload_message(None, Some(&owned)), "owned");
    assert_eq!(panic_payload_message(None, None), "<non-string panic payload>");
}

#[test]
fn unnamed_tests_are_reported_by_index() {
    assert_eq!(reported_test_name(None, 0), "unnamed test at index 0");
    assert_eq!(reported_test_name(None, 17), "unnamed test at index 17");
    assert_eq!(reported_test_name(Some("login".to_owned()), 3), "login");
}

#[test]
fn failures_and_panics_get_their_error_contexts() {
    assert_eq!(
        execution_error("login".to_owned(), TestFailure::Failed),
        BrowserTestError::RunTest {
            test_name: "login".to_owned()
        }
    );
    assert_eq!(
        execution_error("login".to_owned(), TestFailure::Panicked("boom".to_owned())),
        BrowserTestError::Panic {
            test_name: "login".to_owned(),
            message: "boom".to_owned()
        }
    );
}
