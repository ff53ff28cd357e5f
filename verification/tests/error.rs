use browser_test::{BrowserTestError, ElementQueryWaitConfigError};

#[test]
fn run_test_error_displays_plain_test_name() {
    let err = BrowserTestError::RunTest {
        test_name: "login".to_owned(),
    };

    assert_eq!(err.to_display_string(), "Browser test 'login' failed.");
}

#[test]
fn run_tests_error_displays_failure_count() {
    let err = BrowserTestError::RunTests { failed_tests: 2 };

    assert_eq!(
        err.to_display_string(),
        "One or more browser tests failed or panicked (2 failed)."
    );
}

#[test]
fn panic_error_displays_test_name_and_message() {
    let err = BrowserTestError::Panic {
        test_name: "login".to_owned(),
        message: "assertion failed".to_owned(),
    };

    assert_eq!(
        err.to_display_string(),
        "Browser test 'login' panicked: assertion failed"
    );
}

#[test]
fn unit_errors_display_their_messages() {
    assert_eq!(
        BrowserTestError::StartWebdriver.to_display_string(),
        "Failed to start webdriver."
    );
    assert_eq!(
        BrowserTestError::TerminateWebdriver.to_display_string(),
        "Failed to terminate chromedriver."
    );
    assert_eq!(
        BrowserTestError::FlushPausePrompt.to_display_string(),
        "Failed to flush pause prompt."
    );
    assert_eq!(
        BrowserTestError::ReadPauseResponse.to_display_string(),
        "Failed to read pause response from stdin."
    );
    assert_eq!(
        BrowserTestError::RunTests { failed_tests: 1230 }.to_display_string(),
        "One or more browser tests failed or panicked (1230 failed)."
    );
    assert_eq!(
        ElementQueryWaitConfigError::ZeroInterval.to_display_string(),
        "Element query wait poll interval must be non-zero."
    );
}
