//! Error contexts reported by runner operations.
use crate::text::{decimal, push_decimal};
use vstd::prelude::*;
use vstd::string::*;

verus! {

/// Error contexts reported by browser-test runner operations.
#[derive(Debug, PartialEq, Eq)]
pub enum BrowserTestError {
    /// Chromedriver could not be started.
    StartWebdriver,
    /// A browser test failed while running in its `WebDriver` session.
    RunTest {
        /// The name the test reported.
        test_name: String,
    },
    /// A browser test panicked while running in its `WebDriver` session.
    Panic {
        /// The name the test reported.
        test_name: String,
        /// A string representation of the panic payload.
        message: String,
    },
    /// Several browser tests failed or panicked and were collected into one report.
    RunTests {
        /// Number of failed or panicked tests collected as child reports.
        failed_tests: usize,
    },
    /// Chromedriver could not be terminated cleanly.
    TerminateWebdriver,
    /// The pause prompt could not be written to stdout.
    FlushPausePrompt,
    /// The pause response could not be read from stdin.
    ReadPauseResponse,
}

impl Clone for BrowserTestError {
    fn clone(&self) -> (r: Self)
        ensures
            r == *self,
    {
        match self {
            BrowserTestError::StartWebdriver => BrowserTestError::StartWebdriver,
            BrowserTestError::RunTest { test_name } => BrowserTestError::RunTest {
                test_name: test_name.clone(),
            },
            BrowserTestError::Panic { test_name, message } => BrowserTestError::Panic {
                test_name: test_name.clone(),
                message: message.clone(),
            },
            BrowserTestError::RunTests { failed_tests } => BrowserTestError::RunTests {
                failed_tests: *failed_tests,
            },
            BrowserTestError::TerminateWebdriver => BrowserTestError::TerminateWebdriver,
            BrowserTestError::FlushPausePrompt => BrowserTestError::FlushPausePrompt,
            BrowserTestError::ReadPauseResponse => BrowserTestError::ReadPauseResponse,
        }
    }
}

impl BrowserTestError {
    /// The human-readable message of this error.
    pub open spec fn display_text(&self) -> Seq<char> {
        match self {
            BrowserTestError::StartWebdriver => "Failed to start webdriver."@,
            BrowserTestError::RunTest { test_name } => "Browser test '"@ + test_name@
                + "' failed."@,
            BrowserTestError::Panic { test_name, message } => "Browser test '"@ + test_name@
                + "' panicked: "@ + message@,
            BrowserTestError::RunTests { failed_tests } => "One or more browser tests failed or panicked ("@
                + decimal(*failed_tests as nat) + " failed)."@,
            BrowserTestError::TerminateWebdriver => "Failed to terminate chromedriver."@,
            BrowserTestError::FlushPausePrompt => "Failed to flush pause prompt."@,
            BrowserTestError::ReadPauseResponse => "Failed to read pause response from stdin."@,
        }
    }

    /// The human-readable message of this error (what its `Display` form shows).
    pub fn to_display_string(&self) -> (r: String)
        ensures
            r@ == self.display_text(),
    {
        match self {
            BrowserTestError::StartWebdriver => String::from_str("Failed to start webdriver."),
            BrowserTestError::RunTest { test_name } => {
                let mut s = String::from_str("Browser test '");
                s.append(test_name.as_str());
                s.append("' failed.");
                s
            },
            BrowserTestError::Panic { test_name, message } => {
                let mut s = String::from_str("Browser test '");
                s.append(test_name.as_str());
                s.append("' panicked: ");
                s.append(message.as_str());
                s
            },
            BrowserTestError::RunTests { failed_tests } => {
                let mut s = String::from_str("One or more browser tests failed or panicked (");
                push_decimal(&mut s, *failed_tests as u64);
                s.append(" failed).");
                s
            },
            BrowserTestError::TerminateWebdriver => String::from_str(
                "Failed to terminate chromedriver.",
            ),
            BrowserTestError::FlushPausePrompt => String::from_str("Failed to flush pause prompt."),
            BrowserTestError::ReadPauseResponse => String::from_str(
                "Failed to read pause response from stdin.",
            ),
        }
    }
}

} // verus!
