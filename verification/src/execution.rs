//! Per-test decisions of an execution: which timeouts and waits apply, how a test is named in
//! failure reports, and what a panic payload reads as.
use crate::error::BrowserTestError;
use crate::text::{decimal, push_decimal};
use crate::timeout::BrowserTimeouts;
use crate::wait::ElementQueryWaitConfig;
use vstd::prelude::*;
use vstd::string::*;

verus! {

/// The timeouts applied to a test's session: the test's own, else the runner's default.
pub fn resolve_webdriver_timeouts(
    test_timeouts: Option<BrowserTimeouts>,
    runner_timeouts: Option<BrowserTimeouts>,
) -> (r: Option<BrowserTimeouts>)
    ensures
        r == (if test_timeouts is Some {
            test_timeouts
        } else {
            runner_timeouts
        }),
{
    match test_timeouts {
        Some(t) => Some(t),
        None => runner_timeouts,
    }
}

/// The element-query wait applied to a test's session: the test's own, else the runner's
/// default.
pub fn resolve_element_query_wait(
    test_wait: Option<ElementQueryWaitConfig>,
    runner_wait: Option<ElementQueryWaitConfig>,
) -> (r: Option<ElementQueryWaitConfig>)
    ensures
        r == (if test_wait is Some {
            test_wait
        } else {
            runner_wait
        }),
{
    match test_wait {
        Some(w) => Some(w),
        None => runner_wait,
    }
}

/// The text of a panic payload: the payload itself when it is a `&'static str` (`static_str`)
/// or a `String` (`owned`), in that order of preference, else a placeholder.
pub open spec fn panic_message_text(static_str: Option<Seq<char>>, owned: Option<Seq<char>>) -> Seq<char> {
    match static_str {
        Some(m) => m,
        None => match owned {
            Some(m) => m,
            None => "<non-string panic payload>"@,
        },
    }
}

/// The message reported for a panic, given what the payload holds when read as a string slice
/// and when read as a `String`.
pub fn panic_payload_message(static_str: Option<&str>, owned: Option<&String>) -> (r: String)
    ensures
        r@ == panic_message_text(
            match static_str {
                Some(m) => Some(m@),
                None => None,
            },
            match owned {
                Some(m) => Some(m@),
                None => None,
            },
        ),
{
    match static_str {
        Some(m) => String::from_str(m),
        None => match owned {
            Some(m) => m.clone(),
            None => String::from_str("<non-string panic payload>"),
        },
    }
}

/// The name under which a test is reported when its own name could not be obtained.
pub open spec fn fallback_test_name_text(test_index: nat) -> Seq<char> {
    "unnamed test at index "@ + decimal(test_index)
}

/// The name reported for the test at `test_index`: the name it gave, or a name made from its
/// position when asking for the name failed.
pub fn reported_test_name(name: Option<String>, test_index: usize) -> (r: String)
    ensures
        r@ == (match name {
            Some(n) => n@,
            None => fallback_test_name_text(test_index as nat),
        }),
{
    match name {
        Some(n) => n,
        None => {
            let mut s = String::from_str("unnamed test at index ");
            push_decimal(&mut s, test_index as u64);
            s
        },
    }
}

/// How a test execution failed.
#[derive(Debug, Clone, PartialEq, Eq)]
pub enum TestFailure {
    /// The test (or its session) returned an error.
    Failed,
    /// The test panicked, with this message.
    Panicked(String),
}

/// The error context reported for a failed test execution.
pub fn execution_error(test_name: String, failure: TestFailure) -> (r: BrowserTestError)
    ensures
        r == (match failure {
            TestFailure::Failed => BrowserTestError::RunTest { test_name },
            TestFailure::Panicked(message) => BrowserTestError::Panic { test_name, message },
        }),
{
    match failure {
        TestFailure::Failed => BrowserTestError::RunTest { test_name },
        TestFailure::Panicked(message) => BrowserTestError::Panic { test_name, message },
    }
}

} // verus!
