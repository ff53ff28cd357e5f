//! `WebDriver` timeouts applied to a session before a browser test runs.
use std::time::Duration;
use thirtyfour::TimeoutConfiguration;
use vstd::prelude::*;

verus! {

/// `thirtyfour`'s session timeout configuration, carried opaquely.
#[verifier::external_type_specification]
#[verifier::external_body]
pub struct ExTimeoutConfiguration(TimeoutConfiguration);

/// The configuration that `TimeoutConfiguration::new` builds from the three timeouts.
pub uninterp spec fn thirtyfour_timeout_configuration(
    script: Option<Duration>,
    page_load: Option<Duration>,
    implicit: Option<Duration>,
) -> TimeoutConfiguration;

/// Calls `thirtyfour::TimeoutConfiguration::new`, a plain constructor whose result depends on
/// its three arguments only (it stores each timeout as whole milliseconds).
#[verifier::external_body]
fn timeout_configuration_new(
    script: Option<Duration>,
    page_load: Option<Duration>,
    implicit: Option<Duration>,
) -> (r: TimeoutConfiguration)
    ensures
        r == thirtyfour_timeout_configuration(script, page_load, implicit),
{
    TimeoutConfiguration::new(script, page_load, implicit)
}

/// `WebDriver` timeout configuration applied before running a browser test.
///
/// A timeout left unset means the runner does not update that timeout on the session.
#[derive(Debug, Clone, Copy, PartialEq, Eq, Hash)]
pub struct BrowserTimeouts {
    script_timeout: Option<Duration>,
    page_load_timeout: Option<Duration>,
    implicit_wait_timeout: Option<Duration>,
}

impl BrowserTimeouts {
    /// Maximum time `WebDriver` waits for asynchronous script execution, if set.
    pub closed spec fn script(self) -> Option<Duration> {
        self.script_timeout
    }

    /// Maximum time `WebDriver` waits for page navigation to finish loading, if set.
    pub closed spec fn page_load(self) -> Option<Duration> {
        self.page_load_timeout
    }

    /// Maximum time `WebDriver` waits while locating elements, if set.
    pub closed spec fn implicit_wait(self) -> Option<Duration> {
        self.implicit_wait_timeout
    }

    /// Timeouts with the three given values.
    pub fn new(
        script_timeout: Option<Duration>,
        page_load_timeout: Option<Duration>,
        implicit_wait_timeout: Option<Duration>,
    ) -> (r: Self)
        ensures
            r.script() == script_timeout,
            r.page_load() == page_load_timeout,
            r.implicit_wait() == implicit_wait_timeout,
    {
        BrowserTimeouts { script_timeout, page_load_timeout, implicit_wait_timeout }
    }

    /// A builder with every timeout unset.
    pub fn builder() -> (r: BrowserTimeoutsBuilder)
        ensures
            r.script_timeout is None,
            r.page_load_timeout is None,
            r.implicit_wait_timeout is None,
    {
        BrowserTimeoutsBuilder {
            script_timeout: None,
            page_load_timeout: None,
            implicit_wait_timeout: None,
        }
    }

    /// Maximum time `WebDriver` waits for asynchronous script execution; `None` means this
    /// timeout is not updated.
    pub fn script_timeout(self) -> (r: Option<Duration>)
        ensures
            r == self.script(),
    {
        self.script_timeout
    }

    /// Maximum time `WebDriver` waits for page navigation to finish loading; `None` means this
    /// timeout is not updated.
    pub fn page_load_timeout(self) -> (r: Option<Duration>)
        ensures
            r == self.page_load(),
    {
        self.page_load_timeout
    }

    /// Maximum time `WebDriver` waits while locating elements through raw element lookup
    /// commands; `None` means this timeout is not updated.
    pub fn implicit_wait_timeout(self) -> (r: Option<Duration>)
        ensures
            r == self.implicit_wait(),
    {
        self.implicit_wait_timeout
    }

    /// The `thirtyfour` session timeout configuration with the same three timeouts.
    pub fn into_thirtyfour_timeout_configuration(self) -> (r: TimeoutConfiguration)
        ensures
            r == thirtyfour_timeout_configuration(
                self.script(),
                self.page_load(),
                self.implicit_wait(),
            ),
    {
        timeout_configuration_new(
            self.script_timeout,
            self.page_load_timeout,
            self.implicit_wait_timeout,
        )
    }
}

impl Default for BrowserTimeouts {
    fn default() -> (r: Self)
        ensures
            r.script() is None,
            r.page_load() is None,
            r.implicit_wait() is None,
    {
        BrowserTimeouts { script_timeout: None, page_load_timeout: None, implicit_wait_timeout: None }
    }
}

/// Builder for [`BrowserTimeouts`]; every timeout starts unset.
#[derive(Debug, Clone, Copy)]
pub struct BrowserTimeoutsBuilder {
    /// The script timeout to build with.
    pub script_timeout: Option<Duration>,
    /// The page-load timeout to build with.
    pub page_load_timeout: Option<Duration>,
    /// The implicit wait timeout to build with.
    pub implicit_wait_timeout: Option<Duration>,
}

impl BrowserTimeoutsBuilder {
    /// Set the script timeout.
    pub fn script_timeout(self, timeout: Duration) -> (r: Self)
        ensures
            r == (BrowserTimeoutsBuilder { script_timeout: Some(timeout), ..self }),
    {
        BrowserTimeoutsBuilder { script_timeout: Some(timeout), ..self }
    }

    /// Set or clear the script timeout.
    pub fn script_timeout_opt(self, timeout: Option<Duration>) -> (r: Self)
        ensures
            r == (BrowserTimeoutsBuilder { script_timeout: timeout, ..self }),
    {
        BrowserTimeoutsBuilder { script_timeout: timeout, ..self }
    }

    /// Set the page-load timeout.
    pub fn page_load_timeout(self, timeout: Duration) -> (r: Self)
        ensures
            r == (BrowserTimeoutsBuilder { page_load_timeout: Some(timeout), ..self }),
    {
        BrowserTimeoutsBuilder { page_load_timeout: Some(timeout), ..self }
    }

    /// Set or clear the page-load timeout.
    pub fn page_load_timeout_opt(self, timeout: Option<Duration>) -> (r: Self)
        ensures
            r == (BrowserTimeoutsBuilder { page_load_timeout: timeout, ..self }),
    {
        BrowserTimeoutsBuilder { page_load_timeout: timeout, ..self }
    }

    /// Set the implicit wait timeout; `Duration::ZERO` disables implicit waiting.
    pub fn implicit_wait_timeout(self, timeout: Duration) -> (r: Self)
        ensures
            r == (BrowserTimeoutsBuilder { implicit_wait_timeout: Some(timeout), ..self }),
    {
        BrowserTimeoutsBuilder { implicit_wait_timeout: Some(timeout), ..self }
    }

    /// Set or clear the implicit wait timeout.
    pub fn implicit_wait_timeout_opt(self, timeout: Option<Duration>) -> (r: Self)
        ensures
            r == (BrowserTimeoutsBuilder { implicit_wait_timeout: timeout, ..self }),
    {
        BrowserTimeoutsBuilder { implicit_wait_timeout: timeout, ..self }
    }

    /// The timeouts set so far.
    pub fn build(self) -> (r: BrowserTimeouts)
        ensures
            r.script() == self.script_timeout,
            r.page_load() == self.page_load_timeout,
            r.implicit_wait() == self.implicit_wait_timeout,
    {
        BrowserTimeouts::new(self.script_timeout, self.page_load_timeout, self.implicit_wait_timeout)
    }
}

} // verus!
