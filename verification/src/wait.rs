//! Polling configuration for `thirtyfour` element queries and element waits.
use crate::primitives::{duration_is_zero, duration_spans_no_time};
use std::time::Duration;
use vstd::prelude::*;
use vstd::string::*;

verus! {

/// Wait configuration used by element queries and element waits: how long to keep polling, and
/// how long to wait between attempts.
#[derive(Debug, Clone, Copy, PartialEq, Eq, Hash)]
pub struct ElementQueryWaitConfig {
    timeout: Duration,
    interval: Duration,
}

/// Invalid element query wait configuration.
#[derive(Debug, Clone, Copy, PartialEq, Eq, Hash, Structural)]
pub enum ElementQueryWaitConfigError {
    /// The poll interval must be non-zero.
    ZeroInterval,
}

impl ElementQueryWaitConfigError {
    /// The human-readable message of this error (what its `Display` form shows).
    pub fn to_display_string(&self) -> (r: String)
        ensures
            r@ == "Element query wait poll interval must be non-zero."@,
    {
        String::from_str("Element query wait poll interval must be non-zero.")
    }
}

impl ElementQueryWaitConfig {
    /// Maximum time an element query keeps polling.
    pub closed spec fn timeout_spec(self) -> Duration {
        self.timeout
    }

    /// Delay between poll attempts.
    pub closed spec fn interval_spec(self) -> Duration {
        self.interval
    }

    /// A wait configuration, without validation: a zero interval is accepted here for trusted,
    /// hard-coded values, though it can make the poller retry immediately.
    pub fn new(timeout: Duration, interval: Duration) -> (r: Self)
        ensures
            r.timeout_spec() == timeout,
            r.interval_spec() == interval,
    {
        ElementQueryWaitConfig { timeout, interval }
    }

    /// A wait configuration, refusing a zero poll interval.
    pub fn try_new(timeout: Duration, interval: Duration) -> (r: Result<
        Self,
        ElementQueryWaitConfigError,
    >)
        ensures
            r is Err <==> duration_spans_no_time(interval),
            r matches Err(e) ==> e == ElementQueryWaitConfigError::ZeroInterval,
            r matches Ok(c) ==> c.timeout_spec() == timeout && c.interval_spec() == interval,
    {
        if duration_is_zero(interval) {
            return Err(ElementQueryWaitConfigError::ZeroInterval);
        }
        Ok(ElementQueryWaitConfig { timeout, interval })
    }

    /// A builder that needs both the timeout and the interval before it builds.
    pub fn builder() -> (r: ElementQueryWaitConfigBuilder<(), ()>)
        ensures
            r.timeout == () && r.interval == (),
    {
        ElementQueryWaitConfigBuilder { timeout: (), interval: () }
    }

    /// Maximum time an element query or element wait keeps polling before failing.
    pub fn timeout(self) -> (r: Duration)
        ensures
            r == self.timeout_spec(),
    {
        self.timeout
    }

    /// Delay between element-query poll attempts during the timeout window.
    pub fn interval(self) -> (r: Duration)
        ensures
            r == self.interval_spec(),
    {
        self.interval
    }
}

/// Builder for [`ElementQueryWaitConfig`]; `T` and `I` become `Duration` once the timeout and
/// the interval are set, and only then can it build.
#[derive(Debug, Clone, Copy)]
pub struct ElementQueryWaitConfigBuilder<T, I> {
    /// The timeout, once set.
    pub timeout: T,
    /// The interval, once set.
    pub interval: I,
}

impl<I> ElementQueryWaitConfigBuilder<(), I> {
    /// Set the maximum polling time.
    pub fn timeout(self, timeout: Duration) -> (r: ElementQueryWaitConfigBuilder<Duration, I>)
        ensures
            r.timeout == timeout,
            r.interval == self.interval,
    {
        ElementQueryWaitConfigBuilder { timeout, interval: self.interval }
    }
}

impl<T> ElementQueryWaitConfigBuilder<T, ()> {
    /// Set the delay between poll attempts.
    pub fn interval(self, interval: Duration) -> (r: ElementQueryWaitConfigBuilder<T, Duration>)
        ensures
            r.timeout == self.timeout,
            r.interval == interval,
    {
        ElementQueryWaitConfigBuilder { timeout: self.timeout, interval }
    }
}

impl ElementQueryWaitConfigBuilder<Duration, Duration> {
    /// The configuration with the timeout and interval set.
    pub fn build(self) -> (r: ElementQueryWaitConfig)
        ensures
            r.timeout_spec() == self.timeout,
            r.interval_spec() == self.interval,
    {
        ElementQueryWaitConfig::new(self.timeout, self.interval)
    }
}

} // verus!
