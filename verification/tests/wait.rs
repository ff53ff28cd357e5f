use std::time::Duration;

use browser_test::{ElementQueryWaitConfig, ElementQueryWaitConfigError};

#[test]
fn builder_preserves_timeout_and_interval() {
    let wait = ElementQueryWaitConfig::builder()
        .timeout(Duration::from_secs(10))
        .interval(Duration::from_millis(250))
        .build();

    assert_eq!(wait.timeout(), Duration::from_secs(10));
    assert_eq!(wait.interval(), Duration::from_millis(250));
}

#[test]
fn builder_preserves_zero_interval_for_trusted_callers() {
    let wait = ElementQueryWaitConfig::builder()
        .timeout(Duration::from_secs(10))
        .interval(Duration::ZERO)
        .build();

    assert_eq!(wait.interval(), Duration::ZERO);
}

#[test]
fn try_new_accepts_non_zero_interval() {
    let wait = ElementQueryWaitConfig::try_new(Duration::from_secs(10), Duration::from_millis(250))
        .expect("non-zero interval should be accepted");

    assert_eq!(wait.timeout(), Duration::from_secs(10));
    assert_eq!(wait.interval(), Duration::from_millis(250));
}

#[test]
fn try_new_rejects_zero_interval() {
    let err = ElementQueryWaitConfig::try_new(Duration::from_secs(10), Duration::ZERO)
        .expect_err("zero interval should be rejected");

    assert_eq!(err, ElementQueryWaitConfigError::ZeroInterval);
}

#[test]
fn new_preserves_zero_interval_for_const_trusted_callers() {
    let wait = ElementQueryWaitConfig::new(Duration::from_secs(10), Duration::ZERO);

    assert_eq!(wait.interval(), Duration::ZERO);
}

#[test]
fn builder_sets_fields_in_either_order() {
    let wait = ElementQueryWaitConfig::builder()
        .interval(Duration::from_millis(100))
        .timeout(Duration::from_secs(3))
        .build();

    assert_eq!(wait, ElementQueryWaitConfig::new(Duration::from_secs(3), Duration::from_millis(100)));
}
