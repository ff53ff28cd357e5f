use std::time::Duration;

use browser_test::BrowserTimeouts;

#[test]
fn builder_preserves_all_timeout_fields() {
    let timeouts = BrowserTimeouts::builder()
        .script_timeout(Duration::from_secs(5))
        .page_load_timeout(Duration::from_secs(10))
        .implicit_wait_timeout(Duration::from_secs(20))
        .build();

    assert_eq!(timeouts.script_timeout(), Some(Duration::from_secs(5)));
    assert_eq!(timeouts.page_load_timeout(), Some(Duration::from_secs(10)));
    assert_eq!(timeouts.implicit_wait_timeout(), Some(Duration::from_secs(20)));
}

#[test]
fn builder_leaves_unset_fields_unconfigured() {
    let timeouts = BrowserTimeouts::builder().build();

    assert!(timeouts.script_timeout().is_none());
    assert!(timeouts.page_load_timeout().is_none());
    assert!(timeouts.implicit_wait_timeout().is_none());
}

#[test]
fn builder_accepts_wrapped_option_values() {
    let timeouts = BrowserTimeouts::builder()
        .script_timeout_opt(Some(Duration::from_secs(5)))
        .page_load_timeout_opt(None)
        .implicit_wait_timeout_opt(Some(Duration::ZERO))
        .build();

    assert_eq!(timeouts.script_timeout(), Some(Duration::from_secs(5)));
    assert!(timeouts.page_load_timeout().is_none());
    assert_eq!(timeouts.implicit_wait_timeout(), Some(Duration::ZERO));
}

#[test]
fn conversion_preserves_unset_fields() {
    let timeouts = BrowserTimeouts::builder()
        .script_timeout(Duration::from_secs(5))
        .build()
        .into_thirtyfour_timeout_configuration();

    assert_eq!(timeouts.script(), Some(Duration::from_secs(5)));
    assert!(timeouts.page_load().is_none());
    assert!(timeouts.implicit().is_none());
}

#[test]
fn conversion_passes_every_timeout_through() {
    let timeouts = BrowserTimeouts::new(
        Some(Duration::from_millis(1500)),
        Some(Duration::from_secs(30)),
        Some(Duration::ZERO),
    )
    .into_thirtyfour_timeout_configuration();

    assert_eq!(timeouts.script(), Some(Duration::from_millis(1500)));
    assert_eq!(timeouts.page_load(), Some(Duration::from_secs(30)));
    assert_eq!(timeouts.implicit(), Some(Duration::ZERO));
}

#[test]
fn default_leaves_every_timeout_unset() {
    assert_eq!(BrowserTimeouts::default(), BrowserTimeouts::builder().build());
}
