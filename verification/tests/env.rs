use browser_test::env_flag_enabled;

#[test]
fn treats_unset_as_disabled() {
    assert!(!env_flag_enabled(None));
}

#[test]
fn treats_disabled_values_as_disabled() {
    for value in [
        "", " ", "0", "false", "FALSE", " no ", "off", "Off", "disabled",
    ] {
        assert!(!env_flag_enabled(Some(value)), "Testing: '{value}'");
    }
}

#[test]
fn treats_truthy_values_as_enabled() {
    for value in ["1", "true", "yes", "YES", "on", "ON", "enabled"] {
        assert!(env_flag_enabled(Some(value)), "Testing: '{value}'");
    }
}

#[test]
fn treats_other_values_as_disabled() {
    for value in ["2", "foo"] {
        assert!(!env_flag_enabled(Some(value)), "Testing: '{value}'");
    }
}

#[test]
fn trims_unicode_whitespace_and_ignores_ascii_case() {
    for value in ["\t Enabled \n", "\u{00a0}yEs\u{3000}", "\u{2003}On"] {
        assert!(env_flag_enabled(Some(value)), "Testing: '{value}'");
    }
    assert!(!env_flag_enabled(Some("y e s")));
}
