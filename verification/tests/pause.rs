use browser_test::{
    classify_pause_answer, PauseConfig, PauseDecision, PauseDialog, PauseEvent, PauseOutcome,
    PauseStep, ResolvedPauseConfig,
};

/// Drives a pause dialogue whose writes all succeed, answering reads from `input` lines; an
/// exhausted input reads as the end of the input. Returns the outcome and what was written.
fn run_dialog(config: &ResolvedPauseConfig, hint: Option<&str>, input: &[&str]) -> (PauseOutcome, String) {
    let mut dialog = PauseDialog::new(config, hint);
    let mut written = String::new();
    let mut lines = input.iter();
    loop {
        match dialog.next_step() {
            PauseStep::Write(text) => {
                written.push_str(&text);
                dialog.record(PauseEvent::Done);
            }
            PauseStep::Flush => dialog.record(PauseEvent::Done),
            PauseStep::ReadLine => match lines.next() {
                Some(line) => dialog.record(PauseEvent::LineRead((*line).to_owned())),
                None => dialog.record(PauseEvent::EndOfInput),
            },
            PauseStep::Finish(outcome) => return (outcome, written),
        }
    }
}

#[test]
fn default_is_disabled() {
    assert!(!PauseConfig::default().is_enabled(None));
}

#[test]
fn resolved_pause_reports_enabled_state() {
    assert!(ResolvedPauseConfig::enabled(true).is_enabled());
    assert!(!ResolvedPauseConfig::enabled(false).is_enabled());
    assert!(!ResolvedPauseConfig::disabled().is_enabled());
}

#[test]
fn from_env_treats_unset_as_disabled() {
    let config = PauseConfig::from_env_var("BROWSER_TEST_PAUSE_CONFIG_TEST");
    assert_eq!(
        config.env_var().as_deref(),
        Some("BROWSER_TEST_PAUSE_CONFIG_TEST")
    );
    assert!(!config.resolve(None).is_enabled());
}

#[test]
fn from_env_reads_default_pause_var() {
    let config = PauseConfig::from_env();
    assert_eq!(config.env_var().as_deref(), Some("BROWSER_TEST_PAUSE"));
    assert!(config.resolve(Some("yes")).is_enabled());
    assert!(!config.resolve(Some("no")).is_enabled());
}

#[test]
fn is_enabled_resolves_env_backed_config() {
    assert!(PauseConfig::from_env().is_enabled(Some("yes")));
}

#[test]
fn treats_stdin_eof_as_read_error() {
    let (outcome, _) = run_dialog(&ResolvedPauseConfig::enabled(true), None, &[]);

    assert_eq!(outcome, PauseOutcome::EndOfInput);
    assert_eq!(
        outcome.error().map(|e| e.to_display_string()),
        Some("Failed to read pause response from stdin.".to_owned())
    );
}

#[test]
fn treats_empty_line_as_abort() {
    let (outcome, _) = run_dialog(&ResolvedPauseConfig::enabled(true), None, &["\n"]);

    assert_eq!(outcome, PauseOutcome::Decided(PauseDecision::Abort));
}

#[test]
fn treats_y_as_continue() {
    let (outcome, _) = run_dialog(&ResolvedPauseConfig::enabled(true), None, &["y\n"]);

    assert_eq!(outcome, PauseOutcome::Decided(PauseDecision::Continue));
}

#[test]
fn dialog_writes_message_hint_prompt_and_reminder() {
    let config = ResolvedPauseConfig::enabled(true)
        .with_message("Paused.".to_owned())
        .with_prompt("Go? ".to_owned());
    let (outcome, written) = run_dialog(&config, Some("App at :3000"), &["maybe\n", " CONTINUE \n"]);

    assert_eq!(outcome, PauseOutcome::Decided(PauseDecision::Continue));
    assert_eq!(
        written,
        "Paused.\nApp at :3000\nGo? Enter 'y' to continue or 'n' to abort.\nGo? "
    );
}

#[test]
fn dialog_skips_empty_hint() {
    let (_, written) = run_dialog(&ResolvedPauseConfig::enabled(true), Some(""), &["q"]);

    assert_eq!(
        written,
        "Browser test execution is paused.\nContinue with tests? [y/N] "
    );
}

#[test]
fn failed_write_ends_dialog_with_prompt_error() {
    let mut dialog = PauseDialog::new(&ResolvedPauseConfig::enabled(true), None);
    dialog.record(PauseEvent::Failed);

    let PauseStep::Finish(outcome) = dialog.next_step() else {
        panic!("a failed write should end the dialogue");
    };
    assert_eq!(outcome, PauseOutcome::WriteFailed);
    assert_eq!(
        outcome.error().map(|e| e.to_display_string()),
        Some("Failed to flush pause prompt.".to_owned())
    );
}

#[test]
fn classifies_answers() {
    for answer in ["y", "yes", "c", "continue", " Y\n", "YES"] {
        assert_eq!(classify_pause_answer(answer), Some(PauseDecision::Continue), "{answer:?}");
    }
    for answer in ["n", "no", "q", "quit", "", "\n", " QUIT "] {
        assert_eq!(classify_pause_answer(answer), Some(PauseDecision::Abort), "{answer:?}");
    }
    for answer in ["maybe", "yy", "nope"] {
        assert_eq!(classify_pause_answer(answer), None, "{answer:?}");
    }
}

#[test]
fn resolving_keeps_message_and_prompt() {
    let config = PauseConfig::enabled(true)
        .with_message("m".to_owned())
        .with_prompt("p".to_owned());
    let resolved = config.resolve(None);

    assert!(resolved.is_enabled());
    assert_eq!(resolved.message_text(), "m");
    assert_eq!(resolved.prompt_text(), "p");

    let back = PauseConfig::from(resolved.clone());
    assert_eq!(back, PauseConfig::enabled(true).with_message("m".to_owned()).with_prompt("p".to_owned()));
    assert!(PauseConfig::disabled() == PauseConfig::default());
}
