use browser_test::{
    driver_output_attachment, render_driver_output, source_label, BrowserDriverOutputConfig,
    CapturedLine, DriverOutputCapture, DriverOutputConfig, DriverOutputSource, NonZeroCount,
    ResolvedDriverOutputConfig, DEFAULT_BROWSER_DRIVER_OUTPUT_TAIL_LINES,
};

fn line(source: DriverOutputSource, sequence: u64, line: &str) -> CapturedLine {
    CapturedLine {
        source,
        sequence,
        line: line.to_owned(),
    }
}

#[test]
fn deprecated_browser_driver_output_config_alias_matches_driver_output_config() {
    let config: BrowserDriverOutputConfig = DriverOutputConfig::tail_lines(3);

    assert_eq!(config, DriverOutputConfig::TailLines(3));
}

#[test]
fn driver_output_config_resolves_direct_modes() {
    assert_eq!(
        DriverOutputConfig::disabled().resolve(None, None),
        ResolvedDriverOutputConfig::Disabled
    );
    assert_eq!(
        DriverOutputConfig::tail_lines(0).resolve(None, None),
        ResolvedDriverOutputConfig::Disabled
    );

    let ResolvedDriverOutputConfig::TailLines(tail_lines) =
        DriverOutputConfig::tail_lines(3).resolve(None, None)
    else {
        panic!("non-zero tail-line capture should be enabled");
    };
    assert_eq!(tail_lines.get(), 3);
}

#[test]
fn resolved_driver_output_config_reports_capture_state() {
    let tail_lines = NonZeroCount::new(3).expect("literal tail-line count should be non-zero");
    assert!(!ResolvedDriverOutputConfig::disabled().is_enabled());
    assert!(ResolvedDriverOutputConfig::tail_lines(tail_lines).is_enabled());
    assert_eq!(
        ResolvedDriverOutputConfig::tail_lines(tail_lines).tail_line_count(),
        Some(tail_lines)
    );
    assert_eq!(ResolvedDriverOutputConfig::disabled().tail_line_count(), None);
}

#[test]
fn driver_output_config_resolves_env() {
    let resolved = DriverOutputConfig::from_env().resolve(Some("1"), Some("12"));

    let ResolvedDriverOutputConfig::TailLines(tail_lines) = resolved else {
        panic!("env browser-driver output capture should be enabled");
    };
    assert_eq!(tail_lines.get(), 12);

    assert_eq!(
        DriverOutputConfig::from_env().resolve(Some("0"), Some("12")),
        ResolvedDriverOutputConfig::Disabled
    );
}

#[test]
fn capture_retains_bounded_tail_and_total_count() {
    let mut capture = DriverOutputCapture::new(
        NonZeroCount::new(2).expect("literal tail capacity should be non-zero"),
    );

    capture.push(line(DriverOutputSource::Stdout, 0, "one"));
    capture.push(line(DriverOutputSource::Stderr, 1, "two"));
    capture.push(line(DriverOutputSource::Stdout, 2, "three"));

    let snapshot = capture.snapshot();

    assert_eq!(snapshot.total_lines, 3);
    assert_eq!(snapshot.tail_capacity, 2);
    assert_eq!(snapshot.tail_lines.len(), 2);
    assert_eq!(&snapshot.tail_lines[0].line, "two");
    assert_eq!(&snapshot.tail_lines[1].line, "three");
    assert_eq!(snapshot.tail_lines[0].source, DriverOutputSource::Stderr);
}

#[test]
fn env_resolution_falls_back_to_default_tail_lines() {
    for value in [None, Some("lots"), Some("-5"), Some("+"), Some(""), Some("99999999999999999999999")] {
        let resolved = DriverOutputConfig::from_env().resolve(Some(" yes "), value);
        assert_eq!(
            resolved.tail_line_count().map(NonZeroCount::get),
            Some(DEFAULT_BROWSER_DRIVER_OUTPUT_TAIL_LINES),
            "tail value {value:?}"
        );
    }
}

#[test]
fn env_resolution_reads_trimmed_tail_lines() {
    let resolved = DriverOutputConfig::from_env().resolve(Some("TRUE"), Some(" +7\n"));
    assert_eq!(resolved.tail_line_count().map(NonZeroCount::get), Some(7));

    let resolved = DriverOutputConfig::from_env().resolve(Some("on"), Some("0"));
    assert_eq!(resolved, ResolvedDriverOutputConfig::Disabled);

    assert_eq!(
        DriverOutputConfig::from_env().resolve(None, Some("12")),
        ResolvedDriverOutputConfig::Disabled
    );
}

#[test]
fn resolved_config_converts_back_to_requesting_config() {
    let count = NonZeroCount::new(9).expect("literal count should be non-zero");
    assert_eq!(
        DriverOutputConfig::from(ResolvedDriverOutputConfig::TailLines(count)),
        DriverOutputConfig::TailLines(9)
    );
    assert_eq!(
        DriverOutputConfig::from(ResolvedDriverOutputConfig::Disabled),
        DriverOutputConfig::Disabled
    );
    for resolved in [
        ResolvedDriverOutputConfig::Disabled,
        ResolvedDriverOutputConfig::TailLines(count),
    ] {
        assert_eq!(
            DriverOutputConfig::from(resolved).resolve(Some("1"), Some("4")),
            resolved
        );
    }
}

#[test]
fn rendered_output_shows_heading_note_and_lines() {
    let mut capture = DriverOutputCapture::new(
        NonZeroCount::new(5).expect("literal tail capacity should be non-zero"),
    );
    capture.push(line(DriverOutputSource::Stdout, 0, "Starting ChromeDriver"));

    let text = render_driver_output(&capture.snapshot());

    assert_eq!(
        text,
        "Recent browser driver output\n\
         note: output comes from one shared browser-driver process; parallel tests may interleave lines.\n\
         [0 stdout] Starting ChromeDriver\n"
    );
}

#[test]
fn rendered_output_reports_dropped_lines() {
    let mut capture = DriverOutputCapture::new(
        NonZeroCount::new(1).expect("literal tail capacity should be non-zero"),
    );
    capture.push(line(DriverOutputSource::Stdout, 10, "first"));
    capture.push(line(DriverOutputSource::Stderr, 11, "second"));

    let text = render_driver_output(&capture.snapshot());

    assert!(text.contains("showing the last 1 of 2 captured line(s).\n"));
    assert!(text.ends_with("[11 stderr] second\n"));
    assert!(!text.contains("first"));
}

#[test]
fn attachment_only_for_non_empty_capture() {
    assert_eq!(driver_output_attachment(None), None);

    let capture = DriverOutputCapture::new(
        NonZeroCount::new(2).expect("literal tail capacity should be non-zero"),
    );
    assert_eq!(driver_output_attachment(Some(&capture.snapshot())), None);

    let mut capture = capture;
    capture.push(line(DriverOutputSource::Stderr, 3, "login"));
    let text = driver_output_attachment(Some(&capture.snapshot()))
        .expect("non-empty capture should be attached");
    assert!(text.contains("Recent browser driver output"));
    assert!(text.contains("parallel tests may interleave lines"));
    assert!(text.contains("[3 stderr] login"));
}

#[test]
fn source_labels_name_the_stream() {
    assert_eq!(source_label(DriverOutputSource::Stdout), "stdout");
    assert_eq!(source_label(DriverOutputSource::Stderr), "stderr");
}
