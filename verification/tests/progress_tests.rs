use yt_dlp_x::progress::{parse_progress_line, ProgressStatus};

#[test]
fn downloading_line_yields_all_fields() {
    let ev = parse_progress_line("[download]  45.2% of 10.00MiB at 1.20MiB/s ETA 00:05").unwrap();
    assert_eq!(ev.percent_text, "45.2%");
    let percent: f64 = ev.percent_text.trim_end_matches('%').parse().unwrap();
    assert_eq!(percent, 45.2);
    assert_eq!(ev.total.as_deref(), Some("10.00MiB"));
    assert_eq!(ev.speed.as_deref(), Some("1.20MiB/s"));
    assert_eq!(ev.eta.as_deref(), Some("00:05"));
    assert!(matches!(ev.status, Some(ProgressStatus::Downloading)));
    assert_eq!(ev.status.unwrap().label(), "downloading");
    assert_eq!(ev.raw, "[download]  45.2% of 10.00MiB at 1.20MiB/s ETA 00:05");
}

#[test]
fn finished_line_uses_the_in_fallback() {
    let ev = parse_progress_line("[download] 100% of 5.00MiB in 00:02").unwrap();
    let percent: f64 = ev.percent_text.trim_end_matches('%').parse().unwrap();
    assert_eq!(percent, 100.0);
    assert!(matches!(ev.status, Some(ProgressStatus::Finished)));
    assert_eq!(ev.eta.as_deref(), Some("00:02"));
    assert_eq!(ev.total.as_deref(), Some("5.00MiB"));
}

#[test]
fn non_marker_lines_yield_nothing() {
    assert!(parse_progress_line("45.2% of 10.00MiB at 1.20MiB/s ETA 00:05").is_none());
    assert!(parse_progress_line("[ffmpeg] Destination: out.mp3").is_none());
    assert!(parse_progress_line("").is_none());
    assert!(parse_progress_line("ERROR: unable to download").is_none());
}

#[test]
fn marker_line_without_percent_yields_nothing() {
    assert!(parse_progress_line("[download] Destination: clip.mp4").is_none());
}

#[test]
fn unparseable_percent_yields_nothing() {
    assert!(parse_progress_line("[download] abc% of 10MiB").is_none());
    assert!(parse_progress_line("[download] % of 10MiB").is_none());
    assert!(parse_progress_line("[download] 4.5.6% of 10MiB").is_none());
    assert!(parse_progress_line("[download] 1e2e3% of 10MiB").is_none());
    assert!(parse_progress_line("[download] e5% of 10MiB").is_none());
    assert!(parse_progress_line("[download] 1e% of 10MiB").is_none());
}

#[test]
fn percent_accepts_every_float_form() {
    // everything `"…".parse::<f64>()` accepts is a percent
    let exponent = parse_progress_line("[download] 1e2% of 1MiB").unwrap();
    assert_eq!(exponent.percent_text, "1e2%");
    assert!(matches!(exponent.status, Some(ProgressStatus::Finished)));

    let small = parse_progress_line("[download] 5E-1% of 1MiB").unwrap();
    assert!(matches!(small.status, Some(ProgressStatus::Downloading)));

    let fractional = parse_progress_line("[download] 0.5e3% of 1MiB").unwrap();
    assert!(matches!(fractional.status, Some(ProgressStatus::Finished)));

    let infinite = parse_progress_line("[download] INF% of 1MiB").unwrap();
    assert!(matches!(infinite.status, Some(ProgressStatus::Finished)));

    let negative_infinite = parse_progress_line("[download] -Infinity% of 1MiB").unwrap();
    assert!(matches!(negative_infinite.status, Some(ProgressStatus::Downloading)));

    let not_a_number = parse_progress_line("[download] nan% of 1MiB").unwrap();
    assert!(matches!(not_a_number.status, Some(ProgressStatus::Downloading)));
}

#[test]
fn bare_hundred_percent_is_finished() {
    let ev = parse_progress_line("[download] 100%").unwrap();
    assert!(matches!(ev.status, Some(ProgressStatus::Finished)));
    assert!(ev.eta.is_none());
    assert!(ev.total.is_none());
    assert!(ev.speed.is_none());
}

#[test]
fn bare_low_percent_has_no_status() {
    let ev = parse_progress_line("[download] 45%").unwrap();
    assert!(ev.status.is_none());
}

#[test]
fn percent_values_are_not_clamped() {
    let over = parse_progress_line("[download] 150.5% of 1MiB").unwrap();
    let percent: f64 = over.percent_text.trim_end_matches('%').parse().unwrap();
    assert_eq!(percent, 150.5);
    assert!(matches!(over.status, Some(ProgressStatus::Finished)));

    let negative = parse_progress_line("[download] -5.0% of 1MiB").unwrap();
    let percent: f64 = negative.percent_text.trim_end_matches('%').parse().unwrap();
    assert_eq!(percent, -5.0);
    assert!(matches!(negative.status, Some(ProgressStatus::Downloading)));
}

#[test]
fn total_strips_trailing_comma() {
    let ev = parse_progress_line("[download] 12.0% of 3.00MiB, at 500KiB/s ETA 00:09").unwrap();
    assert_eq!(ev.total.as_deref(), Some("3.00MiB"));
    assert_eq!(ev.speed.as_deref(), Some("500KiB/s"));
}

#[test]
fn eta_prefers_the_last_occurrence() {
    let ev = parse_progress_line("[download] 7.5% of 2MiB at 1MiB/s ETA 00:30 ETA 00:10").unwrap();
    assert_eq!(ev.eta.as_deref(), Some("00:10"));
}
