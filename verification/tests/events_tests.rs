use yt_dlp_x::events::{filter_by_session, LogEvent, StreamKind};

fn ev(sid: &str, stream: StreamKind, line: &str) -> LogEvent {
    LogEvent { session_id: String::from(sid), stream, line: String::from(line) }
}

#[test]
fn filtering_by_session_reconstructs_each_ordered_log() {
    let sink: Vec<LogEvent> = vec![
        ev("a", StreamKind::Stdout, "a1"),
        ev("b", StreamKind::Stdout, "b1"),
        ev("a", StreamKind::Stderr, "a2"),
        ev("a", StreamKind::Stdout, "a3"),
        ev("b", StreamKind::Stderr, "b2"),
    ];
    let sid_a = String::from("a");
    let sid_b = String::from("b");

    let log_a = filter_by_session(&sink, &sid_a);
    let lines_a: Vec<&str> = log_a.iter().map(|e| e.line.as_str()).collect();
    assert_eq!(lines_a, vec!["a1", "a2", "a3"]);
    assert!(log_a.iter().all(|e| e.session_id == "a"));

    let log_b = filter_by_session(&sink, &sid_b);
    let lines_b: Vec<&str> = log_b.iter().map(|e| e.line.as_str()).collect();
    assert_eq!(lines_b, vec!["b1", "b2"]);
    assert!(log_b.iter().all(|e| e.session_id == "b"));
}

#[test]
fn filtering_an_unknown_session_yields_nothing() {
    let sink: Vec<LogEvent> = vec![ev("a", StreamKind::Stdout, "a1")];
    assert!(filter_by_session(&sink, &String::from("zzz")).is_empty());
}

#[test]
fn stream_labels_match_their_pipes() {
    assert_eq!(StreamKind::Stdout.label(), "stdout");
    assert_eq!(StreamKind::Stderr.label(), "stderr");
}
