use yt_dlp_x::args::{build_download_args, DownloadMode, VideoQuality};
use yt_dlp_x::download::{
    exit_status_message, finish_download, plan_download, session_identifier, validate_url,
    DownloadPlanError, DownloadRequest,
};
use yt_dlp_x::events::{StreamBuffer, StreamKind};

fn request(url: &str, mode: DownloadMode) -> DownloadRequest {
    DownloadRequest {
        url: String::from(url),
        mode,
        browser: None,
        output_dir: None,
        session_id: Some(String::from("s-1")),
        quality: VideoQuality::Highest,
    }
}

#[test]
fn empty_and_blank_urls_are_rejected_before_anything_runs() {
    assert!(matches!(validate_url(""), Err(DownloadPlanError::EmptyUrl)));
    assert!(matches!(validate_url("   \t  "), Err(DownloadPlanError::EmptyUrl)));
    let req = request("   ", DownloadMode::Video);
    let err = plan_download(&req, &None, &String::from("/d"), None).unwrap_err();
    assert!(matches!(err, DownloadPlanError::EmptyUrl));
}

#[test]
fn valid_urls_are_trimmed() {
    assert_eq!(validate_url("  https://e.com/v \n").unwrap(), "https://e.com/v");
}

#[test]
fn audio_without_transcoder_fails_fast() {
    let req = request("https://e.com/v", DownloadMode::Audio);
    let err = plan_download(&req, &None, &String::from("/d"), None).unwrap_err();
    assert!(matches!(err, DownloadPlanError::TranscoderMissing));
}

#[test]
fn audio_with_transcoder_plans_successfully() {
    let req = request("https://e.com/v", DownloadMode::Audio);
    let ffmpeg = Some(String::from("/usr/bin/ffmpeg"));
    let plan = plan_download(&req, &ffmpeg, &String::from("/d"), None).unwrap();
    assert!(plan.args.iter().any(|a| a == "--ffmpeg-location"));
    assert_eq!(plan.args.last().unwrap(), "https://e.com/v");
}

#[test]
fn the_plan_uses_the_builder_arguments_verbatim() {
    let req = DownloadRequest {
        url: String::from(" https://e.com/v "),
        mode: DownloadMode::Video,
        browser: Some(String::from("chrome")),
        output_dir: Some(String::from(" /media ")),
        session_id: None,
        quality: VideoQuality::Medium,
    };
    let plan = plan_download(&req, &None, &String::from("/d"), Some(7)).unwrap();
    assert_eq!(plan.output_dir, "/media");
    assert_eq!(plan.session_id, "session-7");
    let expected = build_download_args(
        &String::from("https://e.com/v"),
        DownloadMode::Video,
        VideoQuality::Medium,
        &Some(String::from("chrome")),
        &String::from("/media"),
        &None,
    );
    assert_eq!(plan.args, expected);
}

#[test]
fn session_identifiers_follow_the_fallback_chain() {
    assert_eq!(session_identifier(&Some(String::from("mine")), Some(5)), "mine");
    assert_eq!(session_identifier(&None, Some(1699999999123)), "session-1699999999123");
    assert_eq!(session_identifier(&None, None), "session-0");
}

#[test]
fn finish_download_aggregates_exactly_the_buffered_lines() {
    let sid = String::from("s");
    let mut out = StreamBuffer::new();
    let mut err = StreamBuffer::new();
    let (log, progress) = out.accept_line(&sid, StreamKind::Stdout, String::from("one"));
    assert_eq!(log.line, "one");
    assert!(matches!(log.stream, StreamKind::Stdout));
    assert!(progress.is_none());
    let (_, progress) =
        out.accept_line(&sid, StreamKind::Stdout, String::from("[download] 10% of 1MiB"));
    assert!(progress.is_some());
    err.accept_line(&sid, StreamKind::Stderr, String::from("  warning  "));
    let response = finish_download(false, &out, &err, &String::from("/d"));
    assert!(!response.success);
    assert_eq!(response.stdout, "one\n[download] 10% of 1MiB");
    assert_eq!(response.stderr, "warning");
    assert_eq!(response.output_dir, "/d");
}

#[test]
fn empty_buffers_aggregate_to_empty_text() {
    let out = StreamBuffer::new();
    let err = StreamBuffer::new();
    let response = finish_download(true, &out, &err, &String::from("/d"));
    assert!(response.success);
    assert_eq!(response.stdout, "");
    assert_eq!(response.stderr, "");
}

#[test]
fn exit_codes_format_as_decimal_or_unknown() {
    assert_eq!(exit_status_message(Some(0)), "0");
    assert_eq!(exit_status_message(Some(101)), "101");
    assert_eq!(exit_status_message(Some(-9)), "-9");
    assert_eq!(exit_status_message(None), "unknown");
}

#[test]
fn plan_error_messages_are_descriptive() {
    assert!(DownloadPlanError::EmptyUrl.message().contains("URL"));
    assert!(DownloadPlanError::TranscoderMissing.message().contains("transcoder"));
}
