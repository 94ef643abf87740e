use yt_dlp_x::args::{
    apply_site_specific_overrides, build_download_args, is_bilibili_url, is_douyin_url,
    video_format_for_quality, DownloadMode, VideoQuality,
};

#[test]
fn builder_is_deterministic_across_calls() {
    let url = String::from("https://example.com/v/1");
    let browser = Some(String::from("firefox"));
    let outdir = String::from("/tmp/media");
    let ffmpeg = Some(String::from("/usr/bin/ffmpeg"));
    let a = build_download_args(&url, DownloadMode::Video, VideoQuality::Medium, &browser, &outdir, &ffmpeg);
    let b = build_download_args(&url, DownloadMode::Video, VideoQuality::Medium, &browser, &outdir, &ffmpeg);
    assert_eq!(a, b);
}

#[test]
fn video_arguments_are_exactly_as_specified() {
    let url = String::from("https://example.com/v/1");
    let outdir = String::from("/tmp/media");
    let args = build_download_args(
        &url,
        DownloadMode::Video,
        VideoQuality::Highest,
        &None,
        &outdir,
        &None,
    );
    let expected: Vec<String> = vec![
        "--newline".to_string(),
        "--no-playlist".to_string(),
        "--continue".to_string(),
        "--no-mtime".to_string(),
        "-o".to_string(),
        "%(title)s.%(ext)s".to_string(),
        "-P".to_string(),
        "/tmp/media".to_string(),
        "-f".to_string(),
        "bv*+ba/b".to_string(),
        "--merge-output-format".to_string(),
        "mp4".to_string(),
        "https://example.com/v/1".to_string(),
    ];
    assert_eq!(args, expected);
}

#[test]
fn audio_arguments_include_extraction_flags_and_transcoder() {
    let url = String::from("https://example.com/v/2");
    let outdir = String::from("/tmp/media");
    let ffmpeg = Some(String::from("/opt/bin/ffmpeg"));
    let args = build_download_args(
        &url,
        DownloadMode::Audio,
        VideoQuality::Highest,
        &None,
        &outdir,
        &ffmpeg,
    );
    let tail: Vec<String> = vec![
        "-f".to_string(),
        "bestaudio/best".to_string(),
        "-x".to_string(),
        "--audio-format".to_string(),
        "mp3".to_string(),
        "--embed-thumbnail".to_string(),
        "--convert-thumbnails".to_string(),
        "jpg".to_string(),
        "--ffmpeg-location".to_string(),
        "/opt/bin/ffmpeg".to_string(),
        "https://example.com/v/2".to_string(),
    ];
    assert_eq!(&args[8..], &tail[..]);
}

#[test]
fn url_is_always_the_last_argument() {
    let url = String::from("https://www.douyin.com/video/42");
    let outdir = String::from("/d");
    let args = build_download_args(
        &url,
        DownloadMode::Video,
        VideoQuality::Low,
        &Some(String::from("chrome")),
        &outdir,
        &None,
    );
    assert_eq!(args.last().unwrap(), &url);
}

#[test]
fn browser_hint_adds_cookie_arguments_for_known_sites() {
    let url = String::from("https://www.bilibili.com/video/BV1");
    let outdir = String::from("/d");
    let args = build_download_args(
        &url,
        DownloadMode::Video,
        VideoQuality::Low,
        &Some(String::from("  firefox  ")),
        &outdir,
        &None,
    );
    assert_eq!(args[8], "--cookies-from-browser");
    assert_eq!(args[9], "firefox");
}

#[test]
fn browser_hint_is_ignored_outside_known_sites() {
    let url = String::from("https://example.com");
    let outdir = String::from("/d");
    let args = build_download_args(
        &url,
        DownloadMode::Video,
        VideoQuality::Highest,
        &Some(String::from("firefox")),
        &outdir,
        &None,
    );
    assert!(!args.iter().any(|a| a == "--cookies-from-browser"));
}

#[test]
fn blank_browser_hint_is_ignored() {
    let url = String::from("https://www.bilibili.com/video/BV1");
    let outdir = String::from("/d");
    let args = build_download_args(
        &url,
        DownloadMode::Video,
        VideoQuality::Low,
        &Some(String::from("   ")),
        &outdir,
        &None,
    );
    assert!(!args.iter().any(|a| a == "--cookies-from-browser"));
}

#[test]
fn quality_tiers_select_their_format_chains() {
    let plain = "https://example.com/v";
    assert_eq!(
        video_format_for_quality(VideoQuality::Low, plain),
        "bv*[height<=480]+ba/b[height<=480]/bv*[height<=720]+ba/b[height<=720]/worst"
    );
    assert_eq!(
        video_format_for_quality(VideoQuality::Medium, plain),
        "bv*[height<=1080]+ba/b[height<=1080]/bv*[height<=720]+ba/b[height<=720]/b"
    );
    assert_eq!(video_format_for_quality(VideoQuality::Highest, plain), "bv*+ba/b");
}

#[test]
fn bilibili_highest_prefers_high_resolution() {
    let url = "https://www.BILIBILI.com/video/BV1";
    assert!(is_bilibili_url(url));
    assert_eq!(
        video_format_for_quality(VideoQuality::Highest, url),
        "bv*[height>=2160]+ba/bv*[height>=1080]+ba/bv*+ba/b"
    );
}

#[test]
fn douyin_urls_get_referer_and_user_agent() {
    assert!(is_douyin_url("https://v.douyin.com/x/"));
    assert!(is_douyin_url("https://www.IESdouyin.com/share"));
    assert!(!is_douyin_url("https://example.com"));
    let mut args: Vec<String> = Vec::new();
    apply_site_specific_overrides(&mut args, "https://v.douyin.com/x/");
    assert_eq!(args[0], "--referer");
    assert_eq!(args[1], "https://www.douyin.com/");
    assert_eq!(args[2], "--user-agent");
    assert!(args[3].contains("iPhone"));
    let mut none: Vec<String> = Vec::new();
    apply_site_specific_overrides(&mut none, "https://example.com");
    assert!(none.is_empty());
}

#[test]
fn default_quality_is_highest() {
    assert!(matches!(VideoQuality::default(), VideoQuality::Highest));
}
