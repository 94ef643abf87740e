use yt_dlp_x::ffmpeg;
use yt_dlp_x::platform::{join_path, Platform};
use yt_dlp_x::yt_dlp::{self, EnsureAction};

#[test]
fn ensure_is_idempotent_when_already_bundled() {
    let bundled = String::from("/data/app/bin/yt-dlp");
    let first = yt_dlp::ensure_available(&None, true, &bundled);
    let second = yt_dlp::ensure_available(&None, true, &bundled);
    assert!(matches!(&first, EnsureAction::UseBundled(p) if p == &bundled));
    assert_eq!(first, second);
    assert!(!matches!(first, EnsureAction::Install(_)));
}

#[test]
fn ensure_prefers_the_system_binary() {
    let bundled = String::from("/data/app/bin/yt-dlp");
    let action = yt_dlp::ensure_available(&Some(String::from("/usr/bin/yt-dlp")), true, &bundled);
    assert!(matches!(action, EnsureAction::UseSystem(p) if p == "/usr/bin/yt-dlp"));
}

#[test]
fn ensure_installs_when_nothing_is_present() {
    let bundled = String::from("/data/app/bin/yt-dlp");
    let action = yt_dlp::ensure_available(&None, false, &bundled);
    assert!(matches!(action, EnsureAction::Install(p) if p == bundled));
}

#[test]
fn detection_precedence_and_labels() {
    let system = Some(String::from("/usr/bin/yt-dlp"));
    let bundled = Some(String::from("/data/bin/yt-dlp"));
    let (path, source) = yt_dlp::detect_existing(&system, &bundled).unwrap();
    assert_eq!(path, "/usr/bin/yt-dlp");
    assert_eq!(yt_dlp::source_label(source), "system");
    let (path, source) = yt_dlp::detect_existing(&None, &bundled).unwrap();
    assert_eq!(path, "/data/bin/yt-dlp");
    assert_eq!(yt_dlp::source_label(source), "bundled");
    assert!(yt_dlp::detect_existing(&None, &None).is_none());
}

#[test]
fn transcoder_detection_and_missing_error() {
    let bundled = Some(String::from("/data/bin/ffmpeg"));
    let resolved = ffmpeg::ensure_available(&None, &bundled).unwrap();
    assert_eq!(resolved.path, "/data/bin/ffmpeg");
    assert_eq!(ffmpeg::source_label(resolved.source), "bundled");
    assert!(resolved.fix_permissions);
    let err = ffmpeg::ensure_available(&None, &None).unwrap_err();
    assert!(err.message().contains("transcoder"));
}

#[test]
fn a_system_transcoder_needs_no_permission_fix() {
    let system = Some(String::from("/usr/bin/ffmpeg"));
    let resolved = ffmpeg::ensure_available(&system, &None).unwrap();
    assert_eq!(resolved.path, "/usr/bin/ffmpeg");
    assert_eq!(ffmpeg::source_label(resolved.source), "system");
    assert!(!resolved.fix_permissions);
}

#[test]
fn bundled_paths_sit_under_the_data_directory() {
    let data = String::from("/home/u/.local/share/app");
    assert_eq!(
        yt_dlp::bundled_binary_path(&data, Platform::Linux),
        "/home/u/.local/share/app/bin/yt-dlp"
    );
    assert_eq!(
        ffmpeg::bundled_binary_path(&data, Platform::MacOs),
        "/home/u/.local/share/app/bin/ffmpeg"
    );
    let win = String::from("C:\\Users\\u\\AppData\\app");
    assert_eq!(
        yt_dlp::bundled_binary_path(&win, Platform::Windows),
        "C:\\Users\\u\\AppData\\app\\bin\\yt-dlp.exe"
    );
}

#[test]
fn executable_names_differ_on_windows() {
    assert_eq!(yt_dlp::binary_file_name(Platform::Windows), "yt-dlp.exe");
    assert_eq!(yt_dlp::binary_file_name(Platform::Linux), "yt-dlp");
    assert_eq!(ffmpeg::binary_file_name(Platform::Windows), "ffmpeg.exe");
    assert_eq!(ffmpeg::binary_file_name(Platform::MacOs), "ffmpeg");
}

#[test]
fn release_urls_are_platform_specific() {
    assert!(yt_dlp::download_url(Platform::Windows).ends_with("yt-dlp.exe"));
    assert!(yt_dlp::download_url(Platform::MacOs).ends_with("yt-dlp_macos"));
    assert!(yt_dlp::download_url(Platform::Linux).ends_with("/yt-dlp"));
    assert!(ffmpeg::download_url(Platform::Windows).unwrap().ends_with(".zip"));
    assert!(ffmpeg::download_url(Platform::Linux).unwrap().ends_with(".tar.xz"));
    assert!(ffmpeg::download_url(Platform::Other).is_err());
}

#[test]
fn default_download_dir_falls_back_in_order() {
    let downloads = Some(String::from("/home/u/Downloads"));
    let home = Some(String::from("/home/u"));
    let cwd = Some(String::from("/work"));
    assert_eq!(
        yt_dlp::default_download_dir(&downloads, &home, &cwd, Platform::Linux),
        "/home/u/Downloads"
    );
    assert_eq!(
        yt_dlp::default_download_dir(&None, &home, &cwd, Platform::Linux),
        "/home/u/Downloads"
    );
    assert_eq!(yt_dlp::default_download_dir(&None, &None, &cwd, Platform::Linux), "/work");
    assert_eq!(yt_dlp::default_download_dir(&None, &None, &None, Platform::Linux), ".");
}

#[test]
fn join_path_respects_existing_separators() {
    assert_eq!(join_path(&String::from("/a/b"), "c", Platform::Linux), "/a/b/c");
    assert_eq!(join_path(&String::from("/a/b/"), "c", Platform::Linux), "/a/b/c");
    assert_eq!(join_path(&String::from(""), "c", Platform::Linux), "c");
    assert_eq!(join_path(&String::from("C:\\x"), "y", Platform::Windows), "C:\\x\\y");
}
