use std::io::Write;

use yt_dlp_x::archive::{extract_from_tar_xz, extract_from_zip};
use yt_dlp_x::ffmpeg::extract_ffmpeg;
use yt_dlp_x::install::{check_download_status, InstallError};
use yt_dlp_x::platform::Platform;

fn zip_with(entries: &[(&str, &[u8])]) -> Vec<u8> {
    let cursor = std::io::Cursor::new(Vec::new());
    let mut writer = zip::ZipWriter::new(cursor);
    let options = zip::write::SimpleFileOptions::default()
        .compression_method(zip::CompressionMethod::Deflated);
    writer.add_directory("release", options).unwrap();
    for (name, data) in entries {
        writer.start_file(*name, options).unwrap();
        writer.write_all(data).unwrap();
    }
    writer.finish().unwrap().into_inner()
}

fn tar_xz_with(entries: &[(&str, &[u8])]) -> Vec<u8> {
    let mut builder = tar::Builder::new(Vec::new());
    for (name, data) in entries {
        let mut header = tar::Header::new_gnu();
        header.set_size(data.len() as u64);
        header.set_mode(0o755);
        builder.append_data(&mut header, *name, *data).unwrap();
    }
    let tar_bytes = builder.into_inner().unwrap();
    let mut encoder = xz2::write::XzEncoder::new(Vec::new(), 6);
    encoder.write_all(&tar_bytes).unwrap();
    encoder.finish().unwrap()
}

#[test]
fn zip_extraction_finds_the_first_matching_file() {
    let bytes = zip_with(&[
        ("release/README.txt", b"docs"),
        ("release/bin/ffmpeg.exe", b"first binary"),
        ("other/ffmpeg.exe", b"second binary"),
    ]);
    let data = extract_from_zip(&bytes, &String::from("ffmpeg.exe")).unwrap();
    assert_eq!(data, b"first binary".to_vec());
}

#[test]
fn zip_without_a_matching_entry_reports_executable_not_found() {
    let bytes = zip_with(&[("release/README.txt", b"docs")]);
    let err = extract_from_zip(&bytes, &String::from("ffmpeg.exe")).unwrap_err();
    assert!(matches!(err, InstallError::ExecutableNotFound));
}

#[test]
fn zip_matching_is_on_the_file_name_not_a_path_suffix() {
    let bytes = zip_with(&[("tools/xffmpeg.exe", b"impostor")]);
    let err = extract_from_zip(&bytes, &String::from("ffmpeg.exe")).unwrap_err();
    assert!(matches!(err, InstallError::ExecutableNotFound));
}

#[test]
fn garbage_bytes_are_not_a_zip_archive() {
    let err = extract_from_zip(&vec![1u8, 2, 3, 4, 5], &String::from("ffmpeg")).unwrap_err();
    assert!(matches!(err, InstallError::ArchiveUnreadable));
}

#[test]
fn tar_xz_extraction_matches_the_exact_file_name() {
    let bytes = tar_xz_with(&[
        ("release/doc/ffmpeg.txt", b"manual"),
        ("release/bin/ffmpeg", b"the transcoder"),
    ]);
    let data = extract_from_tar_xz(&bytes, &String::from("ffmpeg")).unwrap();
    assert_eq!(data, b"the transcoder".to_vec());
}

#[test]
fn tar_xz_without_a_match_reports_executable_not_found() {
    let bytes = tar_xz_with(&[("release/doc/notes.txt", b"notes")]);
    let err = extract_from_tar_xz(&bytes, &String::from("ffmpeg")).unwrap_err();
    assert!(matches!(err, InstallError::ExecutableNotFound));
}

#[test]
fn garbage_bytes_are_not_an_xz_stream() {
    let err = extract_from_tar_xz(&vec![9u8, 9, 9], &String::from("ffmpeg")).unwrap_err();
    assert!(matches!(err, InstallError::ArchiveUnreadable));
}

#[test]
fn transcoder_extraction_follows_the_platform_archive_kind() {
    let zip_bytes = zip_with(&[("pkg/bin/ffmpeg.exe", b"win build"), ("pkg/bin/ffmpeg", b"mac build")]);
    assert_eq!(extract_ffmpeg(&zip_bytes, Platform::Windows).unwrap(), b"win build".to_vec());
    let tar_bytes = tar_xz_with(&[("pkg/bin/ffmpeg", b"linux build")]);
    assert_eq!(extract_ffmpeg(&tar_bytes, Platform::Linux).unwrap(), b"linux build".to_vec());
    let err = extract_ffmpeg(&zip_bytes, Platform::Other).unwrap_err();
    assert!(matches!(err, InstallError::UnsupportedPlatform));
}

#[test]
fn macos_zip_extraction_takes_tail_matches() {
    let bytes = zip_with(&[("pkg/bin/ffmpeg", b"mac build")]);
    assert_eq!(extract_ffmpeg(&bytes, Platform::MacOs).unwrap(), b"mac build".to_vec());
}

#[test]
fn install_error_messages_are_descriptive() {
    assert!(InstallError::UnsupportedPlatform.message().contains("platform"));
    assert_eq!(
        InstallError::DownloadFailed(404).message(),
        "the release download failed with HTTP status 404"
    );
    assert!(InstallError::ArchiveUnreadable.message().contains("archive"));
    assert!(InstallError::ExecutableNotFound.message().contains("executable"));
}

#[test]
fn download_status_accepts_exactly_the_success_class() {
    assert!(check_download_status(200).is_ok());
    assert!(check_download_status(204).is_ok());
    assert!(check_download_status(299).is_ok());
    assert!(matches!(check_download_status(301), Err(InstallError::DownloadFailed(301))));
    assert!(matches!(check_download_status(404), Err(InstallError::DownloadFailed(404))));
    assert!(matches!(check_download_status(500), Err(InstallError::DownloadFailed(500))));
}
