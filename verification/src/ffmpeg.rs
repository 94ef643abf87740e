//! Resolving the transcoder binary.
//!
//! The transcoder is required for audio downloads and optional for video
//! downloads.  It is looked for on the system first, then as a bundled copy
//! under the per-application data directory; `ensure` never installs — a
//! missing transcoder is reported to the caller instead.  Installation,
//! when the caller requests it explicitly, downloads a platform-specific
//! release archive and extracts the one executable (see [`crate::archive`]).

use vstd::prelude::*;

use crate::install::InstallError;
use crate::platform::{join_path, spec_join_path, Platform};

verus! {

/// Where a resolved transcoder binary came from.
#[derive(Debug, Clone, Copy, PartialEq, Eq, Structural)]
pub enum BinarySource {
    /// Found in the system's own search locations.
    System,
    /// Installed and managed by this crate.
    Bundled,
}

/// The transcoder's executable file name on the given platform.
pub open spec fn spec_binary_file_name(p: Platform) -> Seq<char> {
    if p == Platform::Windows {
        "ffmpeg.exe"@
    } else {
        "ffmpeg"@
    }
}

/// The transcoder's executable file name.
pub fn binary_file_name(p: Platform) -> (r: String)
    ensures
        r@ == spec_binary_file_name(p),
{
    if matches!(p, Platform::Windows) {
        String::from_str("ffmpeg.exe")
    } else {
        String::from_str("ffmpeg")
    }
}

/// The release URL the transcoder is installed from, when the platform has
/// one.
pub open spec fn spec_download_url(p: Platform) -> Option<Seq<char>> {
    match p {
        Platform::Windows => Some(
            "https://github.com/GyanD/codexffmpeg/releases/latest/download/ffmpeg-release-essentials.zip"@,
        ),
        Platform::MacOs => Some("https://evermeet.cx/ffmpeg/getrelease/zip"@),
        Platform::Linux => Some(
            "https://github.com/BtbN/FFmpeg-Builds/releases/latest/download/ffmpeg-master-latest-linux64-gpl.tar.xz"@,
        ),
        Platform::Other => None,
    }
}

/// The release URL the transcoder is installed from; platforms without a
/// known release are unsupported.
pub fn download_url(p: Platform) -> (r: Result<String, InstallError>)
    ensures
        match r {
            Ok(url) => spec_download_url(p) == Some(url@),
            Err(e) => e == InstallError::UnsupportedPlatform && spec_download_url(p) is None,
        },
{
    match p {
        Platform::Windows => Ok(
            String::from_str(
                "https://github.com/GyanD/codexffmpeg/releases/latest/download/ffmpeg-release-essentials.zip",
            ),
        ),
        Platform::MacOs => Ok(String::from_str("https://evermeet.cx/ffmpeg/getrelease/zip")),
        Platform::Linux => Ok(
            String::from_str(
                "https://github.com/BtbN/FFmpeg-Builds/releases/latest/download/ffmpeg-master-latest-linux64-gpl.tar.xz",
            ),
        ),
        Platform::Other => Err(InstallError::UnsupportedPlatform),
    }
}

/// The path of the bundled transcoder under the per-application data
/// directory: `<data_dir>/bin/<executable>`.
pub open spec fn spec_bundled_binary_path(data_dir: Seq<char>, p: Platform) -> Seq<char> {
    spec_join_path(spec_join_path(data_dir, "bin"@, p), spec_binary_file_name(p), p)
}

/// The path the bundled transcoder is kept at, given the per-application
/// data directory.
pub fn bundled_binary_path(data_dir: &String, p: Platform) -> (r: String)
    ensures
        r@ == spec_bundled_binary_path(data_dir@, p),
{
    let bin_dir = join_path(data_dir, "bin", p);
    let name = binary_file_name(p);
    join_path(&bin_dir, name.as_str(), p)
}

/// The bundled binary's path when the caller's probe found it on disk.
pub fn detect_bundled_binary(bundled_path: &String, bundled_exists: bool) -> (r: Option<String>)
    ensures
        match r {
            Some(path) => bundled_exists && path@ == bundled_path@,
            None => !bundled_exists,
        },
{
    if bundled_exists {
        Some(bundled_path.clone())
    } else {
        None
    }
}

/// What a presence probe reports: the system binary wins over the bundled
/// one; neither means the transcoder is not installed.
pub open spec fn spec_detect(
    system: Option<Seq<char>>,
    bundled: Option<Seq<char>>,
) -> Option<(Seq<char>, BinarySource)> {
    match system {
        Some(p) => Some((p, BinarySource::System)),
        None => match bundled {
            Some(p) => Some((p, BinarySource::Bundled)),
            None => None,
        },
    }
}

/// Reports whether the transcoder is present, and from which source, given
/// the caller's probe results.  No installation is attempted.
pub fn detect_existing(system: &Option<String>, bundled: &Option<String>) -> (r: Option<
    (String, BinarySource),
>)
    ensures
        match r {
            Some(found) => spec_detect(system.deep_view(), bundled.deep_view()) == Some(
                (found.0@, found.1),
            ),
            None => spec_detect(system.deep_view(), bundled.deep_view()) is None,
        },
{
    match system {
        Some(p) => Some((p.clone(), BinarySource::System)),
        None => match bundled {
            Some(p) => Some((p.clone(), BinarySource::Bundled)),
            None => None,
        },
    }
}

/// A resolved transcoder: where it is, where it came from, and whether
/// its executable permissions must be re-verified before use.
#[derive(Debug, Clone)]
pub struct ResolvedTranscoder {
    /// The binary's path.
    pub path: String,
    /// Whether it was found on the system or is the bundled copy.
    pub source: BinarySource,
    /// The caller re-verifies and fixes the executable permissions before
    /// use.  This is asked on every resolution of a bundled binary,
    /// defensively, in case a prior partial installation left wrong
    /// permissions; a system binary is used as it is.
    pub fix_permissions: bool,
}

/// Resolves the transcoder or reports that it is missing: unlike the
/// downloader's `ensure`, this never installs.  It fails exactly when
/// neither probe found a binary, which lets an audio request fail fast;
/// a bundled result always asks for its permissions to be re-fixed.
pub fn ensure_available(system: &Option<String>, bundled: &Option<String>) -> (r: Result<
    ResolvedTranscoder,
    crate::download::DownloadPlanError,
>)
    ensures
        match r {
            Ok(found) => spec_detect(system.deep_view(), bundled.deep_view()) == Some(
                (found.path@, found.source),
            ) && found.fix_permissions == (found.source == BinarySource::Bundled),
            Err(e) => e == crate::download::DownloadPlanError::TranscoderMissing && spec_detect(
                system.deep_view(),
                bundled.deep_view(),
            ) is None,
        },
{
    match detect_existing(system, bundled) {
        Some((path, source)) => {
            let fix_permissions = matches!(source, BinarySource::Bundled);
            Ok(ResolvedTranscoder { path, source, fix_permissions })
        },
        None => Err(crate::download::DownloadPlanError::TranscoderMissing),
    }
}

/// Extracts the transcoder executable from a fetched release payload.
/// Windows and macOS releases are zip archives, the Linux release is an
/// xz-compressed tar archive; in each, the one entry whose file name is
/// exactly the expected executable name is taken.  Other platforms have
/// no release.  The result is the executable's bytes, which the caller
/// writes to the bundled path.
pub fn extract_ffmpeg(bytes: &Vec<u8>, p: Platform) -> (r: Result<Vec<u8>, InstallError>)
    ensures
        match r {
            Ok(data) => match p {
                Platform::Windows => crate::archive::zip_extraction_ok(
                    bytes@,
                    "ffmpeg.exe"@,
                    data@,
                ),
                Platform::MacOs => crate::archive::zip_extraction_ok(bytes@, "ffmpeg"@, data@),
                Platform::Linux => crate::archive::tar_extraction_ok(bytes@, "ffmpeg"@, data@),
                Platform::Other => false,
            },
            Err(e) => match p {
                Platform::Windows => crate::archive::zip_extraction_err(
                    bytes@,
                    "ffmpeg.exe"@,
                    e,
                ),
                Platform::MacOs => crate::archive::zip_extraction_err(bytes@, "ffmpeg"@, e),
                Platform::Linux => crate::archive::tar_extraction_err(bytes@, "ffmpeg"@, e),
                Platform::Other => e == InstallError::UnsupportedPlatform,
            },
        },
{
    match p {
        Platform::Windows => crate::archive::extract_from_zip(
            bytes,
            &String::from_str("ffmpeg.exe"),
        ),
        Platform::MacOs => crate::archive::extract_from_zip(bytes, &String::from_str("ffmpeg")),
        Platform::Linux => crate::archive::extract_from_tar_xz(
            bytes,
            &String::from_str("ffmpeg"),
        ),
        Platform::Other => Err(InstallError::UnsupportedPlatform),
    }
}

/// The outward label of a binary source.
pub fn source_label(source: BinarySource) -> (r: String)
    ensures
        source == BinarySource::System ==> r@ == "system"@,
        source == BinarySource::Bundled ==> r@ == "bundled"@,
{
    match source {
        BinarySource::System => String::from_str("system"),
        BinarySource::Bundled => String::from_str("bundled"),
    }
}

} // verus!
