//! Resolving the downloader binary.
//!
//! The downloader is looked for on the system first; failing that, a copy
//! this crate manages under the per-application data directory is used, and
//! installed there when missing.  The filesystem probes and the download
//! itself are the embedding application's task; the decisions — which path
//! wins, whether an installation is needed, where the release lives — are
//! pure functions here.

use vstd::prelude::*;

use crate::platform::{join_path, spec_join_path, Platform};

verus! {

/// Where a resolved downloader binary came from.
#[derive(Debug, Clone, Copy, PartialEq, Eq, Structural)]
pub enum BinarySource {
    /// Found in the system's own search locations.
    System,
    /// Installed and managed by this crate.
    Bundled,
}

/// The downloader's executable file name on the given platform.
pub open spec fn spec_binary_file_name(p: Platform) -> Seq<char> {
    if p == Platform::Windows {
        "yt-dlp.exe"@
    } else {
        "yt-dlp"@
    }
}

/// The downloader's executable file name.
pub fn binary_file_name(p: Platform) -> (r: String)
    ensures
        r@ == spec_binary_file_name(p),
{
    if matches!(p, Platform::Windows) {
        String::from_str("yt-dlp.exe")
    } else {
        String::from_str("yt-dlp")
    }
}

/// The release URL the downloader is installed from on the given platform.
pub open spec fn spec_download_url(p: Platform) -> Seq<char> {
    match p {
        Platform::Windows => {
            "https://github.com/yt-dlp/yt-dlp/releases/latest/download/yt-dlp.exe"@
        },
        Platform::MacOs => {
            "https://github.com/yt-dlp/yt-dlp/releases/latest/download/yt-dlp_macos"@
        },
        _ => "https://github.com/yt-dlp/yt-dlp/releases/latest/download/yt-dlp"@,
    }
}

/// The release URL the downloader is installed from.  The payload is the
/// raw executable, not an archive.
pub fn download_url(p: Platform) -> (r: String)
    ensures
        r@ == spec_download_url(p),
{
    match p {
        Platform::Windows => String::from_str(
            "https://github.com/yt-dlp/yt-dlp/releases/latest/download/yt-dlp.exe",
        ),
        Platform::MacOs => String::from_str(
            "https://github.com/yt-dlp/yt-dlp/releases/latest/download/yt-dlp_macos",
        ),
        Platform::Linux => String::from_str(
            "https://github.com/yt-dlp/yt-dlp/releases/latest/download/yt-dlp",
        ),
        Platform::Other => String::from_str(
            "https://github.com/yt-dlp/yt-dlp/releases/latest/download/yt-dlp",
        ),
    }
}

/// The path of the bundled downloader under the per-application data
/// directory: `<data_dir>/bin/<executable>`.
pub open spec fn spec_bundled_binary_path(data_dir: Seq<char>, p: Platform) -> Seq<char> {
    spec_join_path(spec_join_path(data_dir, "bin"@, p), spec_binary_file_name(p), p)
}

/// The path the bundled downloader is kept at, given the per-application
/// data directory.
pub fn bundled_binary_path(data_dir: &String, p: Platform) -> (r: String)
    ensures
        r@ == spec_bundled_binary_path(data_dir@, p),
{
    let bin_dir = join_path(data_dir, "bin", p);
    let name = binary_file_name(p);
    join_path(&bin_dir, name.as_str(), p)
}

/// The bundled binary's path when the caller's probe found it on disk.
pub fn detect_bundled_binary(bundled_path: &String, bundled_exists: bool) -> (r: Option<String>)
    ensures
        match r {
            Some(path) => bundled_exists && path@ == bundled_path@,
            None => !bundled_exists,
        },
{
    if bundled_exists {
        Some(bundled_path.clone())
    } else {
        None
    }
}

/// What a presence probe reports: the system binary wins over the bundled
/// one; neither means the downloader is not installed.
pub open spec fn spec_detect(
    system: Option<Seq<char>>,
    bundled: Option<Seq<char>>,
) -> Option<(Seq<char>, BinarySource)> {
    match system {
        Some(p) => Some((p, BinarySource::System)),
        None => match bundled {
            Some(p) => Some((p, BinarySource::Bundled)),
            None => None,
        },
    }
}

/// Reports whether the downloader is present, and from which source,
/// given the caller's probe results: `system` from a search of the
/// system's locations, `bundled` from an existence check of the bundled
/// path.  No installation is attempted.
pub fn detect_existing(system: &Option<String>, bundled: &Option<String>) -> (r: Option<
    (String, BinarySource),
>)
    ensures
        match r {
            Some(found) => spec_detect(system.deep_view(), bundled.deep_view()) == Some(
                (found.0@, found.1),
            ),
            None => spec_detect(system.deep_view(), bundled.deep_view()) is None,
        },
{
    match system {
        Some(p) => Some((p.clone(), BinarySource::System)),
        None => match bundled {
            Some(p) => Some((p.clone(), BinarySource::Bundled)),
            None => None,
        },
    }
}

/// What one `ensure` call decides to do.  The type parameter is the path
/// representation: `String` executably, `Seq<char>` in specifications.
#[derive(Debug, Clone, PartialEq, Eq)]
pub enum EnsureAction<P> {
    /// Use the binary found on the system, as it is.
    UseSystem(P),
    /// Use the bundled binary at this path; its executable permissions are
    /// re-verified defensively on every call.
    UseBundled(P),
    /// Nothing is present: install to this path, then use it as bundled.
    Install(P),
}

impl View for EnsureAction<String> {
    type V = EnsureAction<Seq<char>>;

    open spec fn view(&self) -> EnsureAction<Seq<char>> {
        match self {
            EnsureAction::UseSystem(p) => EnsureAction::UseSystem(p@),
            EnsureAction::UseBundled(p) => EnsureAction::UseBundled(p@),
            EnsureAction::Install(p) => EnsureAction::Install(p@),
        }
    }
}

/// The `ensure` decision: the system binary wins; else the bundled binary
/// when it exists; else an installation to the bundled path.
pub open spec fn spec_ensure(
    system: Option<Seq<char>>,
    bundled_exists: bool,
    bundled_path: Seq<char>,
) -> EnsureAction<Seq<char>> {
    match system {
        Some(p) => EnsureAction::UseSystem(p),
        None => {
            if bundled_exists {
                EnsureAction::UseBundled(bundled_path)
            } else {
                EnsureAction::Install(bundled_path)
            }
        },
    }
}

/// Decides how to make the downloader available, from the caller's probe
/// results.  The caller performs the returned action: nothing for a system
/// binary, a permission fix for a bundled one, a download followed by a
/// permission fix for an installation.
pub fn ensure_available(
    system: &Option<String>,
    bundled_exists: bool,
    bundled_path: &String,
) -> (r: EnsureAction<String>)
    ensures
        r@ == spec_ensure(system.deep_view(), bundled_exists, bundled_path@),
{
    match system {
        Some(p) => EnsureAction::UseSystem(p.clone()),
        None => {
            if bundled_exists {
                EnsureAction::UseBundled(bundled_path.clone())
            } else {
                EnsureAction::Install(bundled_path.clone())
            }
        },
    }
}

/// Ensuring is idempotent once the binary is bundled: with no system
/// binary and the bundled file present, every `ensure` call yields the
/// bundled path with the bundled source, and none decides to install, so a
/// second call in sequence returns exactly what the first did.
pub proof fn lemma_ensure_idempotent(
    bundled_path: Seq<char>,
    r1: EnsureAction<Seq<char>>,
    r2: EnsureAction<Seq<char>>,
)
    requires
        r1 == spec_ensure(None::<Seq<char>>, true, bundled_path),
        r2 == spec_ensure(None::<Seq<char>>, true, bundled_path),
    ensures
        r1 == r2,
        r1 == EnsureAction::UseBundled(bundled_path),
        !(r1 is Install),
        !(r2 is Install),
{
}

/// The platform's download folder, from the caller's probe results: the
/// user's download directory when the system names one, else a `Downloads`
/// folder under the home directory, else the working directory, else the
/// relative current directory.
pub open spec fn spec_default_download_dir(
    user_download_dir: Option<Seq<char>>,
    home_dir: Option<Seq<char>>,
    current_dir: Option<Seq<char>>,
    p: Platform,
) -> Seq<char> {
    match user_download_dir {
        Some(d) => d,
        None => match home_dir {
            Some(h) => spec_join_path(h, "Downloads"@, p),
            None => match current_dir {
                Some(c) => c,
                None => "."@,
            },
        },
    }
}

/// Chooses the default download directory.
pub fn default_download_dir(
    user_download_dir: &Option<String>,
    home_dir: &Option<String>,
    current_dir: &Option<String>,
    p: Platform,
) -> (r: String)
    ensures
        r@ == spec_default_download_dir(
            user_download_dir.deep_view(),
            home_dir.deep_view(),
            current_dir.deep_view(),
            p,
        ),
{
    match user_download_dir {
        Some(d) => d.clone(),
        None => match home_dir {
            Some(h) => join_path(h, "Downloads", p),
            None => match current_dir {
                Some(c) => c.clone(),
                None => String::from_str("."),
            },
        },
    }
}

/// The outward label of a binary source.
pub fn source_label(source: BinarySource) -> (r: String)
    ensures
        source == BinarySource::System ==> r@ == "system"@,
        source == BinarySource::Bundled ==> r@ == "bundled"@,
{
    match source {
        BinarySource::System => String::from_str("system"),
        BinarySource::Bundled => String::from_str("bundled"),
    }
}

} // verus!
