//! Building the downloader's argument list.
//!
//! A download request maps to an ordered argument vector: fixed base flags,
//! a browser cookie source when the URL belongs to a known site family and
//! a browser hint was supplied, mode- and quality-dependent format flags,
//! an explicit transcoder location when one is known, site-specific header
//! overrides, and the URL last.  The mapping is pure; the exact list is
//! pinned by [`spec_download_args`].

use vstd::prelude::*;

use crate::text::{
    chars_string, contains, spec_contains, spec_lower, spec_trim, str_chars, to_ascii_lowercase,
    trim,
};

verus! {

/// Whether a request fetches only the audio stream or the full video.
#[derive(Debug, Clone, Copy, PartialEq, Eq, Structural)]
pub enum DownloadMode {
    Audio,
    Video,
}

/// The quality tier of a video request.
#[derive(Debug, Clone, Copy, PartialEq, Eq, Structural)]
pub enum VideoQuality {
    Low,
    Medium,
    Highest,
}

impl Default for VideoQuality {
    /// A request that does not name a quality gets the highest tier.
    fn default() -> (r: Self)
        ensures
            r == VideoQuality::Highest,
    {
        VideoQuality::Highest
    }
}

/// The URL belongs to the bilibili family of sites.
pub open spec fn spec_is_bilibili(url: Seq<char>) -> bool {
    let lower = spec_lower(url);
    spec_contains(lower, "bilibili.com"@) || spec_contains(lower, "b23.tv"@) || spec_contains(
        lower,
        "bilivideo.com"@,
    ) || spec_contains(lower, "acg.tv"@)
}

/// The URL belongs to the douyin family of sites.
pub open spec fn spec_is_douyin(url: Seq<char>) -> bool {
    let lower = spec_lower(url);
    spec_contains(lower, "douyin.com"@) || spec_contains(lower, "iesdouyin.com"@)
}

/// Decides [`spec_is_bilibili`].
pub fn is_bilibili_url(url: &str) -> (r: bool)
    ensures
        r == spec_is_bilibili(url@),
{
    let chars = str_chars(url);
    let lower = to_ascii_lowercase(&chars);
    contains(&lower, &str_chars("bilibili.com")) || contains(&lower, &str_chars("b23.tv"))
        || contains(&lower, &str_chars("bilivideo.com")) || contains(&lower, &str_chars("acg.tv"))
}

/// Decides [`spec_is_douyin`].
pub fn is_douyin_url(url: &str) -> (r: bool)
    ensures
        r == spec_is_douyin(url@),
{
    let chars = str_chars(url);
    let lower = to_ascii_lowercase(&chars);
    contains(&lower, &str_chars("douyin.com")) || contains(&lower, &str_chars("iesdouyin.com"))
}

/// The URL belongs to one of the known video-sharing site families — the
/// bilibili or douyin domains — for which browser cookies are worth
/// importing.
pub open spec fn spec_is_known_site(url: Seq<char>) -> bool {
    spec_is_bilibili(url) || spec_is_douyin(url)
}

/// Decides [`spec_is_known_site`].
pub fn is_known_site_url(url: &str) -> (r: bool)
    ensures
        r == spec_is_known_site(url@),
{
    is_bilibili_url(url) || is_douyin_url(url)
}

/// The format selector for a video request of the given quality tier.
pub open spec fn spec_video_format(quality: VideoQuality, url: Seq<char>) -> Seq<char> {
    match quality {
        VideoQuality::Low => {
            "bv*[height<=480]+ba/b[height<=480]/bv*[height<=720]+ba/b[height<=720]/worst"@
        },
        VideoQuality::Medium => {
            "bv*[height<=1080]+ba/b[height<=1080]/bv*[height<=720]+ba/b[height<=720]/b"@
        },
        VideoQuality::Highest => {
            if spec_is_bilibili(url) {
                "bv*[height>=2160]+ba/bv*[height>=1080]+ba/bv*+ba/b"@
            } else {
                "bv*+ba/b"@
            }
        },
    }
}

/// Chooses the format selector string for a video request.
pub fn video_format_for_quality(quality: VideoQuality, url: &str) -> (r: String)
    ensures
        r@ == spec_video_format(quality, url@),
{
    match quality {
        VideoQuality::Low => String::from_str(
            "bv*[height<=480]+ba/b[height<=480]/bv*[height<=720]+ba/b[height<=720]/worst",
        ),
        VideoQuality::Medium => String::from_str(
            "bv*[height<=1080]+ba/b[height<=1080]/bv*[height<=720]+ba/b[height<=720]/b",
        ),
        VideoQuality::Highest => {
            if is_bilibili_url(url) {
                String::from_str("bv*[height>=2160]+ba/bv*[height>=1080]+ba/bv*+ba/b")
            } else {
                String::from_str("bv*+ba/b")
            }
        },
    }
}

/// The referer sent for douyin URLs.
pub open spec fn douyin_referer() -> Seq<char> {
    "https://www.douyin.com/"@
}

/// The mobile user agent sent for douyin URLs, which rejects default
/// clients.
pub open spec fn douyin_user_agent() -> Seq<char> {
    "Mozilla/5.0 (iPhone; CPU iPhone OS 14_0 like Mac OS X) AppleWebKit/605.1.15 (KHTML, like Gecko) Version/14.0 Mobile/15E148 Safari/604.1"@
}

/// The header overrides appended for specific site families: douyin URLs
/// get a fixed referer and mobile user agent, all other URLs get nothing.
pub open spec fn spec_site_overrides(url: Seq<char>) -> Seq<Seq<char>> {
    if spec_is_douyin(url) {
        seq!["--referer"@, douyin_referer(), "--user-agent"@, douyin_user_agent()]
    } else {
        Seq::empty()
    }
}

/// Appends the site-specific overrides for `url` to `args`.
pub fn apply_site_specific_overrides(args: &mut Vec<String>, url: &str)
    ensures
        final(args).deep_view() == old(args).deep_view() + spec_site_overrides(url@),
{
    let ghost dv0 = args.deep_view();
    if is_douyin_url(url) {
        args.push(String::from_str("--referer"));
        args.push(String::from_str("https://www.douyin.com/"));
        args.push(String::from_str("--user-agent"));
        args.push(
            String::from_str(
                "Mozilla/5.0 (iPhone; CPU iPhone OS 14_0 like Mac OS X) AppleWebKit/605.1.15 (KHTML, like Gecko) Version/14.0 Mobile/15E148 Safari/604.1",
            ),
        );
        proof {
            assert(args.deep_view() =~= dv0 + spec_site_overrides(url@));
        }
    } else {
        proof {
            assert(args.deep_view() =~= dv0 + spec_site_overrides(url@));
        }
    }
}

/// The fixed leading arguments: line-oriented progress, no playlist
/// expansion, resume enabled, no mtime preservation, the output template,
/// and the output directory.
pub open spec fn spec_base_args(output_dir: Seq<char>) -> Seq<Seq<char>> {
    seq![
        "--newline"@,
        "--no-playlist"@,
        "--continue"@,
        "--no-mtime"@,
        "-o"@,
        "%(title)s.%(ext)s"@,
        "-P"@,
        output_dir,
    ]
}

/// The cookie-source arguments: present exactly when the URL belongs to a
/// known video-sharing site family and the request supplied a browser
/// hint that is not blank.
pub open spec fn spec_cookie_args(browser: Option<Seq<char>>, url: Seq<char>) -> Seq<Seq<char>> {
    match browser {
        Some(b) => {
            let t = spec_trim(b);
            if spec_is_known_site(url) && t.len() > 0 {
                seq!["--cookies-from-browser"@, t]
            } else {
                Seq::empty()
            }
        },
        None => Seq::empty(),
    }
}

/// The mode-dependent arguments: audio extraction flags for audio mode, a
/// quality-dependent format selector and output container for video mode.
pub open spec fn spec_mode_args(
    mode: DownloadMode,
    quality: VideoQuality,
    url: Seq<char>,
) -> Seq<Seq<char>> {
    match mode {
        DownloadMode::Audio => {
            seq![
                "-f"@,
                "bestaudio/best"@,
                "-x"@,
                "--audio-format"@,
                "mp3"@,
                "--embed-thumbnail"@,
                "--convert-thumbnails"@,
                "jpg"@,
            ]
        },
        DownloadMode::Video => {
            seq!["-f"@, spec_video_format(quality, url), "--merge-output-format"@, "mp4"@]
        },
    }
}

/// The explicit transcoder location, when a transcoder was resolved.
pub open spec fn spec_location_args(ffmpeg_path: Option<Seq<char>>) -> Seq<Seq<char>> {
    match ffmpeg_path {
        Some(p) => seq!["--ffmpeg-location"@, p],
        None => Seq::empty(),
    }
}

/// The complete argument list for one download invocation.  The URL is the
/// last argument.
pub open spec fn spec_download_args(
    url: Seq<char>,
    mode: DownloadMode,
    quality: VideoQuality,
    browser: Option<Seq<char>>,
    output_dir: Seq<char>,
    ffmpeg_path: Option<Seq<char>>,
) -> Seq<Seq<char>> {
    spec_base_args(output_dir) + spec_cookie_args(browser, url) + spec_mode_args(
        mode,
        quality,
        url,
    ) + spec_location_args(ffmpeg_path) + spec_site_overrides(url) + seq![url]
}

/// Builds the downloader's argument list for one request.
pub fn build_download_args(
    url: &String,
    mode: DownloadMode,
    quality: VideoQuality,
    browser: &Option<String>,
    output_dir: &String,
    ffmpeg_path: &Option<String>,
) -> (r: Vec<String>)
    ensures
        r.deep_view() == spec_download_args(
            url@,
            mode,
            quality,
            browser.deep_view(),
            output_dir@,
            ffmpeg_path.deep_view(),
        ),
{
    let mut args: Vec<String> = Vec::new();
    args.push(String::from_str("--newline"));
    args.push(String::from_str("--no-playlist"));
    args.push(String::from_str("--continue"));
    args.push(String::from_str("--no-mtime"));
    args.push(String::from_str("-o"));
    args.push(String::from_str("%(title)s.%(ext)s"));
    args.push(String::from_str("-P"));
    args.push(output_dir.clone());
    proof {
        assert(args.deep_view() =~= spec_base_args(output_dir@));
    }
    let ghost dv_base = args.deep_view();
    match browser {
        Some(b) => {
            let bc = str_chars(b.as_str());
            let bt = trim(&bc);
            if is_known_site_url(url.as_str()) && bt.len() > 0 {
                args.push(String::from_str("--cookies-from-browser"));
                args.push(chars_string(&bt));
            }
        },
        None => {},
    }
    proof {
        assert(args.deep_view() =~= dv_base + spec_cookie_args(browser.deep_view(), url@));
    }
    let ghost dv_cookie = args.deep_view();
    match mode {
        DownloadMode::Audio => {
            args.push(String::from_str("-f"));
            args.push(String::from_str("bestaudio/best"));
            args.push(String::from_str("-x"));
            args.push(String::from_str("--audio-format"));
            args.push(String::from_str("mp3"));
            args.push(String::from_str("--embed-thumbnail"));
            args.push(String::from_str("--convert-thumbnails"));
            args.push(String::from_str("jpg"));
        },
        DownloadMode::Video => {
            args.push(String::from_str("-f"));
            args.push(video_format_for_quality(quality, url.as_str()));
            args.push(String::from_str("--merge-output-format"));
            args.push(String::from_str("mp4"));
        },
    }
    proof {
        assert(args.deep_view() =~= dv_cookie + spec_mode_args(mode, quality, url@));
    }
    let ghost dv_mode = args.deep_view();
    match ffmpeg_path {
        Some(p) => {
            args.push(String::from_str("--ffmpeg-location"));
            args.push(p.clone());
        },
        None => {},
    }
    proof {
        assert(args.deep_view() =~= dv_mode + spec_location_args(ffmpeg_path.deep_view()));
    }
    let ghost dv_loc = args.deep_view();
    apply_site_specific_overrides(&mut args, url.as_str());
    proof {
        assert(args.deep_view() == dv_loc + spec_site_overrides(url@));
    }
    let ghost dv_site = args.deep_view();
    args.push(url.clone());
    proof {
        assert(args.deep_view() =~= dv_site + seq![url@]);
        assert(args.deep_view() =~= spec_download_args(
            url@,
            mode,
            quality,
            browser.deep_view(),
            output_dir@,
            ffmpeg_path.deep_view(),
        ));
    }
    args
}

/// The argument builder is deterministic: two argument lists built from one
/// and the same request are identical.
pub proof fn lemma_arg_builder_deterministic(
    url: Seq<char>,
    mode: DownloadMode,
    quality: VideoQuality,
    browser: Option<Seq<char>>,
    output_dir: Seq<char>,
    ffmpeg_path: Option<Seq<char>>,
    r1: Seq<Seq<char>>,
    r2: Seq<Seq<char>>,
)
    requires
        r1 == spec_download_args(url, mode, quality, browser, output_dir, ffmpeg_path),
        r2 == spec_download_args(url, mode, quality, browser, output_dir, ffmpeg_path),
    ensures
        r1 == r2,
{
}

/// The URL always stands last in the argument list.
pub proof fn lemma_url_is_last(
    url: Seq<char>,
    mode: DownloadMode,
    quality: VideoQuality,
    browser: Option<Seq<char>>,
    output_dir: Seq<char>,
    ffmpeg_path: Option<Seq<char>>,
)
    ensures
        spec_download_args(url, mode, quality, browser, output_dir, ffmpeg_path).last() == url,
{
}

} // verus!
