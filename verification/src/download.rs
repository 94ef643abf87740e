//! Planning and finishing one download invocation.
//!
//! A request is validated and turned into a [`DownloadPlan`] — the session
//! identifier, the resolved output directory and the full argument list —
//! before any process is spawned.  After the process exits, the buffered
//! stream output is aggregated into a [`DownloadResponse`].  Everything here
//! is a pure function of its inputs; spawning, waiting and reading pipes are
//! the embedding application's task.

use vstd::prelude::*;

use crate::args::{build_download_args, spec_download_args, DownloadMode, VideoQuality};
use crate::events::{spec_aggregate, StreamBuffer};
use crate::text::{
    chars_string, push_all, spec_dec, spec_trim, str_chars, trim, u64_to_dec,
};

verus! {

/// One download request, as the caller hands it in.
#[derive(Debug, Clone)]
pub struct DownloadRequest {
    /// The media URL; must not be blank.
    pub url: String,
    /// Audio-only or full video.
    pub mode: DownloadMode,
    /// An optional browser to import cookies from.
    pub browser: Option<String>,
    /// An optional output directory; blank or absent means the platform's
    /// download folder.
    pub output_dir: Option<String>,
    /// An optional caller-chosen session identifier.
    pub session_id: Option<String>,
    /// The quality tier of a video request.
    pub quality: VideoQuality,
}

/// Why a request was rejected before any process was spawned.
#[derive(Debug, Clone, Copy, PartialEq, Eq, Structural)]
pub enum DownloadPlanError {
    /// The URL was empty or only whitespace.
    EmptyUrl,
    /// An audio request needs the transcoder, and none was found.
    TranscoderMissing,
}

impl DownloadPlanError {
    /// A human-readable cause for the caller.
    pub fn message(&self) -> (r: String)
        ensures
            *self == DownloadPlanError::EmptyUrl ==> r@ == "a non-empty media URL is required"@,
            *self == DownloadPlanError::TranscoderMissing ==> r@
                == "no transcoder was found on the system or bundled; audio downloads need one"@,
    {
        match self {
            DownloadPlanError::EmptyUrl => String::from_str("a non-empty media URL is required"),
            DownloadPlanError::TranscoderMissing => String::from_str(
                "no transcoder was found on the system or bundled; audio downloads need one",
            ),
        }
    }
}

/// Validates the request's URL: trimmed it must be non-empty.  Rejection
/// happens here, before any resolution, spawn or network use.
pub fn validate_url(url: &str) -> (r: Result<String, DownloadPlanError>)
    ensures
        match r {
            Ok(t) => spec_trim(url@).len() > 0 && t@ == spec_trim(url@),
            Err(e) => e == DownloadPlanError::EmptyUrl && spec_trim(url@).len() == 0,
        },
{
    let chars = str_chars(url);
    let t = trim(&chars);
    if t.len() == 0 {
        Err(DownloadPlanError::EmptyUrl)
    } else {
        Ok(chars_string(&t))
    }
}

/// The session identifier of an invocation: the caller's own identifier
/// verbatim when one was supplied, otherwise one derived from the clock
/// reading, with a fixed last-resort identifier when no reading was
/// available.
pub open spec fn spec_session_id(supplied: Option<Seq<char>>, now_millis: Option<u64>) -> Seq<
    char,
> {
    match supplied {
        Some(s) => s,
        None => match now_millis {
            Some(t) => "session-"@ + spec_dec(t as nat),
            None => "session-0"@,
        },
    }
}

/// Chooses the session identifier for one invocation.  `now_millis` is the
/// caller's clock reading (milliseconds since the epoch), absent when the
/// clock could not be read.
pub fn session_identifier(supplied: &Option<String>, now_millis: Option<u64>) -> (r: String)
    ensures
        r@ == spec_session_id(supplied.deep_view(), now_millis),
{
    match supplied {
        Some(s) => s.clone(),
        None => match now_millis {
            Some(t) => {
                let mut chars = str_chars("session-");
                let digits = u64_to_dec(t);
                push_all(&mut chars, &digits);
                chars_string(&chars)
            },
            None => String::from_str("session-0"),
        },
    }
}

/// The output directory of an invocation: the requested one when it is not
/// blank, otherwise the platform default handed in by the caller.
pub open spec fn spec_output_dir(requested: Option<Seq<char>>, default_dir: Seq<char>) -> Seq<
    char,
> {
    match requested {
        Some(d) => {
            if spec_trim(d).len() > 0 {
                spec_trim(d)
            } else {
                default_dir
            }
        },
        None => default_dir,
    }
}

/// Resolves the output directory of a request.
pub fn resolve_output_dir(requested: &Option<String>, default_dir: &String) -> (r: String)
    ensures
        r@ == spec_output_dir(requested.deep_view(), default_dir@),
{
    match requested {
        Some(d) => {
            let chars = str_chars(d.as_str());
            let t = trim(&chars);
            if t.len() > 0 {
                chars_string(&t)
            } else {
                default_dir.clone()
            }
        },
        None => default_dir.clone(),
    }
}

/// Everything needed to spawn one download: computed before the spawn, so
/// that every rejection happens first.
#[derive(Debug, Clone)]
pub struct DownloadPlan {
    /// The identifier every event of this invocation will carry.
    pub session_id: String,
    /// The directory the downloader writes into.
    pub output_dir: String,
    /// The full argument list, URL last.
    pub args: Vec<String>,
}

/// Turns a request into a plan.  `ffmpeg_path` is the resolved transcoder
/// path, absent when none was found; `default_output_dir` is the platform
/// download folder; `now_millis` is a clock reading for the session
/// identifier.
///
/// The plan is produced if and only if the URL is non-blank and, for an
/// audio request, a transcoder is available; an audio request without a
/// transcoder fails fast, before any process could be spawned.
pub fn plan_download(
    request: &DownloadRequest,
    ffmpeg_path: &Option<String>,
    default_output_dir: &String,
    now_millis: Option<u64>,
) -> (r: Result<DownloadPlan, DownloadPlanError>)
    ensures
        match r {
            Ok(plan) => {
                &&& spec_trim(request.url@).len() > 0
                &&& (request.mode == DownloadMode::Audio ==> ffmpeg_path is Some)
                &&& plan.session_id@ == spec_session_id(
                    request.session_id.deep_view(),
                    now_millis,
                )
                &&& plan.output_dir@ == spec_output_dir(
                    request.output_dir.deep_view(),
                    default_output_dir@,
                )
                &&& plan.args.deep_view() == spec_download_args(
                    spec_trim(request.url@),
                    request.mode,
                    request.quality,
                    request.browser.deep_view(),
                    plan.output_dir@,
                    ffmpeg_path.deep_view(),
                )
            },
            Err(e) => {
                ||| (e == DownloadPlanError::EmptyUrl && spec_trim(request.url@).len() == 0)
                ||| (e == DownloadPlanError::TranscoderMissing && spec_trim(request.url@).len() > 0
                    && request.mode == DownloadMode::Audio && ffmpeg_path is None)
            },
        },
        r is Ok <==> (spec_trim(request.url@).len() > 0 && (request.mode == DownloadMode::Audio
            ==> ffmpeg_path is Some)),
{
    let url = match validate_url(request.url.as_str()) {
        Ok(u) => u,
        Err(e) => {
            return Err(e);
        },
    };
    if matches!(request.mode, DownloadMode::Audio) && ffmpeg_path.is_none() {
        return Err(DownloadPlanError::TranscoderMissing);
    }
    let session_id = session_identifier(&request.session_id, now_millis);
    let output_dir = resolve_output_dir(&request.output_dir, default_output_dir);
    let args = build_download_args(
        &url,
        request.mode,
        request.quality,
        &request.browser,
        &output_dir,
        ffmpeg_path,
    );
    Ok(DownloadPlan { session_id, output_dir, args })
}

/// The final response of one invocation: whether the process completed
/// with a zero status, the aggregated text of each stream, and the
/// directory downloads were written to.
#[derive(Debug, Clone)]
pub struct DownloadResponse {
    /// The process exited with status zero.  Nonzero exit is data, not a
    /// failure of the invocation.
    pub success: bool,
    /// The buffered standard output, newline-joined and trimmed.
    pub stdout: String,
    /// The buffered standard error, newline-joined and trimmed.
    pub stderr: String,
    /// The resolved output directory.
    pub output_dir: String,
}

/// Builds the final response from the exit status and the two stream
/// buffers, after both readers have drained.  The response is a function
/// of the buffers' contents alone: whatever lines were buffered when the
/// invocation ended — also by cancellation — is exactly what is reported,
/// no more.
pub fn finish_download(
    exit_success: bool,
    stdout_buf: &StreamBuffer,
    stderr_buf: &StreamBuffer,
    output_dir: &String,
) -> (r: DownloadResponse)
    ensures
        r.success == exit_success,
        r.stdout@ == spec_aggregate(stdout_buf@),
        r.stderr@ == spec_aggregate(stderr_buf@),
        r.output_dir@ == output_dir@,
{
    DownloadResponse {
        success: exit_success,
        stdout: stdout_buf.aggregated(),
        stderr: stderr_buf.aggregated(),
        output_dir: output_dir.clone(),
    }
}

/// The text shown for a process exit status: its code in decimal, or a
/// fixed word when the platform reports none.
pub open spec fn spec_exit_status_message(code: Option<i32>) -> Seq<char> {
    match code {
        Some(c) => {
            if c < 0 {
                seq!['-'] + spec_dec((-(c as int)) as nat)
            } else {
                spec_dec(c as nat)
            }
        },
        None => "unknown"@,
    }
}

/// Formats a process exit code for error messages.
pub fn exit_status_message(code: Option<i32>) -> (r: String)
    ensures
        r@ == spec_exit_status_message(code),
{
    match code {
        Some(c) => {
            let wide: i64 = c as i64;
            if wide < 0 {
                let mut chars: Vec<char> = Vec::new();
                chars.push('-');
                let digits = u64_to_dec((-wide) as u64);
                push_all(&mut chars, &digits);
                proof {
                    assert(chars@ =~= seq!['-'] + spec_dec((-(c as int)) as nat));
                }
                chars_string(&chars)
            } else {
                chars_string(&u64_to_dec(wide as u64))
            }
        },
        None => String::from_str("unknown"),
    }
}

} // verus!
