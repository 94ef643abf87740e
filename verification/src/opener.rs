//! Opening a directory in the platform's file manager.
//!
//! The caller hands in a path that may start with `~`; the crate expands
//! it, rejects blank or non-directory targets, and names the native command
//! to run.  Running the command, like every other process spawn, is the
//! embedding application's task; the outcome is interpreted here.

use vstd::prelude::*;

use crate::download::{exit_status_message, spec_exit_status_message};
use crate::platform::{join_path, spec_join_path, Platform};
use crate::text::{
    chars_eq, chars_string, push_all, spec_trim, starts_with, str_chars, subvec, trim,
};

verus! {

/// Why a directory could not be opened.
#[derive(Debug, Clone, Copy, PartialEq, Eq)]
pub enum OpenError {
    /// The given path was empty or only whitespace.
    EmptyPath,
    /// The path starts with `~` but no home directory is known.
    HomeNotFound,
    /// The expanded path does not exist.
    PathMissing,
    /// The expanded path is not a directory.
    NotADirectory,
    /// No file-manager command is known for this platform.
    Unsupported,
    /// The file-manager command exited with a non-zero status, carrying
    /// this exit code when the platform reported one.
    CommandFailed(Option<i32>),
}

impl OpenError {
    /// A human-readable cause for the caller.
    pub fn message(&self) -> (r: String)
        ensures
            *self == OpenError::EmptyPath ==> r@ == "a non-empty directory path is required"@,
            *self == OpenError::HomeNotFound ==> r@ == "the home directory could not be located"@,
            *self == OpenError::PathMissing ==> r@ == "the target path does not exist"@,
            *self == OpenError::NotADirectory ==> r@ == "only directory paths can be opened"@,
            *self == OpenError::Unsupported ==> r@
                == "opening directories is not supported on this platform"@,
            (*self is CommandFailed) ==> r@ == "the file manager exited with code "@
                + spec_exit_status_message(self->CommandFailed_0),
    {
        match self {
            OpenError::EmptyPath => String::from_str("a non-empty directory path is required"),
            OpenError::HomeNotFound => String::from_str(
                "the home directory could not be located",
            ),
            OpenError::PathMissing => String::from_str("the target path does not exist"),
            OpenError::NotADirectory => String::from_str("only directory paths can be opened"),
            OpenError::Unsupported => String::from_str(
                "opening directories is not supported on this platform",
            ),
            OpenError::CommandFailed(code) => {
                let mut chars = str_chars("the file manager exited with code ");
                let tail = str_chars(exit_status_message(*code).as_str());
                push_all(&mut chars, &tail);
                chars_string(&chars)
            },
        }
    }
}

/// A leading `~` expanded to the home directory: `~` alone becomes the
/// home directory, `~/rest` and `~\rest` become the home directory with
/// `rest` joined on, and any other path stands as it is.  Expansion fails
/// only when a `~` form is used and no home directory is known.
pub open spec fn spec_expand_user(
    input: Seq<char>,
    home: Option<Seq<char>>,
    p: Platform,
) -> Result<Seq<char>, OpenError> {
    if input == "~"@ {
        match home {
            Some(h) => Ok(h),
            None => Err(OpenError::HomeNotFound),
        }
    } else if spec_starts_tilde(input) {
        match home {
            Some(h) => Ok(spec_join_path(h, input.subrange(2, input.len() as int), p)),
            None => Err(OpenError::HomeNotFound),
        }
    } else {
        Ok(input)
    }
}

/// `input` starts with `~/` or `~\`.
pub open spec fn spec_starts_tilde(input: Seq<char>) -> bool {
    crate::text::spec_starts_with(input, "~/"@) || crate::text::spec_starts_with(input, "~\\"@)
}

/// Expands a leading `~` in `input` to the home directory handed in by
/// the caller.
pub fn expand_user_path(input: &str, home: &Option<String>, p: Platform) -> (r: Result<
    String,
    OpenError,
>)
    ensures
        match r {
            Ok(path) => spec_expand_user(input@, home.deep_view(), p) == Ok::<_, OpenError>(
                path@,
            ),
            Err(e) => spec_expand_user(input@, home.deep_view(), p) == Err::<Seq<char>, _>(e),
        },
{
    proof {
        reveal_strlit("~");
        reveal_strlit("~/");
        reveal_strlit("~\\");
    }
    let chars = str_chars(input);
    let tilde = str_chars("~");
    let tilde_slash = str_chars("~/");
    let tilde_back = str_chars("~\\");
    if chars_eq(&chars, &tilde) {
        match home {
            Some(h) => Ok(h.clone()),
            None => Err(OpenError::HomeNotFound),
        }
    } else if starts_with(&chars, &tilde_slash) || starts_with(&chars, &tilde_back) {
        match home {
            Some(h) => {
                let rest = subvec(&chars, 2, chars.len());
                let rest_string = chars_string(&rest);
                Ok(join_path(h, rest_string.as_str(), p))
            },
            None => Err(OpenError::HomeNotFound),
        }
    } else {
        Ok(chars_string(&chars))
    }
}

/// Validates and expands the path of an open-directory request: the
/// trimmed path must be non-empty, then a leading `~` is expanded.  This
/// runs before any filesystem probe.
pub fn open_directory_target(path: &str, home: &Option<String>, p: Platform) -> (r: Result<
    String,
    OpenError,
>)
    ensures
        match r {
            Ok(expanded) => spec_trim(path@).len() > 0 && spec_expand_user(
                spec_trim(path@),
                home.deep_view(),
                p,
            ) == Ok::<_, OpenError>(expanded@),
            Err(e) => {
                ||| (e == OpenError::EmptyPath && spec_trim(path@).len() == 0)
                ||| (spec_trim(path@).len() > 0 && spec_expand_user(
                    spec_trim(path@),
                    home.deep_view(),
                    p,
                ) == Err::<Seq<char>, _>(e))
            },
        },
{
    let chars = str_chars(path);
    let trimmed = trim(&chars);
    if trimmed.len() == 0 {
        return Err(OpenError::EmptyPath);
    }
    let trimmed_string = chars_string(&trimmed);
    expand_user_path(trimmed_string.as_str(), home, p)
}

/// An existing directory may be opened; a missing path or a non-directory
/// is rejected, in that order.
pub fn check_directory(exists: bool, is_dir: bool) -> (r: Result<(), OpenError>)
    ensures
        r is Ok <==> (exists && is_dir),
        match r {
            Ok(u) => u == (),
            Err(e) => {
                ||| (e == OpenError::PathMissing && !exists)
                ||| (e == OpenError::NotADirectory && exists && !is_dir)
            },
        },
{
    if !exists {
        Err(OpenError::PathMissing)
    } else if !is_dir {
        Err(OpenError::NotADirectory)
    } else {
        Ok(())
    }
}

/// The native file-manager invocation for a path, when the platform has
/// one: `open` on macOS, `xdg-open` on Linux, `explorer` on Windows — with
/// a `/select,` argument there when the target is not a directory.
pub open spec fn spec_file_manager_command(p: Platform, path: Seq<char>, is_dir: bool) -> Option<
    (Seq<char>, Seq<Seq<char>>),
> {
    match p {
        Platform::MacOs => Some(("open"@, seq![path])),
        Platform::Linux => Some(("xdg-open"@, seq![path])),
        Platform::Windows => Some(
            (
                "explorer"@,
                if is_dir {
                    seq![path]
                } else {
                    seq!["/select,"@ + path]
                },
            ),
        ),
        Platform::Other => None,
    }
}

/// Names the program and arguments that open `path` in the platform's
/// file manager; the embedding application runs them.
pub fn open_in_file_manager(p: Platform, path: &String, is_dir: bool) -> (r: Result<
    (String, Vec<String>),
    OpenError,
>)
    ensures
        match r {
            Ok(cmd) => spec_file_manager_command(p, path@, is_dir) == Some(
                (cmd.0@, cmd.1.deep_view()),
            ),
            Err(e) => e == OpenError::Unsupported && spec_file_manager_command(
                p,
                path@,
                is_dir,
            ) is None,
        },
{
    match p {
        Platform::MacOs => {
            let mut args: Vec<String> = Vec::new();
            args.push(path.clone());
            proof {
                assert(args.deep_view() =~= seq![path@]);
            }
            Ok((String::from_str("open"), args))
        },
        Platform::Linux => {
            let mut args: Vec<String> = Vec::new();
            args.push(path.clone());
            proof {
                assert(args.deep_view() =~= seq![path@]);
            }
            Ok((String::from_str("xdg-open"), args))
        },
        Platform::Windows => {
            let mut args: Vec<String> = Vec::new();
            if is_dir {
                args.push(path.clone());
                proof {
                    assert(args.deep_view() =~= seq![path@]);
                }
            } else {
                let mut arg = str_chars("/select,");
                let path_chars = str_chars(path.as_str());
                push_all(&mut arg, &path_chars);
                args.push(chars_string(&arg));
                proof {
                    assert(args.deep_view() =~= seq!["/select,"@ + path@]);
                }
            }
            Ok((String::from_str("explorer"), args))
        },
        Platform::Other => Err(OpenError::Unsupported),
    }
}

/// Interprets the file-manager command's exit: success opens the
/// directory, anything else is reported with the exit code.
pub fn command_outcome(success: bool, code: Option<i32>) -> (r: Result<(), OpenError>)
    ensures
        r is Ok <==> success,
        match r {
            Ok(u) => u == (),
            Err(e) => e == OpenError::CommandFailed(code),
        },
{
    if success {
        Ok(())
    } else {
        Err(OpenError::CommandFailed(code))
    }
}

} // verus!
