//! Errors and decisions of the binary installer.
//!
//! Installing a binary means: pick the platform's release URL, fetch it,
//! check the HTTP status, extract or write the executable, and set its
//! permissions.  The fetching and writing are I/O and belong to the
//! embedding application; the decisions — which URL, whether the status is
//! acceptable, which archive entry is the executable — are pure and live in
//! this crate.

use vstd::prelude::*;

use crate::text::{chars_string, push_all, spec_dec, str_chars, u64_to_dec};

verus! {

/// Why an installation failed.
#[derive(Debug, Clone, Copy, PartialEq, Eq, Structural)]
pub enum InstallError {
    /// No release source is known for this platform.
    UnsupportedPlatform,
    /// The release download answered with this non-success HTTP status.
    DownloadFailed(u16),
    /// The release archive could not be read.
    ArchiveUnreadable,
    /// The release archive holds no entry for the expected executable.
    ExecutableNotFound,
}

impl InstallError {
    /// A human-readable cause for the caller.
    pub fn message(&self) -> (r: String)
        ensures
            *self == InstallError::UnsupportedPlatform ==> r@
                == "automatic installation is not supported on this platform"@,
            (*self is DownloadFailed) ==> r@
                == "the release download failed with HTTP status "@ + spec_dec(
                self->DownloadFailed_0 as nat,
            ),
            *self == InstallError::ArchiveUnreadable ==> r@
                == "the release archive could not be read"@,
            *self == InstallError::ExecutableNotFound ==> r@
                == "the release archive holds no matching executable"@,
    {
        match self {
            InstallError::UnsupportedPlatform => String::from_str(
                "automatic installation is not supported on this platform",
            ),
            InstallError::DownloadFailed(s) => {
                let mut chars = str_chars("the release download failed with HTTP status ");
                let digits = u64_to_dec(*s as u64);
                push_all(&mut chars, &digits);
                chars_string(&chars)
            },
            InstallError::ArchiveUnreadable => String::from_str(
                "the release archive could not be read",
            ),
            InstallError::ExecutableNotFound => String::from_str(
                "the release archive holds no matching executable",
            ),
        }
    }
}

/// A fetched release is accepted exactly when its HTTP status is a success
/// status, one of the 2xx class.
pub fn check_download_status(status: u16) -> (r: Result<(), InstallError>)
    ensures
        r is Ok <==> 200 <= status < 300,
        match r {
            Ok(u) => u == (),
            Err(e) => e == InstallError::DownloadFailed(status),
        },
{
    if 200 <= status && status < 300 {
        Ok(())
    } else {
        Err(InstallError::DownloadFailed(status))
    }
}

} // verus!
