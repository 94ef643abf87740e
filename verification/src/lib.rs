//! Provisioning and supervision logic for an external media-downloading
//! tool.
//!
//! The crate resolves the downloader and transcoder binaries, plans their
//! installation, builds the downloader's argument list for a request,
//! parses its progress lines into structured events, and aggregates its
//! buffered output — all as pure functions with verified contracts.
//! Process spawning, networking and filesystem probes are left to the
//! embedding application, which feeds their results in as plain values and
//! performs the actions the library decides on.

pub mod archive;
pub mod args;
pub mod download;
pub mod events;
pub mod ffmpeg;
pub mod install;
pub mod opener;
pub mod path_search;
pub mod platform;
pub mod preview;
pub mod progress;
pub mod text;
pub mod yt_dlp;
