//! Saving episodes: playlists, downloader runs and their retries.
use vstd::prelude::*;

pub mod ffmpeg;
pub mod playlist;
pub mod retry;

verus! {

/// What a progress report says of a download.
#[derive(Debug, Clone, Copy, PartialEq, Eq, Structural)]
pub enum Status {
    Downloading,
    Finished,
    FailAttempt,
    Failed,
}

} // verus!
