//! Playing and saving episodes: what to play, how ffmpeg is run, and what its runs mean.
use vstd::prelude::*;

use crate::download::ffmpeg::{string_views, EXTERNAL_IDLE_TIMEOUT_SECS};
use crate::download::retry::MAX_ATTEMPTS;
use crate::engine::QualityLinks;
use crate::paths::{file_name, file_name_spec, with_extension, with_extension_spec};
use crate::standalone::error::{Crash, NotFound};
use crate::standalone::types::EpisodeItem;
use crate::text::{decimal, push_decimal};

verus! {

/// What to play.
#[derive(Debug)]
pub enum PlaySource {
    /// The saved file at this path.
    Local(String),
    /// The stream behind this player page, resolved first.
    Remote(String),
}

/// The saved file when the episode is saved, else the player page of its link (`https:` in
/// front of it).
pub fn play_source(episode: &EpisodeItem, saved: bool) -> (p: PlaySource)
    ensures
        saved ==> (p matches PlaySource::Local(f) && f@ == episode.path()),
        !saved ==> (p matches PlaySource::Remote(u) && u@ == "https:"@ + episode.url@),
{
    if saved {
        PlaySource::Local(episode.output_path())
    } else {
        PlaySource::Remote(crate::engine::player_url(episode.url.as_str()))
    }
}

/// The first 720p stream, or `NotFound::Url720p`.
pub fn first_720p(links: &QualityLinks) -> (r: Result<String, NotFound>)
    ensures
        links.quality_720@.len() > 0 ==> r == Ok::<String, NotFound>(links.quality_720@[0]),
        links.quality_720@.len() == 0 ==> r == Err::<String, NotFound>(NotFound::Url720p),
{
    if links.quality_720.len() > 0 {
        Ok(links.quality_720[0].clone())
    } else {
        Err(NotFound::Url720p)
    }
}

/// Where a download into `output_path` is written while it runs (extension set to `tmp`).
pub fn temp_path(output_path: &str) -> (p: String)
    ensures
        p@ == with_extension_spec(output_path@, "tmp"@),
{
    with_extension(output_path, "tmp")
}

/// The arguments ffmpeg is run with to copy `url` into `path` as mp4, sending Kodik's
/// player as the referer.
pub open spec fn ffmpeg_args_spec(url: Seq<char>, path: Seq<char>) -> Seq<Seq<char>> {
    seq![
        "-headers"@, "Referer: https://kodikplayer.com/\r\n"@,
        "-timeout"@, "30000000"@,
        "-reconnect"@, "1"@,
        "-reconnect_streamed"@, "1"@,
        "-reconnect_delay_max"@, "5"@,
        "-loglevel"@, "error"@,
        "-i"@, url,
        "-c"@, "copy"@,
        "-f"@, "mp4"@,
        "-progress"@, "pipe:1"@,
        path,
    ]
}

fn push_str(v: &mut Vec<String>, s: &str)
    ensures
        string_views(final(v)@) == string_views(old(v)@).push(s@),
{
    let ghost before = v@;
    v.push(String::from_str(s));
    assert(string_views(v@) =~= string_views(before).push(s@));
}

/// The arguments ffmpeg is run with.
pub fn ffmpeg_args(url: &str, path: &str) -> (r: Vec<String>)
    ensures
        string_views(r@) == ffmpeg_args_spec(url@, path@),
{
    let mut v: Vec<String> = Vec::new();
    push_str(&mut v, "-headers");
    push_str(&mut v, "Referer: https://kodikplayer.com/\r\n");
    push_str(&mut v, "-timeout");
    push_str(&mut v, "30000000");
    push_str(&mut v, "-reconnect");
    push_str(&mut v, "1");
    push_str(&mut v, "-reconnect_streamed");
    push_str(&mut v, "1");
    push_str(&mut v, "-reconnect_delay_max");
    push_str(&mut v, "5");
    push_str(&mut v, "-loglevel");
    push_str(&mut v, "error");
    push_str(&mut v, "-i");
    push_str(&mut v, url);
    push_str(&mut v, "-c");
    push_str(&mut v, "copy");
    push_str(&mut v, "-f");
    push_str(&mut v, "mp4");
    push_str(&mut v, "-progress");
    push_str(&mut v, "pipe:1");
    push_str(&mut v, path);
    assert(string_views(v@) =~= ffmpeg_args_spec(url@, path@));
    v
}

/// `"{file name} — попытка {attempt}/{MAX_ATTEMPTS}"`, the file name being empty when the
/// path has none.
pub open spec fn attempt_text(output_path: Seq<char>, attempt: u32) -> Seq<char> {
    (match file_name_spec(output_path) {
        Some(n) => n,
        None => Seq::empty(),
    }) + " — попытка "@ + decimal(attempt as nat) + "/"@ + decimal(MAX_ATTEMPTS as nat)
}

/// The progress message of a failed try.
pub fn attempt_message(output_path: &str, attempt: u32) -> (s: String)
    ensures
        s@ == attempt_text(output_path@, attempt),
{
    let mut s = match file_name(output_path) {
        Some(n) => n,
        None => String::new(),
    };
    s.append(" — попытка ");
    push_decimal(&mut s, attempt as u64);
    s.append("/");
    push_decimal(&mut s, MAX_ATTEMPTS as u64);
    s
}

/// The error of a run stopped for silence.
pub fn idle_timeout_error() -> (e: Crash)
    ensures
        e == Crash::Timeout(EXTERNAL_IDLE_TIMEOUT_SECS),
{
    Crash::Timeout(EXTERNAL_IDLE_TIMEOUT_SECS)
}

/// How ffmpeg's exit ends the try: success, or a crash carrying its error output.
pub fn ffmpeg_exit(success: bool, stderr: String) -> (r: Result<(), Crash>)
    ensures
        success ==> r is Ok,
        !success ==> r == Err::<(), Crash>(Crash::Ffmpeg(stderr)),
{
    if success {
        Ok(())
    } else {
        Err(Crash::Ffmpeg(stderr))
    }
}

/// How mpv's exit ends playback.
pub fn mpv_exit(success: bool) -> (r: Result<(), Crash>)
    ensures
        success ==> r is Ok,
        !success ==> r == Err::<(), Crash>(Crash::Mpv),
{
    if success {
        Ok(())
    } else {
        Err(Crash::Mpv)
    }
}

} // verus!
