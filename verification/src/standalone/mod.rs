//! The single-program flavour of the tool: it reads the engine's answers directly and
//! knows only Kodik, mpv and ffmpeg.
use vstd::prelude::*;

pub mod cli;
pub mod config;
pub mod error;
pub mod media;
pub mod search;
pub mod shikimori;
pub mod types;

verus! {
} // verus!
