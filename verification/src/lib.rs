//! Verified core of an anime search, playback and download tool.
use vstd::prelude::*;

pub mod cli;
pub mod config;
pub mod download;
pub mod engine;
pub mod engines;
pub mod error;
pub mod keyed;
pub mod paths;
pub mod play;
pub mod shikimori;
pub mod standalone;
pub mod text;
pub mod types;

verus! {
} // verus!
