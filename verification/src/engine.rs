//! What the Kodik engine decides: the page to resolve and the stream link to use.
use vstd::prelude::*;

use crate::config::{Engines, Quality};
use crate::error::EngineError;

verus! {

/// The stream links a Kodik player page offers, by quality (the `src` of each link).
#[derive(Debug)]
pub struct QualityLinks {
    pub quality_720: Vec<String>,
    pub quality_480: Vec<String>,
    pub quality_360: Vec<String>,
}

impl QualityLinks {
    /// The links offered in `quality`.
    pub open spec fn of(&self, quality: Quality) -> Seq<String> {
        match quality {
            Quality::Hd720p => self.quality_720@,
            Quality::Sd480p => self.quality_480@,
            Quality::Low360p => self.quality_360@,
        }
    }
}

/// The page of an episode link: the engine gives links without a scheme, so `https:` is
/// put in front.
pub fn player_url(link: &str) -> (u: String)
    ensures
        u@ == "https:"@ + link@,
{
    let mut u = String::from_str("https:");
    u.append(link);
    u
}

/// The first link offered in `quality`; when there is none, the error that names the page
/// `url` and the Kodik engine.
pub fn pick_link(links: &QualityLinks, quality: Quality, url: String) -> (r: Result<
    String,
    EngineError,
>)
    ensures
        links.of(quality).len() > 0 ==> r == Ok::<String, EngineError>(links.of(quality)[0]),
        links.of(quality).len() == 0 ==> r == Err::<String, EngineError>(
            EngineError::ResolveError { url, engine: Engines::Kodik },
        ),
{
    let list = match quality {
        Quality::Hd720p => &links.quality_720,
        Quality::Sd480p => &links.quality_480,
        Quality::Low360p => &links.quality_360,
    };
    if list.len() > 0 {
        Ok(list[0].clone())
    } else {
        Err(EngineError::ResolveError { url, engine: Engines::Kodik })
    }
}

} // verus!
