//! The engine kinds and qualities as the engine interface names them.
use vstd::prelude::*;

verus! {

/// The services that list releases.
#[derive(Debug, Clone, Copy, PartialEq, Eq, Structural)]
pub enum Engines {
    Kodik,
}

/// The video qualities an engine can be asked for.
#[derive(Debug, Clone, Copy, PartialEq, Eq, Structural)]
pub enum Quality {
    Hd720p,
    Sd480p,
    Low360p,
}

} // verus!
