//! How releases, seasons and episodes are listed in the menus.
use vstd::prelude::*;

use crate::paths::{join, join_spec};
use crate::standalone::search::{SourceRelease, SourceSeason};
use crate::text::{decimal, push_decimal, push_signed_decimal, signed_decimal};

verus! {

/// A release as a menu shows it.
#[derive(Debug, Clone, Copy)]
pub struct ReleaseItem<'a>(pub &'a SourceRelease);

/// A season and its number as a menu shows them.
#[derive(Debug)]
pub struct SeasonItem(pub u32, pub SourceSeason);

/// An episode to play or save: its number, its link, the file it is saved as and the
/// directory of that file.
#[derive(Debug, Clone)]
pub struct EpisodeItem {
    pub num: u32,
    pub url: String,
    pub filename: String,
    pub output_dir: String,
}

impl<'a> ReleaseItem<'a> {
    /// `"{title} - {translation title} ({translation id})"`.
    pub open spec fn text(&self) -> Seq<char> {
        self.0.title@ + " - "@ + self.0.translation.title@ + " ("@ + signed_decimal(
            self.0.translation.id as int,
        ) + ")"@
    }

    pub fn display(&self) -> (s: String)
        ensures
            s@ == self.text(),
    {
        let mut s = String::from_str(self.0.title.as_str());
        s.append(" - ");
        s.append(self.0.translation.title.as_str());
        s.append(" (");
        push_signed_decimal(&mut s, self.0.translation.id as i64);
        s.append(")");
        s
    }
}

impl SeasonItem {
    /// `"Сезон: {number}, Эпизодов:{episode count}"`.
    pub open spec fn text(&self) -> Seq<char> {
        "Сезон: "@ + decimal(self.0 as nat) + ", Эпизодов:"@ + decimal(self.1.episodes@.len())
    }

    pub fn display(&self) -> (s: String)
        ensures
            s@ == self.text(),
    {
        let mut s = String::from_str("Сезон: ");
        push_decimal(&mut s, self.0 as u64);
        s.append(", Эпизодов:");
        push_decimal(&mut s, self.1.episodes.len() as u64);
        s
    }
}

impl EpisodeItem {
    /// Where the episode is saved: the file name in the output directory.
    pub open spec fn path(&self) -> Seq<char> {
        join_spec(self.output_dir@, self.filename@)
    }

    /// Where the episode is saved.
    pub fn output_path(&self) -> (p: String)
        ensures
            p@ == self.path(),
    {
        join(self.output_dir.as_str(), self.filename.as_str())
    }

    /// Whether the episode is saved already: asks `probe` (whether a file exists) about
    /// [`EpisodeItem::output_path`] and answers what it answered.
    pub fn is_downloaded<F: Fn(&str) -> bool>(&self, probe: &F) -> (r: bool)
        requires
            forall|p: &str| #[trigger] probe.requires((p,)),
        ensures
            exists|p: &str| p@ == self.path() && probe.ensures((p,), r),
    {
        let p = self.output_path();
        let q = p.as_str();
        let r: bool = probe(q);
        assert(q@ == self.path());
        r
    }

    /// `"Эпизод {num} [загружено]"` when saved, else `"Эпизод {num}"`.
    pub open spec fn text(&self, saved: bool) -> Seq<char> {
        if saved {
            "Эпизод "@ + decimal(self.num as nat) + " [загружено]"@
        } else {
            "Эпизод "@ + decimal(self.num as nat)
        }
    }

    pub fn display(&self, saved: bool) -> (s: String)
        ensures
            s@ == self.text(saved),
    {
        let mut s = String::from_str("Эпизод ");
        push_decimal(&mut s, self.num as u64);
        if saved {
            s.append(" [загружено]");
        }
        s
    }
}

} // verus!
