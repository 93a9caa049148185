//! Releases, seasons and episodes as a search engine reports them, and the files that
//! episodes are saved to.
use vstd::prelude::*;

use crate::keyed::{entry_views, is_stable_sort_of, numbered_views, parse_keys, sorted_by_number};
use crate::paths::{
    join, join_spec, last_index, name_range, with_added_extension_spec, with_extension,
    with_extension_spec,
};
use crate::text::{decimal, decimal_padded2, push_decimal, push_decimal_padded2};

verus! {

/// What a search in an engine found.
#[derive(Debug, Clone)]
pub struct Response {
    pub releases: Vec<Release>,
}

/// One release of a title: a translation of it, with its seasons where the engine lists them.
#[derive(Debug, Clone)]
pub struct Release {
    pub title: String,
    pub shikimori_id: Option<String>,
    pub translation: Translation,
    pub seasons: Option<Vec<Season>>,
}

/// A season and its episodes, ordered by episode number.
#[derive(Debug, Clone)]
pub struct Season {
    pub title: Option<String>,
    pub episodes: Vec<Episode>,
}

/// An episode: its number and the engine's link to it.
#[derive(Debug, Clone)]
pub struct Episode {
    pub num: u32,
    pub link: String,
}

/// An episode to save: where its playlist is, the file name and the full path to save to.
#[derive(Debug, Clone)]
pub struct EpisodeFile {
    pub m3u8: String,
    pub filename: String,
    pub raw_location: String,
}

/// The team that translated a release.
#[derive(Debug, Clone)]
pub struct Translation {
    pub title: String,
    pub id: u32,
}

/// The episodes as (number, link) pairs.
pub open spec fn episode_pairs(eps: Seq<Episode>) -> Seq<(u32, Seq<char>)> {
    eps.map_values(|e: Episode| (e.num, e.link@))
}

impl Translation {
    /// `"{title} ({id})"`.
    pub open spec fn text(&self) -> Seq<char> {
        self.title@ + " ("@ + decimal(self.id as nat) + ")"@
    }

    /// Takes the team's name and the engine's number for it; the number is converted
    /// with `as u32`.
    pub fn from_source(title: String, id: i32) -> (t: Translation)
        ensures
            t.title == title,
            t.id == id as u32,
    {
        Translation { title, id: id as u32 }
    }

    /// How the translation is shown in a menu.
    pub fn display(&self) -> (s: String)
        ensures
            s@ == self.text(),
    {
        let mut s = String::from_str(self.title.as_str());
        s.append(" (");
        push_decimal(&mut s, self.id as u64);
        s.append(")");
        s
    }
}

impl Release {
    /// `"{title} - {translation}"`.
    pub open spec fn text(&self) -> Seq<char> {
        self.title@ + " - "@ + self.translation.text()
    }

    /// How the release is shown in a menu.
    pub fn display(&self) -> (s: String)
        ensures
            s@ == self.text(),
    {
        let mut s = String::from_str(self.title.as_str());
        s.append(" - ");
        let t = self.translation.display();
        s.append(t.as_str());
        s
    }

    /// A release from the engine's data: each season is given by its title and its
    /// (key, link) episode entries, and becomes a [`Season`] as [`Season::from_entries`] makes it.
    pub fn from_source(
        title: String,
        shikimori_id: Option<String>,
        translation: Translation,
        seasons: Option<Vec<(Option<String>, Vec<(String, String)>)>>,
    ) -> (r: Release)
        ensures
            r.title == title,
            r.shikimori_id == shikimori_id,
            r.translation == translation,
            seasons is None <==> r.seasons is None,
            seasons matches Some(src) ==> r.seasons matches Some(out) && out@.len() == src@.len()
                && forall|i: int|
                0 <= i < src@.len() ==> {
                    &&& #[trigger] out@[i].title == src@[i].0
                    &&& is_stable_sort_of(
                        episode_pairs(out@[i].episodes@),
                        parse_keys(entry_views(src@[i].1@)),
                    )
                },
    {
        let seasons = match seasons {
            None => None,
            Some(src) => {
                let mut out: Vec<Season> = Vec::new();
                let mut src = src;
                let ghost orig = src@;
                let mut rest: Vec<(Option<String>, Vec<(String, String)>)> = Vec::new();
                // take the seasons out in reverse, then rebuild them in order
                while src.len() > 0
                    invariant
                        src@.len() + rest@.len() == orig.len(),
                        src@ == orig.take(src@.len() as int),
                        forall|j: int|
                            0 <= j < rest@.len() ==> #[trigger] rest@[j] == orig[orig.len() - 1
                                - j],
                    decreases src@.len(),
                {
                    let s = src.pop().unwrap();
                    rest.push(s);
                }
                while rest.len() > 0
                    invariant
                        out@.len() + rest@.len() == orig.len(),
                        forall|j: int|
                            0 <= j < rest@.len() ==> #[trigger] rest@[j] == orig[orig.len() - 1
                                - j],
                        forall|i: int|
                            0 <= i < out@.len() ==> {
                                &&& #[trigger] out@[i].title == orig[i].0
                                &&& is_stable_sort_of(
                                    episode_pairs(out@[i].episodes@),
                                    parse_keys(entry_views(orig[i].1@)),
                                )
                            },
                    decreases rest@.len(),
                {
                    let ghost k = out@.len() as int;
                    let (t, entries) = rest.pop().unwrap();
                    assert(orig[k] == (t, entries));
                    let season = Season::from_entries(t, &entries);
                    out.push(season);
                }
                Some(out)
            },
        };
        Release { title, shikimori_id, translation, seasons }
    }
}

impl Season {
    /// `"Сезон {title}: {n} эпизодов"`, or `"{n} эпизодов"` without a title.
    pub open spec fn text(&self) -> Seq<char> {
        match self.title {
            Some(t) => "Сезон "@ + t@ + ": "@ + decimal(self.episodes@.len()) + " эпизодов"@,
            None => decimal(self.episodes@.len()) + " эпизодов"@,
        }
    }

    /// How the season is shown in a menu.
    pub fn display(&self) -> (s: String)
        ensures
            s@ == self.text(),
    {
        let n: u64 = self.episodes.len() as u64;
        match &self.title {
            Some(t) => {
                let mut s = String::from_str("Сезон ");
                s.append(t.as_str());
                s.append(": ");
                push_decimal(&mut s, n);
                s.append(" эпизодов");
                s
            },
            None => {
                let mut s = String::new();
                push_decimal(&mut s, n);
                s.append(" эпизодов");
                s
            },
        }
    }

    /// A season from the engine's episode entries (key, link): the entries whose key
    /// `parse::<u32>()` accepts become episodes with that number, ordered by number, entries
    /// with equal numbers keeping their given order; the others are left out.
    pub fn from_entries(title: Option<String>, entries: &Vec<(String, String)>) -> (s: Season)
        ensures
            s.title == title,
            is_stable_sort_of(episode_pairs(s.episodes@), parse_keys(entry_views(entries@))),
            s.episodes@.len() == parse_keys(entry_views(entries@)).len(),
    {
        let sorted = sorted_by_number(entries);
        let mut episodes: Vec<Episode> = Vec::new();
        let mut j: usize = 0;
        while j < sorted.len()
            invariant
                j <= sorted@.len(),
                episodes@.len() == j,
                forall|m: int|
                    0 <= m < j ==> (#[trigger] episodes@[m]).num == sorted@[m].0
                        && episodes@[m].link@ == sorted@[m].1@,
            decreases sorted@.len() - j,
        {
            let (num, link) = sorted[j];
            episodes.push(Episode { num, link: String::from_str(link) });
            j = j + 1;
        }
        assert(episode_pairs(episodes@) =~= numbered_views(sorted@));
        Season { title, episodes }
    }
}

impl Episode {
    /// An episode with number `num` and a copy of `link`.
    pub fn new(num: u32, link: &str) -> (e: Episode)
        ensures
            e.num == num,
            e.link@ == link@,
    {
        Episode { num, link: String::from_str(link) }
    }

    /// `"{num}: {link}"`.
    pub open spec fn text(&self) -> Seq<char> {
        decimal(self.num as nat) + ": "@ + self.link@
    }

    /// How the episode is shown in a menu.
    pub fn display(&self) -> (s: String)
        ensures
            s@ == self.text(),
    {
        let mut s = String::new();
        push_decimal(&mut s, self.num as u64);
        s.append(": ");
        s.append(self.link.as_str());
        s
    }
}

/// The file name of an episode: `"EP{num:02} - {metadata}"`, or `"EP{num:02}"` without metadata.
pub open spec fn episode_filename(num: u32, metadata: Option<Seq<char>>) -> Seq<char> {
    match metadata {
        Some(d) => "EP"@ + decimal_padded2(num as nat) + " - "@ + d,
        None => "EP"@ + decimal_padded2(num as nat),
    }
}

/// The number in an episode's file name reads back as the episode's number: the name
/// starts with `EP` and then the zero-padded number, which `parse::<u32>()` turns back into it.
pub proof fn lemma_filename_number(num: u32, metadata: Option<Seq<char>>)
    ensures
        episode_filename(num, metadata).take(2) == "EP"@,
        episode_filename(num, metadata).subrange(2, 2 + decimal_padded2(num as nat).len() as int)
            == decimal_padded2(num as nat),
        crate::text::parse_u32_spec(decimal_padded2(num as nat)) == Some(num),
{
    reveal_strlit("EP");
    let d = decimal_padded2(num as nat);
    let f = episode_filename(num, metadata);
    match metadata {
        Some(m) => {
            assert(f == "EP"@ + d + " - "@ + m);
        },
        None => {},
    }
    assert(f.take(2) =~= "EP"@);
    assert(f.subrange(2, 2 + d.len() as int) =~= d);
    crate::text::lemma_parse_decimal_padded2(num as nat, u32::MAX as nat);
}

/// The file that marks an episode as saved is the file its download is moved to, as long
/// as the file name has no dot after its first character (with one, the marker drops what
/// follows the last dot while the download keeps it).
pub proof fn lemma_saved_marker_is_download_target(location: Seq<char>)
    requires
        match name_range(location, location.len() as int) {
            Some((s, e)) => last_index(location.subrange(s, e), '.') <= 0,
            None => true,
        },
    ensures
        with_extension_spec(location, "mp4"@) == with_added_extension_spec(location, "mp4"@),
{
    reveal_strlit("mp4");
}

pub open spec fn opt_view(o: Option<&str>) -> Option<Seq<char>> {
    match o {
        Some(s) => Some(s@),
        None => None,
    }
}

impl EpisodeFile {
    /// The file for `episode`, whose playlist is `m3u8`: named by
    /// [`EpisodeFile::create_filename`] and placed in `output_dir`.
    pub fn new(episode: &Episode, m3u8: String, metadata: Option<&str>, output_dir: &str) -> (f:
        EpisodeFile)
        ensures
            f.m3u8 == m3u8,
            f.filename@ == episode_filename(episode.num, opt_view(metadata)),
            f.raw_location@ == join_spec(output_dir@, f.filename@),
    {
        let filename = Self::create_filename(&episode.num, metadata);
        let raw_location = join(output_dir, filename.as_str());
        EpisodeFile { m3u8, filename, raw_location }
    }

    /// `"EP{num:02} - {metadata}"`, or `"EP{num:02}"` without metadata.
    pub fn create_filename(episode_num: &u32, metadata: Option<&str>) -> (s: String)
        ensures
            s@ == episode_filename(*episode_num, opt_view(metadata)),
    {
        let mut s = String::from_str("EP");
        push_decimal_padded2(&mut s, *episode_num as u64);
        match metadata {
            Some(data) => {
                s.append(" - ");
                s.append(data);
            },
            None => {},
        }
        s
    }

    /// The path whose presence marks the episode as already saved: the location with
    /// its extension set to `mp4`.
    pub fn saved_marker(&self) -> (p: String)
        ensures
            p@ == with_extension_spec(self.raw_location@, "mp4"@),
    {
        with_extension(self.raw_location.as_str(), "mp4")
    }

    /// `"{filename} [загружено]"` when the episode is already saved, else the file name.
    pub open spec fn text(&self, saved: bool) -> Seq<char> {
        if saved {
            self.filename@ + " [загружено]"@
        } else {
            self.filename@
        }
    }

    /// How the episode is shown in a menu, given whether [`EpisodeFile::saved_marker`] exists.
    pub fn display(&self, saved: bool) -> (s: String)
        ensures
            s@ == self.text(saved),
    {
        let mut s = String::from_str(self.filename.as_str());
        if saved {
            s.append(" [загружено]");
        }
        s
    }
}

} // verus!
