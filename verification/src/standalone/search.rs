//! Reading the engine's answer: its releases, their seasons and the episodes of a season.
use vstd::prelude::*;

use crate::keyed::{
    entry_views, is_stable_sort_of, lemma_parse_keys_map, lemma_stable_sort_map, numbered_views,
    parse_keys, parse_keys_of, sorted_by_number, stable_sort_by_key, key_views,
};
use crate::standalone::error::NotFound;
use crate::text::decimal;

verus! {

/// A title as a Shikimori search lists it.
#[derive(Debug)]
pub struct ShikimoriAnime {
    pub id: u64,
    pub name: String,
    pub russian: Option<String>,
}

impl ShikimoriAnime {
    /// `"{title} ({id})"`, the title being the Russian one when there is one.
    pub open spec fn text(&self) -> Seq<char> {
        (match self.russian {
            Some(r) => r@,
            None => self.name@,
        }) + " ("@ + decimal(self.id as nat) + ")"@
    }

    pub fn display(&self) -> (s: String)
        ensures
            s@ == self.text(),
    {
        let mut s = match &self.russian {
            Some(r) => String::from_str(r.as_str()),
            None => String::from_str(self.name.as_str()),
        };
        s.append(" (");
        crate::text::push_decimal(&mut s, self.id);
        s.append(")");
        s
    }
}

/// The team that translated a release, as the engine gives it.
#[derive(Debug, Clone)]
pub struct SourceTranslation {
    pub id: i32,
    pub title: String,
}

/// A season as the engine gives it: its episodes as (key, link) entries in the engine's order.
#[derive(Debug, Clone)]
pub struct SourceSeason {
    pub title: Option<String>,
    pub episodes: Vec<(String, String)>,
}

/// A release as the engine gives it: its seasons as (key, season) entries in the engine's
/// order, when it lists them.
#[derive(Debug, Clone)]
pub struct SourceRelease {
    pub title: String,
    pub translation: SourceTranslation,
    pub seasons: Option<Vec<(String, SourceSeason)>>,
}

/// The releases of the answer; `NotFound::Releases` when there are none.
pub fn get_releases(results: &Vec<SourceRelease>) -> (r: Result<Vec<&SourceRelease>, NotFound>)
    ensures
        results@.len() == 0 ==> r == Err::<Vec<&SourceRelease>, NotFound>(NotFound::Releases),
        results@.len() > 0 ==> (r matches Ok(v) && v@.len() == results@.len() && forall|i: int|
            0 <= i < v@.len() ==> *v@[i] == results@[i]),
{
    let mut v: Vec<&SourceRelease> = Vec::new();
    let mut i: usize = 0;
    while i < results.len()
        invariant
            i <= results@.len(),
            v@.len() == i,
            forall|j: int| 0 <= j < i ==> *v@[j] == results@[j],
        decreases results@.len() - i,
    {
        v.push(&results[i]);
        i = i + 1;
    }
    if v.len() == 0 {
        Err(NotFound::Releases)
    } else {
        Ok(v)
    }
}

/// Some release lists no seasons.
pub open spec fn some_without_seasons(rs: Seq<SourceRelease>) -> bool {
    exists|i: int| 0 <= i < rs.len() && (#[trigger] rs[i]).seasons is None
}

/// The (key, season) entries of all releases, release after release.
pub open spec fn season_entries(rs: Seq<SourceRelease>) -> Seq<(Seq<char>, SourceSeason)>
    decreases rs.len(),
{
    if rs.len() == 0 {
        Seq::empty()
    } else {
        season_entries(rs.drop_last()) + match rs.last().seasons {
            Some(v) => list_views(v@),
            None => Seq::empty(),
        }
    }
}

pub open spec fn list_views(l: Seq<(String, SourceSeason)>) -> Seq<(Seq<char>, SourceSeason)> {
    l.map_values(|e: (String, SourceSeason)| (e.0@, e.1))
}

pub open spec fn borrowed_views<'a>(s: Seq<(&'a str, &'a SourceSeason)>) -> Seq<(Seq<char>, SourceSeason)> {
    s.map_values(|e: (&'a str, &'a SourceSeason)| (e.0@, *e.1))
}

pub open spec fn numbered_seasons<'a>(s: Seq<(u32, &'a SourceSeason)>) -> Seq<(u32, SourceSeason)> {
    s.map_values(|e: (u32, &'a SourceSeason)| (e.0, *e.1))
}

/// The seasons of all releases: `NotFound::Seasons` when a release lists none; otherwise
/// those whose key `parse::<u32>()` accepts, with that number, ordered by number, seasons
/// with equal numbers in the order of the releases and of the engine.
pub fn get_seasons<'a>(releases: &'a Vec<SourceRelease>) -> (r: Result<
    Vec<(u32, &'a SourceSeason)>,
    NotFound,
>)
    ensures
        some_without_seasons(releases@) ==> r == Err::<Vec<(u32, &'a SourceSeason)>, NotFound>(
            NotFound::Seasons,
        ),
        !some_without_seasons(releases@) ==> (r matches Ok(v) && is_stable_sort_of(
            numbered_seasons(v@),
            parse_keys(season_entries(releases@)),
        )),
{
    let mut i: usize = 0;
    while i < releases.len()
        invariant
            i <= releases@.len(),
            forall|j: int| 0 <= j < i ==> (#[trigger] releases@[j]).seasons is Some,
        decreases releases@.len() - i,
    {
        if releases[i].seasons.is_none() {
            assert(some_without_seasons(releases@)) by {
                assert(releases@[i as int].seasons is None);
            }
            return Err(NotFound::Seasons);
        }
        i = i + 1;
    }
    let mut entries: Vec<(&str, &SourceSeason)> = Vec::new();
    let ghost f = |x: &'a SourceSeason| *x;
    let mut k: usize = 0;
    proof {
        assert(releases@.take(0) =~= Seq::<SourceRelease>::empty());
        assert(borrowed_views(entries@) =~= Seq::empty());
    }
    while k < releases.len()
        invariant
            k <= releases@.len(),
            forall|j: int| 0 <= j < releases@.len() ==> (#[trigger] releases@[j]).seasons is Some,
            borrowed_views(entries@) == season_entries(releases@.take(k as int)),
        decreases releases@.len() - k,
    {
        let ghost before = entries@;
        assert(releases@.take(k + 1).drop_last() =~= releases@.take(k as int));
        let list = match &releases[k].seasons {
            Some(list) => list,
            None => {
                assert(releases@[k as int].seasons is Some);
                return Err(NotFound::Seasons);
            },
        };
        let mut m: usize = 0;
        proof {
            assert(list_views(list@.take(0)) =~= Seq::empty());
            assert(borrowed_views(before) + Seq::empty() =~= borrowed_views(before));
        }
        while m < list.len()
            invariant
                m <= list@.len(),
                entries@.len() == before.len() + m,
                borrowed_views(entries@) == borrowed_views(before) + list_views(list@.take(m as int)),
            decreases list@.len() - m,
        {
            let ghost prev = entries@;
            entries.push((list[m].0.as_str(), &list[m].1));
            m = m + 1;
            proof {
                assert(borrowed_views(entries@) =~= borrowed_views(prev).push(
                    (list@[m - 1].0@, list@[m - 1].1),
                ));
                assert(list_views(list@.take(m as int)) =~= list_views(list@.take(m - 1)).push(
                    (list@[m - 1].0@, list@[m - 1].1),
                ));
            }
        }
        proof {
            assert(releases@.take(k + 1).last() == releases@[k as int]);
            assert(list@.take(m as int) =~= list@);
        }
        k = k + 1;
    }
    let parsed = parse_keys_of(&entries);
    let sorted = stable_sort_by_key(parsed);
    proof {
        assert(releases@.take(releases@.len() as int) =~= releases@);
        assert(borrowed_views(entries@) =~= key_views(entries@).map_values(
            |e: (Seq<char>, &'a SourceSeason)| (e.0, f(e.1)),
        ));
        lemma_parse_keys_map(key_views(entries@), f);
        lemma_stable_sort_map(sorted@, parsed@, f);
        assert(numbered_seasons(sorted@) =~= sorted@.map_values(
            |e: (u32, &'a SourceSeason)| (e.0, f(e.1)),
        ));
        assert(!some_without_seasons(releases@));
    }
    Ok(sorted)
}

/// The episodes of a season whose key `parse::<u32>()` accepts, as (number, link), ordered
/// by number, episodes with equal numbers in the engine's order.
pub fn get_episodes<'a>(season: &'a SourceSeason) -> (r: Vec<(u32, &'a str)>)
    ensures
        is_stable_sort_of(numbered_views(r@), parse_keys(entry_views(season.episodes@))),
{
    sorted_by_number(&season.episodes)
}

} // verus!
