//! Searching titles on Shikimori: the request, the check of the answer, and how a title
//! is shown.
use vstd::prelude::*;

use crate::config::APP_NAME;
use crate::error::ShikimoriError;
use crate::text::{decimal, decimal_string};

verus! {

/// A title as Shikimori describes it.
#[derive(Debug)]
pub struct Anime {
    pub id: u64,
    pub name: String,
    pub russian: String,
}

impl Anime {
    /// `"{title} ({id})"`, the title being the Russian one unless it is empty.
    pub open spec fn text(&self) -> Seq<char> {
        (if self.russian@.len() == 0 {
            self.name@
        } else {
            self.russian@
        }) + " ("@ + decimal(self.id as nat) + ")"@
    }

    /// How the title is shown in a menu.
    pub fn display(&self) -> (s: String)
        ensures
            s@ == self.text(),
    {
        let mut s = if self.russian.as_str().unicode_len() == 0 {
            String::from_str(self.name.as_str())
        } else {
            String::from_str(self.russian.as_str())
        };
        s.append(" (");
        let id = decimal_string(self.id);
        s.append(id.as_str());
        s.append(")");
        s
    }
}

/// The user agent the program sends: `"ani-dl-rust/{version}"`.
pub fn user_agent(version: &str) -> (s: String)
    ensures
        s@ == APP_NAME@ + "-rust/"@ + version@,
{
    let mut s = String::from_str(APP_NAME);
    s.append("-rust/");
    s.append(version);
    s
}

pub open spec fn pair_views(v: Seq<(String, String)>) -> Seq<(Seq<char>, Seq<char>)> {
    v.map_values(|p: (String, String)| (p.0@, p.1@))
}

/// The query of a title search: the text, at most `limit` results, the most popular first.
pub fn search_query(query: &str, limit: u32) -> (q: Vec<(String, String)>)
    ensures
        pair_views(q@) == seq![
            ("search"@, query@),
            ("limit"@, decimal(limit as nat)),
            ("order"@, "popularity"@),
        ],
{
    let mut q: Vec<(String, String)> = Vec::new();
    q.push((String::from_str("search"), String::from_str(query)));
    q.push((String::from_str("limit"), decimal_string(limit as u64)));
    q.push((String::from_str("order"), String::from_str("popularity")));
    assert(pair_views(q@) =~= seq![
        ("search"@, query@),
        ("limit"@, decimal(limit as nat)),
        ("order"@, "popularity"@),
    ]);
    q
}

/// The titles found, or `NotFound` naming the query when there are none.
pub fn check_found(query: &str, found: Vec<Anime>) -> (r: Result<Vec<Anime>, ShikimoriError>)
    ensures
        found@.len() > 0 ==> r == Ok::<Vec<Anime>, ShikimoriError>(found),
        found@.len() == 0 ==> (r matches Err(ShikimoriError::NotFound { query: q }) && q@ == query@),
{
    if found.len() == 0 {
        Err(ShikimoriError::NotFound { query: String::from_str(query) })
    } else {
        Ok(found)
    }
}

} // verus!
