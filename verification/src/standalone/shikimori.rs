//! Searching titles on Shikimori at a configurable endpoint.
use vstd::prelude::*;

use crate::standalone::error::ShikimoriError;
use crate::text::decimal;

verus! {

/// A title as Shikimori describes it.
#[derive(Debug)]
pub struct Anime {
    pub id: u64,
    pub name: String,
    pub russian: String,
}

impl Anime {
    /// `"{title} ({id})"`, the title being the Russian one unless it is empty.
    pub open spec fn text(&self) -> Seq<char> {
        (if self.russian@.len() == 0 {
            self.name@
        } else {
            self.russian@
        }) + " ("@ + decimal(self.id as nat) + ")"@
    }

    pub fn display(&self) -> (s: String)
        ensures
            s@ == self.text(),
    {
        let mut s = if self.russian.as_str().unicode_len() == 0 {
            String::from_str(self.name.as_str())
        } else {
            String::from_str(self.russian.as_str())
        };
        s.append(" (");
        crate::text::push_decimal(&mut s, self.id);
        s.append(")");
        s
    }
}

/// A title search; the endpoint has to be set before it runs.
#[derive(Debug)]
pub struct Search {
    api_url: Option<String>,
}

impl Search {
    /// The endpoint set, if any.
    pub closed spec fn endpoint(&self) -> Option<Seq<char>> {
        match self.api_url {
            Some(u) => Some(u@),
            None => None,
        }
    }

    /// A search with no endpoint set.
    pub fn new() -> (s: Search)
        ensures
            s.endpoint() is None,
    {
        Search { api_url: None }
    }

    /// Sets the endpoint.
    pub fn with_api_url(&mut self, url: &str) -> (r: &mut Search)
        ensures
            (*r).endpoint() == Some(url@),
            *final(self) == *final(r),
    {
        self.api_url = Some(String::from_str(url));
        self
    }

    /// The endpoint to ask, or `ApiUrlNotSet`.
    pub fn api_url(&self) -> (r: Result<String, ShikimoriError>)
        ensures
            match self.endpoint() {
                Some(u) => r matches Ok(s) && s@ == u,
                None => r == Err::<String, ShikimoriError>(ShikimoriError::ApiUrlNotSet),
            },
    {
        match &self.api_url {
            Some(u) => Ok(u.clone()),
            None => Err(ShikimoriError::ApiUrlNotSet),
        }
    }

    /// The titles found, or `NotFound` naming the query when there are none.
    pub fn check_found(query: &str, found: Vec<Anime>) -> (r: Result<Vec<Anime>, ShikimoriError>)
        ensures
            found@.len() > 0 ==> r == Ok::<Vec<Anime>, ShikimoriError>(found),
            found@.len() == 0 ==> (r matches Err(ShikimoriError::NotFound(q)) && q@ == query@),
    {
        if found.len() == 0 {
            Err(ShikimoriError::NotFound(String::from_str(query)))
        } else {
            Ok(found)
        }
    }
}

} // verus!
