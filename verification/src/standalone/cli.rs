//! The decisions of the command line dialogue of the single-program flavour.
use vstd::prelude::*;

use crate::standalone::error::{NotFound, ShikimoriError};

verus! {

/// How the season is settled.
#[derive(Debug)]
pub enum SeasonPick<T> {
    /// Several seasons: the user picks one of these.
    Ask(Vec<T>),
    /// At most one: it is used.
    Only(T),
}

/// The season to use: ask when there are several, take the only one, and fail with
/// `NotFound::Seasons` when there is none.
pub fn choose_season<T>(seasons: Vec<T>) -> (r: Result<SeasonPick<T>, NotFound>)
    ensures
        seasons@.len() == 0 ==> r == Err::<SeasonPick<T>, NotFound>(NotFound::Seasons),
        seasons@.len() == 1 ==> r == Ok::<SeasonPick<T>, NotFound>(SeasonPick::Only(seasons@[0])),
        seasons@.len() > 1 ==> r == Ok::<SeasonPick<T>, NotFound>(SeasonPick::Ask(seasons)),
{
    if seasons.len() > 1 {
        Ok(SeasonPick::Ask(seasons))
    } else {
        let mut s = seasons;
        match s.pop() {
            Some(x) => Ok(SeasonPick::Only(x)),
            None => Err(NotFound::Seasons),
        }
    }
}

/// The Kodik key, or `NotFound::KodikApiKey` when the settings have none.
pub fn kodik_key(key: Option<String>) -> (r: Result<String, NotFound>)
    ensures
        key matches Some(k) ==> r == Ok::<String, NotFound>(k),
        key is None ==> r == Err::<String, NotFound>(NotFound::KodikApiKey),
{
    match key {
        Some(k) => Ok(k),
        None => Err(NotFound::KodikApiKey),
    }
}

/// The Shikimori endpoint, or `ApiUrlNotSet` when the settings have none.
pub fn shikimori_url(url: Option<String>) -> (r: Result<String, ShikimoriError>)
    ensures
        url matches Some(u) ==> r == Ok::<String, ShikimoriError>(u),
        url is None ==> r == Err::<String, ShikimoriError>(ShikimoriError::ApiUrlNotSet),
{
    match url {
        Some(u) => Ok(u),
        None => Err(ShikimoriError::ApiUrlNotSet),
    }
}

/// Refuses an empty choice of episodes with `NotFound::Select`.
pub fn check_selection(count: usize) -> (r: Result<(), NotFound>)
    ensures
        count == 0 ==> r == Err::<(), NotFound>(NotFound::Select),
        count > 0 ==> r is Ok,
{
    if count == 0 {
        Err(NotFound::Select)
    } else {
        Ok(())
    }
}

} // verus!
