//! The decisions of the command line dialogue: settings given on the command line, the
//! season to use, the episodes chosen, the progress display.
use vstd::prelude::*;

use crate::config::{Config, Downloaders, Engines, Mode, Players, Quality};
use crate::download::Status;
use crate::error::{CliError, EngineError};
use crate::types::{Release, Season};

verus! {

/// The command line: an optional title to search, optional settings that take the place
/// of those in the settings file, the directory to save to, and whether to print the
/// script that obtains a Kodik key.
#[derive(Debug)]
pub struct Cli {
    pub query: Option<String>,
    pub mode: Option<Mode>,
    pub quality: Option<Quality>,
    pub downloader: Option<Downloaders>,
    pub engine: Option<Engines>,
    pub player: Option<Players>,
    pub output_dir: String,
    pub gen_kodik_key_script: bool,
}

pub open spec fn or_else<T>(o: Option<T>, d: T) -> T {
    match o {
        Some(v) => v,
        None => d,
    }
}

impl Cli {
    /// The settings `c` with each setting given on the command line put in its place.
    pub open spec fn applied_to(&self, c: Config) -> Config {
        Config {
            mode: or_else(self.mode, c.mode),
            quality: or_else(self.quality, c.quality),
            downloader: or_else(self.downloader, c.downloader),
            engine: or_else(self.engine, c.engine),
            player: or_else(self.player, c.player),
            kodik_api_key: c.kodik_api_key,
            shikimori_api_url: c.shikimori_api_url,
        }
    }

    /// No setting is given on the command line.
    pub open spec fn sets_nothing(&self) -> bool {
        &&& self.mode is None
        &&& self.quality is None
        &&& self.downloader is None
        &&& self.engine is None
        &&& self.player is None
    }
}

/// The settings in force: those of the settings file, overridden by the command line.
pub fn runtime_config(config: Config, cli: &Cli) -> (r: Config)
    ensures
        r == cli.applied_to(config),
{
    let mut r = config;
    if let Some(m) = cli.mode {
        r.mode = m;
    }
    if let Some(q) = cli.quality {
        r.quality = q;
    }
    if let Some(d) = cli.downloader {
        r.downloader = d;
    }
    if let Some(e) = cli.engine {
        r.engine = e;
    }
    if let Some(p) = cli.player {
        r.player = p;
    }
    r
}

/// Settings from the command line are applied once: applying them again changes nothing.
pub proof fn lemma_overrides_idempotent(cli: Cli, c: Config)
    ensures
        cli.applied_to(cli.applied_to(c)) == cli.applied_to(c),
{
}

/// Without settings on the command line, the settings file is used as it is.
pub proof fn lemma_no_overrides(cli: Cli, c: Config)
    requires
        cli.sets_nothing(),
    ensures
        cli.applied_to(c) == c,
{
}

/// The command line never changes the credentials, what it gives wins, and each setting
/// that it leaves out keeps the settings file's value.
pub proof fn lemma_overrides_win(cli: Cli, c: Config)
    ensures
        cli.applied_to(c).kodik_api_key == c.kodik_api_key,
        cli.applied_to(c).shikimori_api_url == c.shikimori_api_url,
        cli.mode matches Some(m) ==> cli.applied_to(c).mode == m,
        cli.quality matches Some(q) ==> cli.applied_to(c).quality == q,
        cli.downloader matches Some(d) ==> cli.applied_to(c).downloader == d,
        cli.engine matches Some(e) ==> cli.applied_to(c).engine == e,
        cli.player matches Some(p) ==> cli.applied_to(c).player == p,
        cli.mode is None ==> cli.applied_to(c).mode == c.mode,
        cli.quality is None ==> cli.applied_to(c).quality == c.quality,
        cli.downloader is None ==> cli.applied_to(c).downloader == c.downloader,
        cli.engine is None ==> cli.applied_to(c).engine == c.engine,
        cli.player is None ==> cli.applied_to(c).player == c.player,
{
}

/// How the season is settled.
#[derive(Debug)]
pub enum SeasonChoice {
    /// Several seasons: the user picks one of these.
    Ask(Vec<Season>),
    /// A single season: it is used.
    Only(Season),
}

pub open spec fn season_count(r: Release) -> nat {
    match r.seasons {
        Some(v) => v@.len(),
        None => 0,
    }
}

/// The season to use from `release`: ask when it has several, take the one it has, and
/// fail naming `engine` and the release when it lists none.
pub fn choose_season(engine: Engines, release: Release) -> (r: Result<SeasonChoice, EngineError>)
    ensures
        season_count(release) == 0 ==> r == Err::<SeasonChoice, EngineError>(
            EngineError::NotFoundSeasons { engine, release },
        ),
        season_count(release) == 1 ==> r == Ok::<SeasonChoice, EngineError>(
            SeasonChoice::Only(release.seasons->0@[0]),
        ),
        season_count(release) > 1 ==> r == Ok::<SeasonChoice, EngineError>(
            SeasonChoice::Ask(release.seasons->0),
        ),
{
    let n: usize = match &release.seasons {
        Some(v) => v.len(),
        None => 0,
    };
    if n == 0 {
        return Err(EngineError::NotFoundSeasons { engine, release });
    }
    let Release { seasons, .. } = release;
    let mut v = match seasons {
        Some(v) => v,
        None => Vec::new(),
    };
    if n > 1 {
        Ok(SeasonChoice::Ask(v))
    } else {
        let s = v.pop().unwrap();
        Ok(SeasonChoice::Only(s))
    }
}

/// Refuses an empty choice of episodes.
pub fn check_selection(count: usize) -> (r: Result<(), CliError>)
    ensures
        count == 0 ==> r == Err::<(), CliError>(CliError::EpisodesNotSelected),
        count > 0 ==> r is Ok,
{
    if count == 0 {
        Err(CliError::EpisodesNotSelected)
    } else {
        Ok(())
    }
}

/// What a progress bar does with the message of a report.
#[derive(Debug, Clone, Copy, PartialEq, Eq, Structural)]
pub enum BarAction {
    SetMessage,
    FinishWithMessage,
}

/// A finished download closes its bar; every other report only changes its message.
pub fn bar_action(status: Status) -> (a: BarAction)
    ensures
        status == Status::Finished ==> a == BarAction::FinishWithMessage,
        status != Status::Finished ==> a == BarAction::SetMessage,
{
    match status {
        Status::Finished => BarAction::FinishWithMessage,
        _ => BarAction::SetMessage,
    }
}

} // verus!
