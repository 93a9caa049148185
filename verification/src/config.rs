//! Settings: the mode, quality, downloader, engine and player to use, and the
//! credentials of the services; where the settings file lives.
use vstd::prelude::*;

use crate::error::ConfigError;
use crate::paths::{join, join_spec};
use crate::text::str_eq;

verus! {

/// The name of the program, also that of its settings directory.
pub const APP_NAME: &'static str = "ani-dl";

/// The Shikimori endpoint that searches titles, used unless the settings name another.
pub const DEFAULT_SHIKIMORI_API_URL: &'static str = "https://shikimori.io/api/animes";

/// What to do with the chosen episodes.
#[derive(Debug, Clone, Copy, PartialEq, Eq, Structural)]
pub enum Mode {
    Play,
    Download,
}

/// The programs that can save an episode.
#[derive(Debug, Clone, Copy, PartialEq, Eq, Structural)]
pub enum Downloaders {
    Ffmpeg,
}

/// The services that list releases and resolve their links.
#[derive(Debug, Clone, Copy, PartialEq, Eq, Structural)]
pub enum Engines {
    Kodik,
}

/// The programs that can play an episode.
#[derive(Debug, Clone, Copy, PartialEq, Eq, Structural)]
pub enum Players {
    Mpv,
    Cine,
}

/// The video qualities to ask the engine for.
#[derive(Debug, Clone, Copy, PartialEq, Eq, Structural)]
pub enum Quality {
    Hd720p,
    Sd480p,
    Low360p,
}

impl Mode {
    /// The name in snake case, as settings files and the command line write it.
    pub open spec fn label(self) -> Seq<char> {
        match self {
            Mode::Play => "play"@,
            Mode::Download => "download"@,
        }
    }

    pub open spec fn from_label(s: Seq<char>) -> Option<Mode> {
        if s == "play"@ {
            Some(Mode::Play)
        } else if s == "download"@ {
            Some(Mode::Download)
        } else {
            None
        }
    }

    pub fn name(&self) -> (s: &'static str)
        ensures
            s@ == self.label(),
    {
        match self {
            Mode::Play => "play",
            Mode::Download => "download",
        }
    }

    /// The mode with this name (case matters).
    pub fn from_name(s: &str) -> (m: Option<Mode>)
        ensures
            m == Mode::from_label(s@),
    {
        if str_eq(s, "play") {
            Some(Mode::Play)
        } else if str_eq(s, "download") {
            Some(Mode::Download)
        } else {
            None
        }
    }
}

impl Downloaders {
    pub open spec fn label(self) -> Seq<char> {
        match self {
            Downloaders::Ffmpeg => "ffmpeg"@,
        }
    }

    pub open spec fn from_label(s: Seq<char>) -> Option<Downloaders> {
        if s == "ffmpeg"@ {
            Some(Downloaders::Ffmpeg)
        } else {
            None
        }
    }

    pub fn name(&self) -> (s: &'static str)
        ensures
            s@ == self.label(),
    {
        match self {
            Downloaders::Ffmpeg => "ffmpeg",
        }
    }

    pub fn from_name(s: &str) -> (d: Option<Downloaders>)
        ensures
            d == Downloaders::from_label(s@),
    {
        if str_eq(s, "ffmpeg") {
            Some(Downloaders::Ffmpeg)
        } else {
            None
        }
    }
}

impl Engines {
    pub open spec fn label(self) -> Seq<char> {
        match self {
            Engines::Kodik => "kodik"@,
        }
    }

    pub open spec fn from_label(s: Seq<char>) -> Option<Engines> {
        if s == "kodik"@ {
            Some(Engines::Kodik)
        } else {
            None
        }
    }

    pub fn name(&self) -> (s: &'static str)
        ensures
            s@ == self.label(),
    {
        match self {
            Engines::Kodik => "kodik",
        }
    }

    pub fn from_name(s: &str) -> (e: Option<Engines>)
        ensures
            e == Engines::from_label(s@),
    {
        if str_eq(s, "kodik") {
            Some(Engines::Kodik)
        } else {
            None
        }
    }
}

impl Players {
    pub open spec fn label(self) -> Seq<char> {
        match self {
            Players::Mpv => "mpv"@,
            Players::Cine => "cine"@,
        }
    }

    pub open spec fn from_label(s: Seq<char>) -> Option<Players> {
        if s == "mpv"@ {
            Some(Players::Mpv)
        } else if s == "cine"@ {
            Some(Players::Cine)
        } else {
            None
        }
    }

    pub fn name(&self) -> (s: &'static str)
        ensures
            s@ == self.label(),
    {
        match self {
            Players::Mpv => "mpv",
            Players::Cine => "cine",
        }
    }

    pub fn from_name(s: &str) -> (p: Option<Players>)
        ensures
            p == Players::from_label(s@),
    {
        if str_eq(s, "mpv") {
            Some(Players::Mpv)
        } else if str_eq(s, "cine") {
            Some(Players::Cine)
        } else {
            None
        }
    }
}

impl Quality {
    pub open spec fn label(self) -> Seq<char> {
        match self {
            Quality::Hd720p => "hd720p"@,
            Quality::Sd480p => "sd480p"@,
            Quality::Low360p => "low360p"@,
        }
    }

    pub open spec fn from_label(s: Seq<char>) -> Option<Quality> {
        if s == "hd720p"@ {
            Some(Quality::Hd720p)
        } else if s == "sd480p"@ {
            Some(Quality::Sd480p)
        } else if s == "low360p"@ {
            Some(Quality::Low360p)
        } else {
            None
        }
    }

    pub fn name(&self) -> (s: &'static str)
        ensures
            s@ == self.label(),
    {
        match self {
            Quality::Hd720p => "hd720p",
            Quality::Sd480p => "sd480p",
            Quality::Low360p => "low360p",
        }
    }

    pub fn from_name(s: &str) -> (q: Option<Quality>)
        ensures
            q == Quality::from_label(s@),
    {
        if str_eq(s, "hd720p") {
            Some(Quality::Hd720p)
        } else if str_eq(s, "sd480p") {
            Some(Quality::Sd480p)
        } else if str_eq(s, "low360p") {
            Some(Quality::Low360p)
        } else {
            None
        }
    }
}

/// Reading a name back gives the same setting, for every setting of every kind.
pub proof fn lemma_names_read_back(m: Mode, d: Downloaders, e: Engines, p: Players, q: Quality)
    ensures
        Mode::from_label(m.label()) == Some(m),
        Downloaders::from_label(d.label()) == Some(d),
        Engines::from_label(e.label()) == Some(e),
        Players::from_label(p.label()) == Some(p),
        Quality::from_label(q.label()) == Some(q),
{
    reveal_strlit("play");
    reveal_strlit("download");
    reveal_strlit("mpv");
    reveal_strlit("cine");
    reveal_strlit("hd720p");
    reveal_strlit("sd480p");
    reveal_strlit("low360p");
    assert("play"@.len() != "download"@.len());
    assert("mpv"@[0] != "cine"@[0]);
    assert("hd720p"@[0] != "sd480p"@[0]);
    assert("hd720p"@.len() != "low360p"@.len());
    assert("sd480p"@.len() != "low360p"@.len());
}

/// The settings.
#[derive(Debug, Clone)]
pub struct Config {
    pub mode: Mode,
    pub quality: Quality,
    pub downloader: Downloaders,
    pub engine: Engines,
    pub player: Players,
    pub kodik_api_key: String,
    pub shikimori_api_url: String,
}

impl Config {
    /// The settings written on first start: play at 720p with ffmpeg, Kodik and mpv, no
    /// Kodik key, the public Shikimori endpoint.
    pub open spec fn is_default(&self) -> bool {
        &&& self.mode == Mode::Play
        &&& self.quality == Quality::Hd720p
        &&& self.downloader == Downloaders::Ffmpeg
        &&& self.engine == Engines::Kodik
        &&& self.player == Players::Mpv
        &&& self.kodik_api_key@ == Seq::<char>::empty()
        &&& self.shikimori_api_url@ == DEFAULT_SHIKIMORI_API_URL@
    }

    /// Refuses settings without a Kodik key, then settings without a Shikimori endpoint.
    pub fn check_credentials(&self) -> (r: Result<(), ConfigError>)
        ensures
            self.kodik_api_key@.len() == 0 ==> r == Err::<(), ConfigError>(
                ConfigError::KodikApiKeyNotSet,
            ),
            self.kodik_api_key@.len() > 0 && self.shikimori_api_url@.len() == 0 ==> r == Err::<
                (),
                ConfigError,
            >(ConfigError::ShikimoriApiUrlNotSet),
            self.kodik_api_key@.len() > 0 && self.shikimori_api_url@.len() > 0 ==> r is Ok,
    {
        if self.kodik_api_key.as_str().unicode_len() == 0 {
            Err(ConfigError::KodikApiKeyNotSet)
        } else if self.shikimori_api_url.as_str().unicode_len() == 0 {
            Err(ConfigError::ShikimoriApiUrlNotSet)
        } else {
            Ok(())
        }
    }
}

impl Default for Config {
    fn default() -> (c: Config)
        ensures
            c.is_default(),
    {
        Config {
            mode: Mode::Play,
            quality: Quality::Hd720p,
            downloader: Downloaders::Ffmpeg,
            engine: Engines::Kodik,
            player: Players::Mpv,
            kodik_api_key: String::new(),
            shikimori_api_url: String::from_str(DEFAULT_SHIKIMORI_API_URL),
        }
    }
}

/// Where the settings file is: the path in the `ANI_DL_CONFIG` variable when it is set,
/// else `config.toml` in the `ani-dl` directory of the user's configuration directory.
pub open spec fn config_path_spec(env_path: Option<Seq<char>>, config_dir: Option<Seq<char>>) -> Result<Seq<char>, ()> {
    match env_path {
        Some(p) => Ok(p),
        None => match config_dir {
            Some(d) => Ok(join_spec(join_spec(d, APP_NAME@), "config.toml"@)),
            None => Err(()),
        },
    }
}

pub open spec fn opt_string_view(o: Option<String>) -> Option<Seq<char>> {
    match o {
        Some(s) => Some(s@),
        None => None,
    }
}

/// Where the settings file is, given the value of `ANI_DL_CONFIG` and the user's
/// configuration directory as far as each is known; `NotFound` when neither is.
pub fn config_path(env_path: Option<String>, config_dir: Option<String>) -> (r: Result<
    String,
    ConfigError,
>)
    ensures
        match config_path_spec(opt_string_view(env_path), opt_string_view(config_dir)) {
            Ok(p) => r matches Ok(s) && s@ == p,
            Err(_) => r == Err::<String, ConfigError>(ConfigError::NotFound),
        },
{
    match env_path {
        Some(p) => Ok(p),
        None => match config_dir {
            Some(d) => {
                let dir = join(d.as_str(), APP_NAME);
                Ok(join(dir.as_str(), "config.toml"))
            },
            None => Err(ConfigError::NotFound),
        },
    }
}

} // verus!
