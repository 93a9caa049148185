//! Settings of the single-program flavour: the Kodik key and the Shikimori endpoint.
use vstd::prelude::*;

use crate::config::{config_path_spec, opt_string_view, DEFAULT_SHIKIMORI_API_URL};
use crate::standalone::error::ConfigError;

verus! {

/// The settings; either may be missing from the file.
#[derive(Debug)]
pub struct Config {
    pub kodik_api_key: Option<String>,
    pub shikimori_api_url: Option<String>,
}

impl Default for Config {
    fn default() -> (c: Config)
        ensures
            c.kodik_api_key is None,
            c.shikimori_api_url matches Some(u) && u@ == DEFAULT_SHIKIMORI_API_URL@,
    {
        Config {
            kodik_api_key: None,
            shikimori_api_url: Some(String::from_str(DEFAULT_SHIKIMORI_API_URL)),
        }
    }
}

impl Config {
    /// Where the settings file is: the path in `ANI_DL_CONFIG` when it is set, else
    /// `ani-dl/config.toml` in the user's configuration directory; `NotFound` when neither
    /// is known.
    pub fn config_path(env_path: Option<String>, config_dir: Option<String>) -> (r: Result<
        String,
        ConfigError,
    >)
        ensures
            match config_path_spec(opt_string_view(env_path), opt_string_view(config_dir)) {
                Ok(p) => r matches Ok(s) && s@ == p,
                Err(_) => r == Err::<String, ConfigError>(ConfigError::NotFound),
            },
    {
        match crate::config::config_path(env_path, config_dir) {
            Ok(p) => Ok(p),
            Err(_) => Err(ConfigError::NotFound),
        }
    }
}

} // verus!
