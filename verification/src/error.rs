//! What can go wrong, and the message shown for each.
use vstd::prelude::*;

use crate::config::{Downloaders, Engines, Players};
use crate::text::{decimal, push_decimal};
use crate::types::Release;

verus! {

/// Failures of a search engine.
#[derive(Debug)]
pub enum EngineError {
    ResolveError { url: String, engine: Engines },
    SearchError { engine: Engines },
    NotFoundSeasons { engine: Engines, release: Release },
}

/// Failures of the command line dialogue.
#[derive(Debug, Clone, Copy, PartialEq, Eq, Structural)]
pub enum CliError {
    EpisodesNotSelected,
}

/// Failures of a Shikimori search.
#[derive(Debug)]
pub enum ShikimoriError {
    ApiNotSet,
    NotFound { query: String },
    ParseCrash,
}

/// Failures of a downloader.
#[derive(Debug)]
pub enum DownloaderError {
    Timeout { downloader: Downloaders, timeout: u64 },
    NotFound { downloader: Downloaders },
    Crash { downloader: Downloaders, msg: String },
}

/// Failures of a player.
#[derive(Debug)]
pub enum PlayerError {
    NotFound { player: Players },
    Crash { player: Players },
}

/// Failures around the settings file.
#[derive(Debug)]
pub enum ConfigError {
    ShikimoriApiUrlNotSet,
    KodikApiKeyNotSet,
    NotFound,
    Write { path: String },
    Read { path: String },
    Parse { path: String },
    CreateDir { path: String },
}

impl EngineError {
    pub open spec fn text(&self) -> Seq<char> {
        match self {
            EngineError::ResolveError { url, engine } => "Не удалось получить ссылку на m3u8 плейлист из url: \""@
                + url@ + "\" для "@ + engine.label(),
            EngineError::SearchError { engine } => "Не удалось ничего найти в базе "@ + engine.label(),
            EngineError::NotFoundSeasons { engine, release } => "В базе "@ + engine.label()
                + " не найдены сезоны для "@ + release.text(),
        }
    }

    /// The message shown to the user.
    pub fn message(&self) -> (s: String)
        ensures
            s@ == self.text(),
    {
        match self {
            EngineError::ResolveError { url, engine } => {
                let mut s = String::from_str(
                    "Не удалось получить ссылку на m3u8 плейлист из url: \"",
                );
                s.append(url.as_str());
                s.append("\" для ");
                s.append(engine.name());
                s
            },
            EngineError::SearchError { engine } => {
                let mut s = String::from_str("Не удалось ничего найти в базе ");
                s.append(engine.name());
                s
            },
            EngineError::NotFoundSeasons { engine, release } => {
                let mut s = String::from_str("В базе ");
                s.append(engine.name());
                s.append(" не найдены сезоны для ");
                let r = release.display();
                s.append(r.as_str());
                s
            },
        }
    }
}

impl CliError {
    pub open spec fn text(&self) -> Seq<char> {
        match self {
            CliError::EpisodesNotSelected => "Эпизоды не выбраны"@,
        }
    }

    /// The message shown to the user.
    pub fn message(&self) -> (s: String)
        ensures
            s@ == self.text(),
    {
        match self {
            CliError::EpisodesNotSelected => String::from_str("Эпизоды не выбраны"),
        }
    }
}

impl ShikimoriError {
    pub open spec fn text(&self) -> Seq<char> {
        match self {
            ShikimoriError::ApiNotSet => "API url не указан"@,
            ShikimoriError::NotFound { query } => "По запросу \""@ + query@
                + "\" в базе Shikimori ничего не найдено"@,
            ShikimoriError::ParseCrash => "Не удалось распарсить ответ Shikimori"@,
        }
    }

    /// The message shown to the user.
    pub fn message(&self) -> (s: String)
        ensures
            s@ == self.text(),
    {
        match self {
            ShikimoriError::ApiNotSet => String::from_str("API url не указан"),
            ShikimoriError::NotFound { query } => {
                let mut s = String::from_str("По запросу \"");
                s.append(query.as_str());
                s.append("\" в базе Shikimori ничего не найдено");
                s
            },
            ShikimoriError::ParseCrash => String::from_str("Не удалось распарсить ответ Shikimori"),
        }
    }
}

impl DownloaderError {
    pub open spec fn text(&self) -> Seq<char> {
        match self {
            DownloaderError::Timeout { downloader, timeout } => "Время на выполнение "@
                + downloader.label() + ": "@ + decimal(*timeout as nat) + " (секунд) закончилось"@,
            DownloaderError::NotFound { downloader } => "Не удалось найти исполняемый файл "@
                + downloader.label(),
            DownloaderError::Crash { downloader, msg } => "Работа "@ + downloader.label()
                + " завершилась с ошибкой: \""@ + msg@ + "\""@,
        }
    }

    /// The message shown to the user.
    pub fn message(&self) -> (s: String)
        ensures
            s@ == self.text(),
    {
        match self {
            DownloaderError::Timeout { downloader, timeout } => {
                let mut s = String::from_str("Время на выполнение ");
                s.append(downloader.name());
                s.append(": ");
                push_decimal(&mut s, *timeout);
                s.append(" (секунд) закончилось");
                s
            },
            DownloaderError::NotFound { downloader } => {
                let mut s = String::from_str("Не удалось найти исполняемый файл ");
                s.append(downloader.name());
                s
            },
            DownloaderError::Crash { downloader, msg } => {
                let mut s = String::from_str("Работа ");
                s.append(downloader.name());
                s.append(" завершилась с ошибкой: \"");
                s.append(msg.as_str());
                s.append("\"");
                s
            },
        }
    }
}

impl PlayerError {
    pub open spec fn text(&self) -> Seq<char> {
        match self {
            PlayerError::NotFound { player } => "Не удалось найти исполняемый файл плеера "@
                + player.label(),
            PlayerError::Crash { player } => "Работа плеера "@ + player.label()
                + " завершилась с ошибкой"@,
        }
    }

    /// The message shown to the user.
    pub fn message(&self) -> (s: String)
        ensures
            s@ == self.text(),
    {
        match self {
            PlayerError::NotFound { player } => {
                let mut s = String::from_str("Не удалось найти исполняемый файл плеера ");
                s.append(player.name());
                s
            },
            PlayerError::Crash { player } => {
                let mut s = String::from_str("Работа плеера ");
                s.append(player.name());
                s.append(" завершилась с ошибкой");
                s
            },
        }
    }
}

impl ConfigError {
    pub open spec fn text(&self) -> Seq<char> {
        match self {
            ConfigError::ShikimoriApiUrlNotSet => "В файле конфигурации не указан URL для Shikimori API"@,
            ConfigError::KodikApiKeyNotSet => "В файле конфигурации не указан ключ для Kodik"@,
            ConfigError::NotFound => "Не удалось найти каталог конфигураций"@,
            ConfigError::Write { path } => "Не удалось записать файл: "@ + path@,
            ConfigError::Read { path } => "Не удалось прочитать файл: "@ + path@,
            ConfigError::Parse { path } => "Не удалось распарсить файл: "@ + path@,
            ConfigError::CreateDir { path } => "Не удалось создать директорию: "@ + path@,
        }
    }

    /// The message shown to the user.
    pub fn message(&self) -> (s: String)
        ensures
            s@ == self.text(),
    {
        match self {
            ConfigError::ShikimoriApiUrlNotSet => String::from_str(
                "В файле конфигурации не указан URL для Shikimori API",
            ),
            ConfigError::KodikApiKeyNotSet => String::from_str(
                "В файле конфигурации не указан ключ для Kodik",
            ),
            ConfigError::NotFound => String::from_str("Не удалось найти каталог конфигураций"),
            ConfigError::Write { path } => {
                let mut s = String::from_str("Не удалось записать файл: ");
                s.append(path.as_str());
                s
            },
            ConfigError::Read { path } => {
                let mut s = String::from_str("Не удалось прочитать файл: ");
                s.append(path.as_str());
                s
            },
            ConfigError::Parse { path } => {
                let mut s = String::from_str("Не удалось распарсить файл: ");
                s.append(path.as_str());
                s
            },
            ConfigError::CreateDir { path } => {
                let mut s = String::from_str("Не удалось создать директорию: ");
                s.append(path.as_str());
                s
            },
        }
    }
}

} // verus!
