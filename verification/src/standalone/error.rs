//! What can go wrong, and the message shown for each.
use vstd::prelude::*;

use crate::text::{decimal, push_decimal};

verus! {

/// Something was looked for and not found.
#[derive(Debug)]
pub enum NotFound {
    SearchId(String),
    Releases,
    Seasons,
    Episodes,
    KodikApiKey,
    Url720p,
    Mpv,
    Ffmpeg,
    Select,
}

/// Failures of a Shikimori search.
#[derive(Debug)]
pub enum ShikimoriError {
    NotFound(String),
    ApiUrlNotSet,
}

/// A program or an answer failed.
#[derive(Debug)]
pub enum Crash {
    Mpv,
    Ffmpeg(String),
    ShikimoriParse,
    Timeout(u64),
}

/// Failures around the settings file.
#[derive(Debug)]
pub enum ConfigError {
    Parse(String),
    Read(String),
    Write(String),
    CreateDir(String),
    NotFound,
}

impl NotFound {
    pub open spec fn text(&self) -> Seq<char> {
        match self {
            NotFound::SearchId(id) => "По Shikimori ID \""@ + id@ + "\" ничего не найдено"@,
            NotFound::Releases => "Релизы удовлетворяющие запросу не найдены"@,
            NotFound::Seasons => "Сезоны не найдены"@,
            NotFound::Episodes => "Эпизоды не найдены"@,
            NotFound::KodikApiKey => "Ключ Kodik API не указан"@,
            NotFound::Url720p => "Не удалось найти URL для разрешения 720p"@,
            NotFound::Mpv => "Не удалось найти mpv - он установлен?"@,
            NotFound::Ffmpeg => "Не удалось найти ffmpeg - он установлен?"@,
            NotFound::Select => "Ничего не выбрано"@,
        }
    }

    /// The message shown to the user.
    pub fn message(&self) -> (s: String)
        ensures
            s@ == self.text(),
    {
        match self {
            NotFound::SearchId(id) => {
                let mut s = String::from_str("По Shikimori ID \"");
                s.append(id.as_str());
                s.append("\" ничего не найдено");
                s
            },
            NotFound::Releases => String::from_str("Релизы удовлетворяющие запросу не найдены"),
            NotFound::Seasons => String::from_str("Сезоны не найдены"),
            NotFound::Episodes => String::from_str("Эпизоды не найдены"),
            NotFound::KodikApiKey => String::from_str("Ключ Kodik API не указан"),
            NotFound::Url720p => String::from_str("Не удалось найти URL для разрешения 720p"),
            NotFound::Mpv => String::from_str("Не удалось найти mpv - он установлен?"),
            NotFound::Ffmpeg => String::from_str("Не удалось найти ffmpeg - он установлен?"),
            NotFound::Select => String::from_str("Ничего не выбрано"),
        }
    }
}

impl ShikimoriError {
    pub open spec fn text(&self) -> Seq<char> {
        match self {
            ShikimoriError::NotFound(q) => "По запросу \""@ + q@
                + "\" не удалось найти аниме в Shikimori"@,
            ShikimoriError::ApiUrlNotSet => "URL для API не задан"@,
        }
    }

    /// The message shown to the user.
    pub fn message(&self) -> (s: String)
        ensures
            s@ == self.text(),
    {
        match self {
            ShikimoriError::NotFound(q) => {
                let mut s = String::from_str("По запросу \"");
                s.append(q.as_str());
                s.append("\" не удалось найти аниме в Shikimori");
                s
            },
            ShikimoriError::ApiUrlNotSet => String::from_str("URL для API не задан"),
        }
    }
}

impl Crash {
    pub open spec fn text(&self) -> Seq<char> {
        match self {
            Crash::Mpv => "Работа mpv завершилась с ошибкой"@,
            Crash::Ffmpeg(m) => "Работа ffmpeg завершилась с ошибкой: "@ + m@,
            Crash::ShikimoriParse => "Не удалось распарсить ответ Shikimori"@,
            Crash::Timeout(t) => "Закончилось время ("@ + decimal(*t as nat)
                + " секунд) на выполнение команды"@,
        }
    }

    /// The message shown to the user.
    pub fn message(&self) -> (s: String)
        ensures
            s@ == self.text(),
    {
        match self {
            Crash::Mpv => String::from_str("Работа mpv завершилась с ошибкой"),
            Crash::Ffmpeg(m) => {
                let mut s = String::from_str("Работа ffmpeg завершилась с ошибкой: ");
                s.append(m.as_str());
                s
            },
            Crash::ShikimoriParse => String::from_str("Не удалось распарсить ответ Shikimori"),
            Crash::Timeout(t) => {
                let mut s = String::from_str("Закончилось время (");
                push_decimal(&mut s, *t);
                s.append(" секунд) на выполнение команды");
                s
            },
        }
    }
}

impl ConfigError {
    pub open spec fn text(&self) -> Seq<char> {
        match self {
            ConfigError::Parse(p) => "Не удалось распарсить конфиг: \""@ + p@ + "\""@,
            ConfigError::Read(p) => "Не удалось прочитать файл конфига: \""@ + p@ + "\""@,
            ConfigError::Write(p) => "Не удалось записать файл конфига: \""@ + p@ + "\""@,
            ConfigError::CreateDir(p) => "Не удалось создать директорию для конфига: \""@ + p@
                + "\""@,
            ConfigError::NotFound => "Не удалось найти конфиг"@,
        }
    }

    /// The message shown to the user.
    pub fn message(&self) -> (s: String)
        ensures
            s@ == self.text(),
    {
        let (head, p) = match self {
            ConfigError::Parse(p) => ("Не удалось распарсить конфиг: \"", p),
            ConfigError::Read(p) => ("Не удалось прочитать файл конфига: \"", p),
            ConfigError::Write(p) => ("Не удалось записать файл конфига: \"", p),
            ConfigError::CreateDir(p) => ("Не удалось создать директорию для конфига: \"", p),
            ConfigError::NotFound => {
                return String::from_str("Не удалось найти конфиг");
            },
        };
        let mut s = String::from_str(head);
        s.append(p.as_str());
        s.append("\"");
        s
    }
}

} // verus!
