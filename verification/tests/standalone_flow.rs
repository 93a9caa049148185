use ani_dl::engine::QualityLinks;
use ani_dl::standalone::cli::{check_selection, choose_season, kodik_key, shikimori_url, SeasonPick};
use ani_dl::standalone::config::Config;
use ani_dl::standalone::error::{ConfigError, Crash, NotFound, ShikimoriError};
use ani_dl::standalone::media::{
    attempt_message, ffmpeg_args, ffmpeg_exit, first_720p, idle_timeout_error, mpv_exit,
    play_source, temp_path, PlaySource,
};
use ani_dl::standalone::search::{
    get_episodes, get_releases, get_seasons, ShikimoriAnime, SourceRelease, SourceSeason,
    SourceTranslation,
};
use ani_dl::standalone::shikimori::{Anime, Search};
use ani_dl::standalone::types::{EpisodeItem, ReleaseItem, SeasonItem};

fn season(title: Option<&str>, eps: &[(&str, &str)]) -> SourceSeason {
    SourceSeason {
        title: title.map(|t| t.to_string()),
        episodes: eps.iter().map(|(k, v)| (k.to_string(), v.to_string())).collect(),
    }
}

fn release(title: &str, seasons: Option<Vec<(&str, SourceSeason)>>) -> SourceRelease {
    SourceRelease {
        title: title.to_string(),
        translation: SourceTranslation { id: 610, title: "AniLibria".to_string() },
        seasons: seasons.map(|v| v.into_iter().map(|(k, s)| (k.to_string(), s)).collect()),
    }
}

#[test]
fn releases_must_exist() {
    assert!(matches!(get_releases(&vec![]), Err(NotFound::Releases)));
    let rs = vec![release("A", None), release("B", None)];
    let got = get_releases(&rs).unwrap();
    assert_eq!(got.len(), 2);
    assert_eq!(got[1].title, "B");
}

#[test]
fn seasons_of_all_releases_in_number_order() {
    let rs = vec![
        release("A", Some(vec![("2", season(Some("a2"), &[])), ("1", season(Some("a1"), &[]))])),
        release("B", Some(vec![("1", season(Some("b1"), &[])), ("x", season(Some("bx"), &[]))])),
    ];
    let got = get_seasons(&rs).unwrap();
    let titles: Vec<(u32, &str)> = got.iter().map(|(n, s)| (*n, s.title.as_deref().unwrap())).collect();
    assert_eq!(titles, vec![(1, "a1"), (1, "b1"), (2, "a2")]);
}

#[test]
fn seasons_missing_in_a_release() {
    let rs = vec![release("A", Some(vec![("1", season(None, &[]))])), release("B", None)];
    assert!(matches!(get_seasons(&rs), Err(NotFound::Seasons)));
    assert_eq!(NotFound::Seasons.message(), "Сезоны не найдены");
}

#[test]
fn episodes_in_number_order() {
    let s = season(None, &[("1", "l1"), ("10", "l10"), ("2", "l2"), ("bonus", "lb")]);
    assert_eq!(get_episodes(&s), vec![(1, "l1"), (2, "l2"), (10, "l10")]);
}

#[test]
fn menu_items() {
    let r = release("Доктор Стоун", None);
    assert_eq!(ReleaseItem(&r).display(), "Доктор Стоун - AniLibria (610)");
    let mut neg = release("X", None);
    neg.translation.id = -3;
    assert_eq!(ReleaseItem(&neg).display(), "X - AniLibria (-3)");
    let si = SeasonItem(2, season(None, &[("1", "a"), ("2", "b")]));
    assert_eq!(si.display(), "Сезон: 2, Эпизодов:2");
    let a = ShikimoriAnime { id: 5, name: "Name".to_string(), russian: Some("Имя".to_string()) };
    assert_eq!(a.display(), "Имя (5)");
    let a = ShikimoriAnime { id: 5, name: "Name".to_string(), russian: None };
    assert_eq!(a.display(), "Name (5)");
    let a = Anime { id: 9, name: "N".to_string(), russian: String::new() };
    assert_eq!(a.display(), "N (9)");
}

fn item() -> EpisodeItem {
    EpisodeItem {
        num: 3,
        url: "//kodik.info/seria/3".to_string(),
        filename: "EP03.mp4".to_string(),
        output_dir: "/videos".to_string(),
    }
}

#[test]
fn episode_items() {
    let e = item();
    assert_eq!(e.output_path(), "/videos/EP03.mp4");
    assert!(e.is_downloaded(&|p: &str| p == "/videos/EP03.mp4"));
    assert!(!e.is_downloaded(&|p: &str| p == "/videos/EP04.mp4"));
    assert_eq!(e.display(false), "Эпизод 3");
    assert_eq!(e.display(true), "Эпизод 3 [загружено]");
}

#[test]
fn what_to_play() {
    let e = item();
    assert!(matches!(play_source(&e, true), PlaySource::Local(p) if p == "/videos/EP03.mp4"));
    assert!(matches!(play_source(&e, false), PlaySource::Remote(u) if u == "https://kodik.info/seria/3"));
    let l = QualityLinks { quality_720: vec![], quality_480: vec!["x".to_string()], quality_360: vec![] };
    assert!(matches!(first_720p(&l), Err(NotFound::Url720p)));
    let l = QualityLinks { quality_720: vec!["a".to_string(), "b".to_string()], quality_480: vec![], quality_360: vec![] };
    assert_eq!(first_720p(&l).unwrap(), "a");
    assert!(mpv_exit(true).is_ok());
    assert!(matches!(mpv_exit(false), Err(Crash::Mpv)));
}

#[test]
fn saving() {
    assert_eq!(temp_path("/videos/EP03.mp4"), "/videos/EP03.tmp");
    let args = ffmpeg_args("https://cdn/a.m3u8", "/videos/EP03.tmp");
    assert_eq!(args.len(), 21);
    assert_eq!(args[0], "-headers");
    assert_eq!(args[1], "Referer: https://kodikplayer.com/\r\n");
    assert_eq!(args[13], "https://cdn/a.m3u8");
    assert_eq!(args[17], "mp4");
    assert_eq!(args[20], "/videos/EP03.tmp");
    assert_eq!(attempt_message("/videos/EP03.mp4", 4), "EP03.mp4 — попытка 4/5");
    assert_eq!(attempt_message("/", 1), " — попытка 1/5");
    assert!(matches!(idle_timeout_error(), Crash::Timeout(60)));
    assert_eq!(idle_timeout_error().message(), "Закончилось время (60 секунд) на выполнение команды");
    assert!(ffmpeg_exit(true, String::new()).is_ok());
    let e = ffmpeg_exit(false, "oops".to_string()).err().unwrap();
    assert_eq!(e.message(), "Работа ffmpeg завершилась с ошибкой: oops");
}

#[test]
fn dialogue() {
    assert!(matches!(choose_season(Vec::<u32>::new()), Err(NotFound::Seasons)));
    assert!(matches!(choose_season(vec![7u32]), Ok(SeasonPick::Only(7))));
    assert!(matches!(choose_season(vec![1u32, 2]), Ok(SeasonPick::Ask(v)) if v == vec![1, 2]));
    assert!(matches!(kodik_key(None), Err(NotFound::KodikApiKey)));
    assert_eq!(kodik_key(Some("k".to_string())).unwrap(), "k");
    assert!(matches!(shikimori_url(None), Err(ShikimoriError::ApiUrlNotSet)));
    assert!(matches!(check_selection(0), Err(NotFound::Select)));
    assert!(check_selection(1).is_ok());
}

#[test]
fn search_endpoint() {
    let mut s = Search::new();
    assert!(matches!(s.api_url(), Err(ShikimoriError::ApiUrlNotSet)));
    s.with_api_url("https://shikimori.io/api/animes");
    assert_eq!(s.api_url().unwrap(), "https://shikimori.io/api/animes");
    let e = Search::check_found("q", vec![]).err().unwrap();
    assert_eq!(e.message(), "По запросу \"q\" не удалось найти аниме в Shikimori");
    assert_eq!(ShikimoriError::ApiUrlNotSet.message(), "URL для API не задан");
}

#[test]
fn standalone_settings() {
    let c = Config::default();
    assert!(c.kodik_api_key.is_none());
    assert_eq!(c.shikimori_api_url.as_deref(), Some("https://shikimori.io/api/animes"));
    assert_eq!(
        Config::config_path(None, Some("/home/u/.config".to_string())).unwrap(),
        "/home/u/.config/ani-dl/config.toml"
    );
    assert!(matches!(Config::config_path(None, None), Err(ConfigError::NotFound)));
    assert_eq!(ConfigError::Parse("/c".to_string()).message(), "Не удалось распарсить конфиг: \"/c\"");
    assert_eq!(ConfigError::NotFound.message(), "Не удалось найти конфиг");
}

#[test]
fn not_found_messages() {
    assert_eq!(NotFound::SearchId("12".to_string()).message(), "По Shikimori ID \"12\" ничего не найдено");
    assert_eq!(NotFound::Releases.message(), "Релизы удовлетворяющие запросу не найдены");
    assert_eq!(NotFound::Episodes.message(), "Эпизоды не найдены");
    assert_eq!(NotFound::KodikApiKey.message(), "Ключ Kodik API не указан");
    assert_eq!(NotFound::Url720p.message(), "Не удалось найти URL для разрешения 720p");
    assert_eq!(NotFound::Mpv.message(), "Не удалось найти mpv - он установлен?");
    assert_eq!(NotFound::Ffmpeg.message(), "Не удалось найти ffmpeg - он установлен?");
    assert_eq!(NotFound::Select.message(), "Ничего не выбрано");
    assert_eq!(Crash::Mpv.message(), "Работа mpv завершилась с ошибкой");
    assert_eq!(Crash::ShikimoriParse.message(), "Не удалось распарсить ответ Shikimori");
}
