use ani_dl::download::ffmpeg::FfmpegDownloader;
use ani_dl::cli::{bar_action, check_selection, choose_season, runtime_config, BarAction, Cli, SeasonChoice};
use ani_dl::config::{config_path, Config, Downloaders, Engines, Mode, Players, Quality};
use ani_dl::download::Status;
use ani_dl::error::{CliError, ConfigError, EngineError};
use ani_dl::keyed::stable_sort_by_key;
use ani_dl::types::{Episode, EpisodeFile, Release, Season, Translation};

fn entries(list: &[(&str, &str)]) -> Vec<(String, String)> {
    list.iter().map(|(k, v)| (k.to_string(), v.to_string())).collect()
}

#[test]
fn season_from_entries_orders_by_number() {
    // keys come in the engine's (string) order: "1", "10", "2", ...
    let e = entries(&[("1", "l1"), ("10", "l10"), ("2", "l2"), ("x", "bad"), ("+3", "l3")]);
    let s = Season::from_entries(Some("Основной".to_string()), &e);
    let nums: Vec<u32> = s.episodes.iter().map(|e| e.num).collect();
    let links: Vec<&str> = s.episodes.iter().map(|e| e.link.as_str()).collect();
    assert_eq!(nums, vec![1, 2, 3, 10]);
    assert_eq!(links, vec!["l1", "l2", "l3", "l10"]);
    assert_eq!(s.title.as_deref(), Some("Основной"));
}

#[test]
fn season_from_entries_keeps_order_of_equal_numbers() {
    let e = entries(&[("01", "a"), ("1", "b"), ("0", "z"), ("+1", "c")]);
    let s = Season::from_entries(None, &e);
    let got: Vec<(u32, &str)> = s.episodes.iter().map(|e| (e.num, e.link.as_str())).collect();
    assert_eq!(got, vec![(0, "z"), (1, "a"), (1, "b"), (1, "c")]);
}

#[test]
fn season_from_entries_drops_unparsable_keys() {
    let e = entries(&[("-1", "a"), ("", "b"), ("4294967296", "c"), ("abc", "d")]);
    let s = Season::from_entries(None, &e);
    assert!(s.episodes.is_empty());
}

#[test]
fn stable_sort_matches_std() {
    let v = vec![(3u32, 'a'), (1, 'b'), (3, 'c'), (2, 'd'), (1, 'e'), (0, 'f')];
    let mut expected = v.clone();
    expected.sort_by_key(|e| e.0);
    assert_eq!(stable_sort_by_key(v), expected);
    assert_eq!(stable_sort_by_key(Vec::<(u32, u8)>::new()), vec![]);
}

#[test]
fn displays() {
    let t = Translation { title: "AniLibria".to_string(), id: 610 };
    assert_eq!(t.display(), "AniLibria (610)");
    let r = Release {
        title: "Доктор Стоун".to_string(),
        shikimori_id: Some("38691".to_string()),
        translation: t,
        seasons: None,
    };
    assert_eq!(r.display(), "Доктор Стоун - AniLibria (610)");
    let s = Season { title: Some("1".to_string()), episodes: vec![Episode::new(1, "a"), Episode::new(2, "b")] };
    assert_eq!(s.display(), "Сезон 1: 2 эпизодов");
    let s = Season { title: None, episodes: vec![] };
    assert_eq!(s.display(), "0 эпизодов");
    assert_eq!(Episode::new(7, "//kodik.info/seria/1").display(), "7: //kodik.info/seria/1");
}

#[test]
fn translation_id_is_converted_with_as() {
    assert_eq!(Translation::from_source("x".to_string(), 610).id, 610);
    assert_eq!(Translation::from_source("x".to_string(), -1).id, u32::MAX);
}

#[test]
fn episode_new_copies_link() {
    let e = Episode::new(3, "//kodik/3");
    assert_eq!(e.num, 3);
    assert_eq!(e.link, "//kodik/3");
}

#[test]
fn create_filename_pads_number() {
    assert_eq!(EpisodeFile::create_filename(&1, None), "EP01");
    assert_eq!(EpisodeFile::create_filename(&12, Some("Title - Team (1)")), "EP12 - Title - Team (1)");
    assert_eq!(EpisodeFile::create_filename(&123, None), "EP123");
    assert_eq!(EpisodeFile::create_filename(&0, Some("")), "EP00 - ");
    assert_eq!(EpisodeFile::create_filename(&7, None), format!("EP{:02}", 7));
}

#[test]
fn episode_file_new_places_file() {
    let ep = Episode::new(5, "//k/5");
    let f = EpisodeFile::new(&ep, "https://cdn/5.m3u8".to_string(), Some("Show"), "out");
    assert_eq!(f.m3u8, "https://cdn/5.m3u8");
    assert_eq!(f.filename, "EP05 - Show");
    assert_eq!(f.raw_location, "out/EP05 - Show");
    assert_eq!(f.saved_marker(), "out/EP05 - Show.mp4");
    assert_eq!(f.display(false), "EP05 - Show");
    assert_eq!(f.display(true), "EP05 - Show [загружено]");
    let f = EpisodeFile::new(&ep, String::new(), Some("Dr. Stone"), ".");
    assert_eq!(f.raw_location, "./EP05 - Dr. Stone");
    assert_eq!(f.saved_marker(), "./EP05 - Dr.mp4");
}

#[test]
fn release_from_source_builds_seasons() {
    let r = Release::from_source(
        "T".to_string(),
        None,
        Translation::from_source("Team".to_string(), 1),
        Some(vec![
            (Some("a".to_string()), entries(&[("2", "x"), ("1", "y")])),
            (None, entries(&[])),
        ]),
    );
    let seasons = r.seasons.unwrap();
    assert_eq!(seasons.len(), 2);
    assert_eq!(seasons[0].title.as_deref(), Some("a"));
    assert_eq!(seasons[0].episodes[0].num, 1);
    assert_eq!(seasons[0].episodes[0].link, "y");
    assert!(seasons[1].episodes.is_empty());
    let r = Release::from_source("T".to_string(), None, Translation::from_source("Team".to_string(), 1), None);
    assert!(r.seasons.is_none());
}

#[test]
fn setting_names() {
    for m in [Mode::Play, Mode::Download] {
        assert_eq!(Mode::from_name(m.name()), Some(m));
    }
    for q in [Quality::Hd720p, Quality::Sd480p, Quality::Low360p] {
        assert_eq!(Quality::from_name(q.name()), Some(q));
    }
    for p in [Players::Mpv, Players::Cine] {
        assert_eq!(Players::from_name(p.name()), Some(p));
    }
    assert_eq!(Engines::from_name("kodik"), Some(Engines::Kodik));
    assert_eq!(Downloaders::from_name("ffmpeg"), Some(Downloaders::Ffmpeg));
    assert_eq!(Quality::Hd720p.name(), "hd720p");
    assert_eq!(Quality::Low360p.name(), "low360p");
    assert_eq!(Mode::from_name("Play"), None);
    assert_eq!(Quality::from_name("720p"), None);
}

#[test]
fn default_config() {
    let c = Config::default();
    assert_eq!(c.mode, Mode::Play);
    assert_eq!(c.quality, Quality::Hd720p);
    assert_eq!(c.downloader, Downloaders::Ffmpeg);
    assert_eq!(c.engine, Engines::Kodik);
    assert_eq!(c.player, Players::Mpv);
    assert_eq!(c.kodik_api_key, "");
    assert_eq!(c.shikimori_api_url, "https://shikimori.io/api/animes");
}

#[test]
fn credentials_are_checked_in_order() {
    let mut c = Config::default();
    assert!(matches!(c.check_credentials(), Err(ConfigError::KodikApiKeyNotSet)));
    c.shikimori_api_url = String::new();
    assert!(matches!(c.check_credentials(), Err(ConfigError::KodikApiKeyNotSet)));
    c.kodik_api_key = "key".to_string();
    assert!(matches!(c.check_credentials(), Err(ConfigError::ShikimoriApiUrlNotSet)));
    c.shikimori_api_url = "u".to_string();
    assert!(c.check_credentials().is_ok());
}

#[test]
fn settings_path() {
    assert_eq!(config_path(Some("/x/c.toml".to_string()), Some("/home/u/.config".to_string())).unwrap(), "/x/c.toml");
    assert_eq!(config_path(None, Some("/home/u/.config".to_string())).unwrap(), "/home/u/.config/ani-dl/config.toml");
    assert!(matches!(config_path(None, None), Err(ConfigError::NotFound)));
}

fn cli() -> Cli {
    Cli {
        query: None,
        mode: None,
        quality: None,
        downloader: None,
        engine: None,
        player: None,
        output_dir: ".".to_string(),
        gen_kodik_key_script: false,
    }
}

#[test]
fn command_line_overrides_settings() {
    let mut c = cli();
    let r = runtime_config(Config::default(), &c);
    assert_eq!(r.mode, Mode::Play);
    assert_eq!(r.player, Players::Mpv);
    c.mode = Some(Mode::Download);
    c.player = Some(Players::Cine);
    c.quality = Some(Quality::Sd480p);
    let r = runtime_config(Config::default(), &c);
    assert_eq!(r.mode, Mode::Download);
    assert_eq!(r.player, Players::Cine);
    assert_eq!(r.quality, Quality::Sd480p);
    assert_eq!(r.shikimori_api_url, "https://shikimori.io/api/animes");
    let again = runtime_config(r.clone(), &c);
    assert_eq!(again.mode, r.mode);
    assert_eq!(again.quality, r.quality);
}

fn release(seasons: Option<Vec<Season>>) -> Release {
    Release {
        title: "T".to_string(),
        shikimori_id: None,
        translation: Translation { title: "Team".to_string(), id: 2 },
        seasons,
    }
}

#[test]
fn season_choice() {
    let e = choose_season(Engines::Kodik, release(None)).err().unwrap();
    assert_eq!(e.message(), "В базе kodik не найдены сезоны для T - Team (2)");
    assert!(matches!(e, EngineError::NotFoundSeasons { .. }));
    assert!(matches!(choose_season(Engines::Kodik, release(Some(vec![]))), Err(EngineError::NotFoundSeasons { .. })));
    let one = Season { title: Some("1".to_string()), episodes: vec![] };
    match choose_season(Engines::Kodik, release(Some(vec![one]))) {
        Ok(SeasonChoice::Only(s)) => assert_eq!(s.title.as_deref(), Some("1")),
        _ => panic!("expected the only season"),
    }
    let two = vec![Season { title: None, episodes: vec![] }, Season { title: None, episodes: vec![] }];
    match choose_season(Engines::Kodik, release(Some(two))) {
        Ok(SeasonChoice::Ask(v)) => assert_eq!(v.len(), 2),
        _ => panic!("expected a question"),
    }
}

#[test]
fn selection_and_bars() {
    assert!(matches!(check_selection(0), Err(CliError::EpisodesNotSelected)));
    assert!(check_selection(2).is_ok());
    assert_eq!(CliError::EpisodesNotSelected.message(), "Эпизоды не выбраны");
    assert_eq!(bar_action(Status::Finished), BarAction::FinishWithMessage);
    assert_eq!(bar_action(Status::Downloading), BarAction::SetMessage);
    assert_eq!(bar_action(Status::FailAttempt), BarAction::SetMessage);
    assert_eq!(bar_action(Status::Failed), BarAction::SetMessage);
}

#[test]
fn saved_marker_and_download_target() {
    let ep = Episode::new(5, "//k/5");
    let plain = EpisodeFile::new(&ep, String::new(), Some("Show"), "out");
    assert_eq!(plain.saved_marker(), FfmpegDownloader::targets(&plain.raw_location).1);
    let dotted = EpisodeFile::new(&ep, String::new(), Some("Dr. Stone"), "out");
    assert_ne!(dotted.saved_marker(), FfmpegDownloader::targets(&dotted.raw_location).1);
}
