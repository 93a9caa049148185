use ani_dl::download::Status;
use ani_dl::config::{Downloaders, Engines, Players, Quality};
use ani_dl::download::ffmpeg::{
    attempt_message, exit_result, finished_message, idle_timeout_error, on_output,
    progress_seconds, create_dir_error, DownloadRun, FfmpegDownloader, OutputAction, OutputEvent,
};
use ani_dl::download::retry::{Next, Outcome, Retry, MAX_ATTEMPTS};
use ani_dl::engine::{pick_link, player_url, QualityLinks};
use ani_dl::engines;
use ani_dl::error::{ConfigError, DownloaderError, EngineError, PlayerError, ShikimoriError};
use ani_dl::play::{command_for, exit_result as player_exit, Cine, Mpv};
use ani_dl::shikimori::{check_found, search_query, user_agent, Anime};

fn links() -> QualityLinks {
    QualityLinks {
        quality_720: vec!["https://cdn/720.m3u8".to_string(), "https://cdn/720b.m3u8".to_string()],
        quality_480: vec!["https://cdn/480.m3u8".to_string()],
        quality_360: vec![],
    }
}

#[test]
fn link_selection() {
    let l = links();
    assert_eq!(pick_link(&l, Quality::Hd720p, "u".to_string()).unwrap(), "https://cdn/720.m3u8");
    assert_eq!(pick_link(&l, Quality::Sd480p, "u".to_string()).unwrap(), "https://cdn/480.m3u8");
    let e = pick_link(&l, Quality::Low360p, "https://kodik/1".to_string()).err().unwrap();
    assert_eq!(
        e.message(),
        "Не удалось получить ссылку на m3u8 плейлист из url: \"https://kodik/1\" для kodik"
    );
    assert_eq!(player_url("//kodik.info/seria/1"), "https://kodik.info/seria/1");
    assert_eq!(EngineError::SearchError { engine: Engines::Kodik }.message(), "Не удалось ничего найти в базе kodik");
}

#[test]
fn player_commands() {
    let c = Mpv::command("https://x/1.m3u8");
    assert_eq!(c.program, "mpv");
    assert_eq!(c.args, vec!["--network-timeout=20", "https://x/1.m3u8"]);
    let c = Cine::command("f.mp4");
    assert_eq!(c.program, "cine");
    assert_eq!(c.args, vec!["f.mp4"]);
    assert_eq!(command_for(Players::Cine, "a").program, "cine");
    assert_eq!(command_for(Players::Mpv, "a").args.len(), 2);
    assert!(player_exit(Players::Mpv, true).is_ok());
    let e = player_exit(Players::Cine, false).err().unwrap();
    assert_eq!(e.message(), "Работа плеера cine завершилась с ошибкой");
    assert_eq!(
        PlayerError::NotFound { player: Players::Mpv }.message(),
        "Не удалось найти исполняемый файл плеера mpv"
    );
}

#[test]
fn shikimori_requests() {
    let a = Anime { id: 38691, name: "Dr. Stone".to_string(), russian: "Доктор Стоун".to_string() };
    assert_eq!(a.display(), "Доктор Стоун (38691)");
    let a = Anime { id: 1, name: "Name".to_string(), russian: String::new() };
    assert_eq!(a.display(), "Name (1)");
    assert_eq!(user_agent("0.3.1"), "ani-dl-rust/0.3.1");
    let q = search_query("стоун", 10);
    assert_eq!(
        q,
        vec![
            ("search".to_string(), "стоун".to_string()),
            ("limit".to_string(), "10".to_string()),
            ("order".to_string(), "popularity".to_string())
        ]
    );
    let e = check_found("zzz", vec![]).err().unwrap();
    assert_eq!(e.message(), "По запросу \"zzz\" в базе Shikimori ничего не найдено");
    assert_eq!(check_found("a", vec![Anime { id: 2, name: "n".to_string(), russian: String::new() }]).unwrap().len(), 1);
    assert_eq!(ShikimoriError::ApiNotSet.message(), "API url не указан");
    assert_eq!(ShikimoriError::ParseCrash.message(), "Не удалось распарсить ответ Shikimori");
}

#[test]
fn ffmpeg_command() {
    let args = FfmpegDownloader::args("https://cdn/a.m3u8", "mp4", "out/EP01.tmp");
    let expected = vec![
        "-timeout", "30000000", "-reconnect", "1", "-reconnect_streamed", "1",
        "-reconnect_delay_max", "5", "-loglevel", "error", "-i", "https://cdn/a.m3u8", "-c",
        "copy", "-f", "mp4", "-progress", "pipe:1", "out/EP01.tmp",
    ];
    assert_eq!(args, expected);
    let (tmp, done) = FfmpegDownloader::targets("out/EP01 - Dr. Stone");
    assert_eq!(tmp, "out/EP01 - Dr. Stone.tmp");
    assert_eq!(done, "out/EP01 - Dr. Stone.mp4");
}

#[test]
fn progress_lines() {
    assert_eq!(progress_seconds("out_time_ms=125000000"), Some(125));
    assert_eq!(progress_seconds("out_time_ms=999999"), Some(0));
    assert_eq!(progress_seconds("out_time_ms=N/A"), None);
    assert_eq!(progress_seconds("out_time_ms=-5"), None);
    assert_eq!(progress_seconds("out_time=00:00:01"), None);
    assert_eq!(progress_seconds("progress=continue"), None);
    assert!(matches!(on_output(&OutputEvent::Line("out_time_ms=3000000".to_string())), OutputAction::Progress { seconds: 3 }));
    assert!(matches!(on_output(&OutputEvent::Line("frame=1".to_string())), OutputAction::Skip));
    assert!(matches!(on_output(&OutputEvent::Closed), OutputAction::Finish));
    assert!(matches!(on_output(&OutputEvent::ReadFailed), OutputAction::Fail));
    assert!(matches!(on_output(&OutputEvent::Idle), OutputAction::StopIdle));
}

#[test]
fn downloader_errors() {
    let e = idle_timeout_error();
    assert!(matches!(e, DownloaderError::Timeout { downloader: Downloaders::Ffmpeg, timeout: 60 }));
    assert_eq!(e.message(), "Время на выполнение ffmpeg: 60 (секунд) закончилось");
    assert!(exit_result(true, String::new()).is_ok());
    let e = exit_result(false, "boom".to_string()).err().unwrap();
    assert_eq!(e.message(), "Работа ffmpeg завершилась с ошибкой: \"boom\"");
    assert_eq!(
        DownloaderError::NotFound { downloader: Downloaders::Ffmpeg }.message(),
        "Не удалось найти исполняемый файл ffmpeg"
    );
    assert_eq!(attempt_message("EP01", 2), "EP01 - попытка 2/5");
    assert_eq!(finished_message("EP01"), "Загружено: EP01");
}

#[test]
fn retries_are_bounded() {
    let mut r = Retry::new();
    assert_eq!(r.start(), Next::Run { attempt: 1 });
    let mut runs = 1;
    loop {
        match r.record(Outcome::Failed) {
            Next::Run { attempt } => {
                runs += 1;
                assert_eq!(attempt, runs);
            }
            Next::GiveUp => break,
            Next::Done => panic!("no success was reported"),
        }
    }
    assert_eq!(runs, MAX_ATTEMPTS);
    assert_eq!(r.record(Outcome::Failed), Next::GiveUp);
    assert_eq!(r.record(Outcome::Succeeded), Next::GiveUp);
    let mut r = Retry::new();
    r.start();
    assert_eq!(r.record(Outcome::Failed), Next::Run { attempt: 2 });
    assert_eq!(r.record(Outcome::Succeeded), Next::Done);
    assert_eq!(r.record(Outcome::Failed), Next::Done);
}

#[test]
fn config_messages() {
    assert_eq!(ConfigError::KodikApiKeyNotSet.message(), "В файле конфигурации не указан ключ для Kodik");
    assert_eq!(ConfigError::ShikimoriApiUrlNotSet.message(), "В файле конфигурации не указан URL для Shikimori API");
    assert_eq!(ConfigError::NotFound.message(), "Не удалось найти каталог конфигураций");
    assert_eq!(ConfigError::Read { path: "/c".to_string() }.message(), "Не удалось прочитать файл: /c");
    assert_eq!(ConfigError::Write { path: "/c".to_string() }.message(), "Не удалось записать файл: /c");
    assert_eq!(ConfigError::Parse { path: "/c".to_string() }.message(), "Не удалось распарсить файл: /c");
    assert_eq!(ConfigError::CreateDir { path: "/d".to_string() }.message(), "Не удалось создать директорию: /d");
}

#[test]
fn engine_interface_kinds() {
    assert_eq!(engines::Engines::Kodik, engines::Engines::Kodik);
    assert_ne!(engines::Quality::Hd720p, engines::Quality::Low360p);
}

#[test]
fn reports_of_tries() {
    // two failures, then a success
    let mut run = DownloadRun::new("EP02 - T".to_string());
    assert_eq!(run.start(), Some(1));
    assert_eq!(run.start(), None);
    let p = run.progress_report().unwrap();
    assert_eq!((p.id.as_str(), p.status, p.msg.as_str()), ("EP02 - T", Status::Downloading, "EP02 - T"));
    let s = run.record(Outcome::Failed).unwrap();
    assert_eq!((s.report.status, s.report.msg.as_str()), (Status::FailAttempt, "EP02 - T - попытка 1/5"));
    assert_eq!(s.next, Next::Run { attempt: 2 });
    let s = run.record(Outcome::Failed).unwrap();
    assert_eq!(s.report.msg, "EP02 - T - попытка 2/5");
    let s = run.record(Outcome::Succeeded).unwrap();
    assert_eq!((s.report.status, s.report.msg.as_str()), (Status::Finished, "Загружено: EP02 - T"));
    assert_eq!(s.report.id, "EP02 - T");
    assert_eq!(s.next, Next::Done);
    // nothing follows the final report
    assert!(run.record(Outcome::Failed).is_none());
    assert!(run.give_up("late".to_string()).is_none());
    assert!(run.progress_report().is_none());
}

#[test]
fn all_tries_fail() {
    let mut run = DownloadRun::new("EP01".to_string());
    run.start();
    let mut statuses = Vec::new();
    loop {
        let s = run.record(Outcome::Failed).unwrap();
        statuses.push(s.report.status);
        if s.next == Next::GiveUp {
            break;
        }
    }
    assert_eq!(statuses, vec![Status::FailAttempt; MAX_ATTEMPTS as usize]);
    assert!(run.give_up(String::new()).is_some());
    assert!(run.give_up("again".to_string()).is_none());
    let mut run = DownloadRun::new("EP01".to_string());
    run.start();
    for _ in 0..MAX_ATTEMPTS {
        run.record(Outcome::Failed);
    }
    let last = run.give_up("ffmpeg упал".to_string()).unwrap();
    assert_eq!((last.id.as_str(), last.status, last.msg.as_str()), ("EP01", Status::Failed, "ffmpeg упал"));
    assert!(run.record(Outcome::Succeeded).is_none());
}

#[test]
fn directory_failure() {
    let e = create_dir_error("/videos");
    assert_eq!(e.message(), "Работа ffmpeg завершилась с ошибкой: \"Не удалось создать директорию /videos\"");
}
