use std::path::PathBuf;

use retrovert_player::catalog::{PluginCatalog, Step};
use retrovert_player::config::{CatalogConfig, ChannelConfig, Error, Interval};
use retrovert_player::desktop::{
    default_root, parse_args, parse_line, playing_line, resolve_file, status_lines, top_up,
    worker_config, Command, Duty, Input, Options, Received, Root, UpdaterStatus, Worker,
    BUFFERED_SAMPLES, CHANNELS, MAX_FRAMES, SAMPLE_RATE,
};
use retrovert_player::generation::Generation;
use retrovert_player::player::{LoadReport, Opened, PlaybackStatus, PlayerBackend, StreamFormat};
use retrovert_player::record::{Event, EventKind, RecordFile};
use retrovert_player::tree::TreePath;

fn strings(list: &[&str]) -> Vec<String> {
    list.iter().map(|s| s.to_string()).collect()
}

fn parsed(args: &[&str]) -> Result<Options, String> {
    parse_args(
        default_root(Some(PathBuf::from("/home/ada")), None),
        &strings(args),
    )
}

fn backend() -> PlayerBackend {
    PlayerBackend::new(
        LoadReport {
            plugins: Vec::new(),
            errors: Vec::new(),
        },
        StreamFormat {
            sample_rate: 48_000,
            channels: 2,
        },
        4_096,
    )
}

fn playing() -> PlayerBackend {
    let mut backend = backend();
    backend
        .mount(Ok(Opened {
            plugin_name: "openmpt".to_string(),
            extension: Some("mod".to_string()),
        }))
        .unwrap();
    backend
}

fn config() -> CatalogConfig<u8> {
    CatalogConfig::beneath(
        TreePath::new(PathBuf::from("/player")),
        ChannelConfig {
            metadata_base_url: "https://127.0.0.1:1/metadata/".to_string(),
            artifact_base_url: "https://127.0.0.1:1/artifacts/".to_string(),
        },
        vec![1, 2, 3],
        "linux-x86_64".to_string(),
        4,
    )
}

fn catalog(history: Vec<Event>) -> PluginCatalog {
    let stored = RecordFile {
        schema: 1,
        active: None,
        previous: None,
        history,
    };
    PluginCatalog::new(config(), ".so", Some(stored)).0
}

fn generation(id: &str) -> Generation {
    Generation {
        id: id.to_string(),
        dir: PathBuf::from("/player/generations").join(id),
        artifacts: Vec::new(),
        modified: None,
    }
}

#[test]
fn the_command_line_has_defaults() {
    let options = parsed(&[]).unwrap();
    match options.root {
        Root::Home(place) => {
            assert_eq!(place.base, PathBuf::from("/home/ada"));
            assert_eq!(place.segments, vec![".retrovert-player"]);
        }
        other => panic!("{other:?}"),
    }
    assert_eq!(options.interval, Interval { secs: 30, nanos: 0 });
    assert!(options.auto_apply);
    assert!(options.files.is_empty());
}

#[test]
fn the_command_line_is_obeyed() {
    let options = parsed(&[
        "a.mod",
        "--interval",
        "5",
        "--root",
        "--odd",
        "b.sid",
        "--no-auto-apply",
        "--interval",
        "+90",
        "-x",
    ])
    .unwrap();
    match options.root {
        Root::Given(path) => assert_eq!(path, "--odd"),
        other => panic!("{other:?}"),
    }
    assert_eq!(options.interval.secs, 90);
    assert!(!options.auto_apply);
    assert_eq!(options.files, vec!["a.mod", "b.sid", "-x"]);
}

#[test]
fn a_bad_command_line_says_why() {
    assert_eq!(parsed(&["--root"]).unwrap_err(), "--root needs a path");
    for args in [
        vec!["--interval"],
        vec!["--interval", "soon"],
        vec!["--interval", "-3"],
        vec!["--interval", "18446744073709551616"],
    ] {
        assert_eq!(parsed(&args).unwrap_err(), "--interval needs whole seconds");
    }
    for args in [vec!["--help"], vec!["x.mod", "-h", "--root"]] {
        assert_eq!(
            parsed(&args).unwrap_err(),
            "usage: retrovert-player-desktop [--root DIR] [--interval SECS] \
             [--no-auto-apply] [FILES..]"
        );
    }
}

#[test]
fn a_home_is_needed_even_when_a_root_is_given() {
    let homeless = parse_args(default_root(None, None), &strings(&["--root", "/tmp/r"]));
    assert_eq!(homeless.unwrap_err(), "no HOME to place --root under");
}

#[test]
fn the_user_profile_stands_in_for_a_home() {
    let both = default_root(Some(PathBuf::from("/h")), Some(PathBuf::from("/u"))).unwrap();
    assert_eq!(both.base, PathBuf::from("/h"));
    let one = default_root(None, Some(PathBuf::from("/u"))).unwrap();
    assert_eq!(one, TreePath::new(PathBuf::from("/u")).join(".retrovert-player"));
}

#[test]
fn an_index_picks_a_file() {
    let files = strings(&["a.mod", "b.sid"]);
    assert_eq!(resolve_file(&files, "0"), "a.mod");
    assert_eq!(resolve_file(&files, "+1"), "b.sid");
    assert_eq!(resolve_file(&files, "2"), "2");
    assert_eq!(resolve_file(&files, "-1"), "-1");
    assert_eq!(resolve_file(&files, "c.vgm"), "c.vgm");
    assert_eq!(resolve_file(&files, "99999999999999999999999"), "99999999999999999999999");
}

#[test]
fn lines_become_commands() {
    let files = strings(&["a.mod"]);
    match parse_line("  play 0 loud", &files) {
        Input::Send(Command::Play(path)) => assert_eq!(path, "a.mod"),
        other => panic!("{other:?}"),
    }
    match parse_line("play song.xm", &files) {
        Input::Send(Command::Play(path)) => assert_eq!(path, "song.xm"),
        other => panic!("{other:?}"),
    }
    assert!(matches!(parse_line("stop now", &files), Input::Send(Command::Stop)));
    assert!(matches!(parse_line("status", &files), Input::Send(Command::Status)));
    assert!(matches!(parse_line("check", &files), Input::Send(Command::Check)));
    assert!(matches!(parse_line("quit", &files), Input::Leave));
    assert!(matches!(parse_line("exit", &files), Input::Leave));
    assert!(matches!(parse_line(" \t ", &files), Input::Skip));
    for line in ["play", "Play x"] {
        match parse_line(line, &files) {
            Input::Complain(why) => {
                assert_eq!(why, format!("unknown command: {}", &line[..4]))
            }
            other => panic!("{other:?}"),
        }
    }
}

#[test]
fn topping_up_fills_a_fifth_of_a_second() {
    assert_eq!(BUFFERED_SAMPLES, (SAMPLE_RATE as usize / 5) * CHANNELS as usize);
    assert_eq!(top_up(BUFFERED_SAMPLES), None);
    assert_eq!(top_up(BUFFERED_SAMPLES + 1), None);
    assert_eq!(top_up(0), Some(MAX_FRAMES));
    assert_eq!(top_up(BUFFERED_SAMPLES - 8_192), Some(4_096));
    assert_eq!(top_up(BUFFERED_SAMPLES - 8_190), Some(4_095));
    assert_eq!(top_up(BUFFERED_SAMPLES - 3), Some(1));
    assert_eq!(top_up(BUFFERED_SAMPLES - 1), Some(0));
}

#[test]
fn a_worker_follows_the_development_channel() {
    let options = parsed(&["--interval", "7", "--no-auto-apply"]).unwrap();
    let root = TreePath::new(PathBuf::from("/r"));
    let config = worker_config(&options, root.clone(), vec![9], Some("linux-arm64"), ());
    assert_eq!(config.root, root);
    assert_eq!(config.cache_dir, root.join("cache"));
    assert_eq!(config.trust_state_dir, root.join("trust-state"));
    assert_eq!(
        config.channel.metadata_base_url,
        "https://github.com/RetrovertApp/playback_plugins/releases/download/dev/channel-metadata/"
    );
    assert_eq!(
        config.channel.artifact_base_url,
        "https://github.com/RetrovertApp/playback_plugins/releases/download/dev/v{version}/"
    );
    assert_eq!(config.embedded_root, vec![9]);
    assert_eq!(config.target, "linux-arm64");
    assert_eq!(config.check_interval, Interval { secs: 7, nanos: 0 });
    assert!(!config.auto_apply);
    let elsewhere = worker_config(&options, root, vec![], None, ());
    assert_eq!(elsewhere.target, "linux-x86_64");
}

#[test]
fn a_config_keeps_everything_beneath_its_root() {
    let config = config();
    assert_eq!(config.cache_dir, config.root.join("cache"));
    assert_eq!(config.trust_state_dir, config.root.join("trust-state"));
    assert_eq!(config.check_interval, Interval { secs: 3_600, nanos: 0 });
    assert!(config.auto_apply);
    let updater = config.updater();
    assert_eq!(updater.install_root, TreePath::new(PathBuf::from("/player")));
    assert_eq!(updater.target.as_deref(), Some("linux-x86_64"));
    assert_eq!(updater.embedded_root, vec![1, 2, 3]);
    assert_eq!(updater.workers, 4);
    assert!(updater.auto_apply);
}

#[test]
fn a_copied_config_is_the_same() {
    let config = config();
    let copy = config.clone();
    assert_eq!(copy.root, config.root);
    assert_eq!(copy.cache_dir, config.cache_dir);
    assert_eq!(copy.trust_state_dir, config.trust_state_dir);
    assert_eq!(copy.channel.metadata_base_url, config.channel.metadata_base_url);
    assert_eq!(copy.channel.artifact_base_url, config.channel.artifact_base_url);
    assert_eq!(copy.embedded_root, vec![1, 2, 3]);
    assert_eq!(copy.target, config.target);
    assert_eq!(copy.check_interval, config.check_interval);
    assert_eq!(copy.auto_apply, config.auto_apply);
    assert_eq!(copy.workers, 4);
}

#[test]
fn published_platforms_have_a_target() {
    let target = CatalogConfig::<()>::native_target;
    assert_eq!(target("linux", "x86_64"), Some("linux-x86_64"));
    assert_eq!(target("linux", "aarch64"), Some("linux-arm64"));
    assert_eq!(target("windows", "x86_64"), Some("windows-x86_64"));
    assert_eq!(target("windows", "aarch64"), None);
    assert_eq!(target("macos", "aarch64"), None);
}

#[test]
fn a_catalog_without_an_updater_is_none() {
    let (catalog, updater) = PluginCatalog::new(config(), ".so", None);
    assert_eq!(updater.install_root, config().root);
    assert_eq!(updater.cache_dir, config().cache_dir);
    assert_eq!(catalog.record().path(), &config().record_place());
    assert_eq!(catalog.payloads().root(), &config().payload_place());
    let refused: Result<(PluginCatalog, u8), Error> =
        catalog.with_updater(Err("bad root".to_string()));
    match refused {
        Err(error) => {
            assert_eq!(error.message(), "the updater could not be constructed");
            let Error::Updater(cause) = error;
            assert_eq!(cause, "bad root");
        }
        Ok(_) => panic!("a catalog"),
    }
    let (catalog, _) = PluginCatalog::new(config(), ".so", None);
    let (catalog, updater) = catalog.with_updater(Ok(7)).unwrap();
    assert_eq!(updater, 7);
    assert_eq!(catalog.active_generation(), None);
}

#[test]
fn commands_become_duties() {
    let worker = Worker::new();
    let mut backend = playing();
    match worker.receive(
        Received::Command(Command::Play("a.mod".to_string())),
        &mut backend,
    ) {
        Duty::Mount(path) => assert_eq!(path, "a.mod"),
        other => panic!("{other:?}"),
    }
    assert!(matches!(
        worker.receive(Received::Command(Command::Status), &mut backend),
        Duty::Show
    ));
    assert!(matches!(
        worker.receive(Received::Command(Command::Check), &mut backend),
        Duty::Check
    ));
    assert!(matches!(worker.receive(Received::Nothing, &mut backend), Duty::Nothing));
    assert!(matches!(worker.receive(Received::Disconnected, &mut backend), Duty::Return));
    assert!(matches!(
        worker.receive(Received::Command(Command::Quit), &mut backend),
        Duty::Return
    ));
    assert!(backend.is_live());
    assert!(matches!(
        worker.receive(Received::Command(Command::Stop), &mut backend),
        Duty::Nothing
    ));
    assert!(!backend.is_live());
}

#[test]
fn a_finished_song_makes_room_for_what_is_pending() {
    let worker = Worker::new();
    let mut catalog = catalog(Vec::new());
    catalog.inject_pending(generation("gen-a"));
    let mut backend = playing();
    let (finished, step) = worker.pump(Vec::new(), None, &mut catalog, &mut backend);
    assert!(!finished);
    assert!(matches!(step, Step::Idle));
    assert_eq!(backend.status(), PlaybackStatus::Playing);
    backend.rendered(1, true);
    let (finished, step) = worker.pump(Vec::new(), None, &mut catalog, &mut backend);
    assert!(finished);
    assert!(!backend.is_live());
    match step {
        Step::Extract(attempt) => assert_eq!(attempt.generation.id, "gen-a"),
        other => panic!("{other:?}"),
    }
    let (finished, step) = worker.pump(Vec::new(), None, &mut catalog, &mut backend);
    assert!(!finished);
    assert!(matches!(step, Step::Idle));
}

#[test]
fn a_failed_render_drops_the_session() {
    let worker = Worker::new();
    let mut backend = playing();
    worker.fed(false, &mut backend);
    assert!(backend.is_live());
    worker.fed(true, &mut backend);
    assert!(!backend.is_live());
    worker.fed(true, &mut backend);
    assert!(!backend.is_live());
}

#[test]
fn a_new_generation_is_announced_once() {
    let mut worker = Worker::new();
    let mut catalog = catalog(Vec::new());
    assert_eq!(worker.announce(&catalog), None);
    let mut backend = backend();
    let step = catalog.tick(vec![generation("gen-a")], None, &backend);
    let attempt = match step {
        Step::Extract(attempt) => attempt,
        other => panic!("{other:?}"),
    };
    let nothing = LoadReport {
        plugins: Vec::new(),
        errors: Vec::new(),
    };
    catalog.swapped(attempt, nothing, &mut backend);
    assert_eq!(
        worker.announce(&catalog).as_deref(),
        Some("catalog: active generation is now gen-a")
    );
    assert_eq!(worker.announce(&catalog), None);
    assert_eq!(
        playing_line("/m/a.mod", &playing(), &catalog),
        "playing /m/a.mod via openmpt (generation gen-a)"
    );
}

#[test]
fn a_status_shows_where_everything_stands() {
    let mut history = Vec::new();
    for i in 0..7 {
        history.push(Event {
            what: EventKind::Activated,
            generation: format!("gen-{i}"),
            detail: None,
            at_unix_ms: i,
        });
    }
    history.push(Event {
        what: EventKind::FellBack,
        generation: "gen-7".to_string(),
        detail: Some("refused; reloaded gen-6".to_string()),
        at_unix_ms: 7,
    });
    let mut catalog = catalog(history);
    catalog.inject_pending(generation("gen-8"));
    let updater = UpdaterStatus {
        phase: "Downloading".to_string(),
        percent: "42".to_string(),
        available: None,
        last_check: Some("UpToDate".to_string()),
        last_error: Some("offline".to_string()),
    };
    assert_eq!(
        status_lines(&playing(), &catalog, &updater),
        vec![
            "playback: Playing plugin 'openmpt' media 'mod'",
            "catalog: active none pending gen-8",
            "updater: Downloading progress 42% available none",
            "last check: UpToDate",
            "last error: offline",
            "history: FellBack gen-7 refused; reloaded gen-6",
            "history: Activated gen-6 ",
            "history: Activated gen-5 ",
            "history: Activated gen-4 ",
            "history: Activated gen-3 ",
        ]
    );
}

#[test]
fn a_status_of_nothing_is_short() {
    let updater = UpdaterStatus {
        phase: "Idle".to_string(),
        percent: "0".to_string(),
        available: Some("gen-a".to_string()),
        last_check: None,
        last_error: None,
    };
    assert_eq!(
        status_lines(&backend(), &catalog(Vec::new()), &updater),
        vec![
            "playback: Idle plugin '' media ''",
            "catalog: active none pending none",
            "updater: Idle progress 0% available gen-a",
        ]
    );
    assert_eq!(
        playing_line("x", &backend(), &catalog(Vec::new())),
        "playing x via  (generation none)"
    );
}
