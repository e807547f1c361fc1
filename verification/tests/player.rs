use retrovert_player::extensions::{supported_extensions, LoadedPlugin, PluginKind};
use retrovert_player::player::{
    select, BackendError, LoadReport, OpenRequest, Opened, PlaybackStatus, PlayerBackend,
    SessionFailure, StreamFormat,
};

const TARGET: StreamFormat = StreamFormat {
    sample_rate: 48_000,
    channels: 2,
};

fn plugin(kind: PluginKind, extensions: Option<&str>) -> LoadedPlugin {
    LoadedPlugin {
        kind,
        extensions: extensions.map(str::to_string),
    }
}

fn loads(plugins: Vec<LoadedPlugin>) -> LoadReport {
    LoadReport {
        plugins,
        errors: Vec::new(),
    }
}

fn backend() -> PlayerBackend {
    PlayerBackend::new(
        loads(vec![plugin(PluginKind::Playback, Some("vgm, VGZ|s98"))]),
        TARGET,
        4_096,
    )
}

fn opened() -> Result<Opened, BackendError> {
    Ok(Opened {
        plugin_name: "libvgm".to_string(),
        extension: Some("VGM".to_string()),
    })
}

#[test]
fn extensions_come_from_playback_plugins_alone() {
    let mut found = supported_extensions(&vec![
        plugin(PluginKind::Playback, Some("mod, XM")),
        plugin(PluginKind::Other, Some("png")),
        plugin(PluginKind::Playback, None),
        plugin(PluginKind::Playback, Some("xm|s3m, mod")),
    ]);
    found.sort();
    assert_eq!(found, vec!["mod", "s3m", "xm"]);
}

#[test]
fn an_extension_is_handled_with_a_dot_and_in_capitals() {
    let backend = backend();
    for extension in ["vgm", ".vgm", "VGM", "..VgZ", "s98"] {
        assert!(backend.can_handle_extension(extension), "{extension}");
    }
    for extension in ["not-a-media-extension", "", ".", "vgm.", " vgm"] {
        assert!(!backend.can_handle_extension(extension), "{extension}");
    }
}

#[test]
fn an_extension_listed_with_a_dot_is_never_asked_for() {
    let backend = PlayerBackend::new(
        loads(vec![plugin(PluginKind::Playback, Some(".sid"))]),
        TARGET,
        4_096,
    );
    assert!(!backend.can_handle_extension(".sid"));
    assert!(!backend.can_handle_extension("sid"));
}

#[test]
fn a_swap_replaces_the_set_and_the_index_and_drops_the_session() {
    let mut backend = backend();
    backend.mount(opened()).unwrap();
    assert!(backend.is_live());
    let report = backend.swap_plugins(LoadReport {
        plugins: vec![
            plugin(PluginKind::Playback, Some("sid")),
            plugin(PluginKind::Other, None),
            plugin(PluginKind::Playback, None),
        ],
        errors: vec!["one was rejected".to_string()],
    });
    assert_eq!(report.loaded, 2);
    assert_eq!(report.errors, vec!["one was rejected"]);
    assert!(!backend.is_live());
    assert!(backend.can_handle_extension("sid"));
    assert!(!backend.can_handle_extension("vgm"));
    backend.unload();
    assert!(!backend.can_handle_extension("sid"));
}

#[test]
fn a_mount_plays_from_the_start() {
    let mut backend = backend();
    assert_eq!(backend.status(), PlaybackStatus::Idle);
    assert_eq!(backend.plugin_name(), "");
    assert_eq!(backend.media_extension(), "");
    assert_eq!(backend.capture(), None);
    assert_eq!(
        backend.open_request(3),
        OpenRequest {
            subsong: 3,
            target: TARGET,
            max_frames: 4_096
        }
    );
    assert!(backend.mount(opened()).is_ok());
    assert_eq!(backend.status(), PlaybackStatus::Playing);
    assert_eq!(backend.plugin_name(), "libvgm");
    assert_eq!(backend.media_extension(), "vgm");
    assert_eq!(backend.capture(), Some(0));
}

#[test]
fn media_without_an_extension_has_an_empty_one() {
    let mut backend = backend();
    let bare = Opened {
        plugin_name: "tfmx".to_string(),
        extension: None,
    };
    assert!(backend.mount(Ok(bare)).is_ok());
    assert_eq!(backend.media_extension(), "");
}

#[test]
fn a_failed_mount_leaves_no_session() {
    let mut backend = backend();
    backend.mount(opened()).unwrap();
    let failed = backend.mount(Err(BackendError::NoPlugin));
    assert!(matches!(failed, Err(BackendError::NoPlugin)));
    assert!(!backend.is_live());
    assert_eq!(backend.status(), PlaybackStatus::Idle);
}

#[test]
fn pausing_twice_plays_on() {
    let mut backend = backend();
    assert_eq!(backend.toggle_pause(), None);
    backend.mount(opened()).unwrap();
    backend.rendered(100, false);
    assert_eq!(backend.toggle_pause(), Some(false));
    assert_eq!(backend.status(), PlaybackStatus::Paused);
    assert_eq!(backend.render(512), None);
    assert_eq!(backend.toggle_pause(), Some(true));
    assert_eq!(backend.status(), PlaybackStatus::Playing);
    assert_eq!(backend.capture(), Some(100));
}

#[test]
fn rendering_keeps_to_the_budget_and_counts_frames() {
    let mut backend = backend();
    assert_eq!(backend.render(2_048), None);
    backend.mount(opened()).unwrap();
    assert_eq!(backend.render(0), None);
    assert_eq!(backend.render(2_048), Some(2_048));
    assert_eq!(backend.render(4_096), Some(4_096));
    assert_eq!(backend.render(9_000), Some(4_096));
    backend.rendered(2_048, false);
    backend.rendered(52, false);
    assert_eq!(backend.capture(), Some(2_100));
    backend.rendered(u64::MAX, false);
    assert_eq!(backend.capture(), Some(u64::MAX));
}

#[test]
fn a_finished_session_is_over() {
    let mut backend = backend();
    backend.mount(opened()).unwrap();
    backend.rendered(7, true);
    assert_eq!(backend.status(), PlaybackStatus::Finished);
    assert!(backend.is_live());
    assert_eq!(backend.render(512), None);
    assert_eq!(backend.toggle_pause(), None);
    backend.close();
    assert_eq!(backend.status(), PlaybackStatus::Idle);
    backend.rendered(7, true);
    assert_eq!(backend.status(), PlaybackStatus::Idle);
}

#[test]
fn selecting_tells_a_refusal_from_unreadable_media() {
    assert_eq!(select(Ok(Some(5))).ok(), Some(5));
    let refused: Result<u8, BackendError> = select(Ok(None));
    assert!(matches!(refused, Err(BackendError::NoPlugin)));
    let unread: Result<u8, BackendError> = select(Err("gone".to_string()));
    match unread {
        Err(BackendError::Media(cause)) => assert_eq!(cause, "gone"),
        other => panic!("{other:?}"),
    }
}

#[test]
fn session_failures_keep_their_kind() {
    let cause = || "why".to_string();
    assert!(matches!(
        BackendError::from(SessionFailure::Session(cause())),
        BackendError::Session(_)
    ));
    assert!(matches!(
        BackendError::from(SessionFailure::Visualization(cause())),
        BackendError::Visualization(_)
    ));
    assert!(matches!(
        BackendError::from(SessionFailure::Other(cause())),
        BackendError::Runtime(_)
    ));
}

#[test]
fn errors_say_what_failed() {
    let cause = || "why".to_string();
    let said: Vec<&str> = [
        BackendError::Media(cause()),
        BackendError::NoPlugin,
        BackendError::Session(cause()),
        BackendError::Visualization(cause()),
        BackendError::Runtime(cause()),
    ]
    .iter()
    .map(BackendError::message)
    .collect();
    assert_eq!(
        said,
        vec![
            "could not read media",
            "no playback plugin accepted the media",
            "decode session failed",
            "visualization capture failed",
            "decode runtime failed"
        ]
    );
}

#[test]
fn a_status_is_called_what_it_is() {
    for status in [
        PlaybackStatus::Idle,
        PlaybackStatus::Loading,
        PlaybackStatus::Playing,
        PlaybackStatus::Paused,
        PlaybackStatus::Error,
        PlaybackStatus::Finished,
    ] {
        assert_eq!(status.name(), format!("{status:?}"));
    }
    assert_eq!(PlaybackStatus::default(), PlaybackStatus::Idle);
}
