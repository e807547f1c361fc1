use std::path::PathBuf;

use retrovert_player::catalog::{accepted, describe, PluginCatalog, Step};
use retrovert_player::config::{CatalogConfig, ChannelConfig};
use retrovert_player::extensions::{LoadedPlugin, PluginKind};
use retrovert_player::generation::{
    find, find_position, modified, sort_by_age, sort_for_boot, Generation,
};
use retrovert_player::payload::Installed;
use retrovert_player::player::{LoadReport, Opened, PlayerBackend, StreamFormat, SwapReport};
use retrovert_player::record::{EventKind, RecordFile};
use retrovert_player::tree::TreePath;

fn backend() -> PlayerBackend {
    PlayerBackend::new(
        LoadReport {
            plugins: Vec::new(),
            errors: Vec::new(),
        },
        StreamFormat {
            sample_rate: 48_000,
            channels: 2,
        },
        4_096,
    )
}

fn generation_id(seed: &str) -> String {
    // Digest-shaped, as the applier requires of ids reaching the disk.
    let mut id = format!("{seed:x>4}").repeat(16);
    id.truncate(64);
    id
}

fn artifact(name: &str) -> Installed {
    Installed {
        name: name.to_string(),
        target: None,
        version: None,
        revision: "abc1234".to_string(),
        sha256: format!("digest of {name}"),
        size: 22,
        path: format!("{name}.tar.zst"),
    }
}

fn mounted(backend: &mut PlayerBackend) {
    backend
        .mount(Ok(Opened {
            plugin_name: "spu".to_string(),
            extension: None,
        }))
        .unwrap();
}

/// A host whose disk and plugins are lists: a plugin called `spu` is no
/// loadable library, and one called `torn` does not extract.
struct Host {
    installed: Vec<(String, Vec<String>, i128)>,
    stored: Option<RecordFile>,
    evicted: Vec<String>,
    loads: Vec<Vec<String>>,
    listed: usize,
}

impl Host {
    fn new() -> Self {
        Host {
            installed: Vec::new(),
            stored: None,
            evicted: Vec::new(),
            loads: Vec::new(),
            listed: 0,
        }
    }

    fn install(&mut self, id: &str, artifacts: &[&str]) {
        let modified = self.installed.len() as i128;
        let artifacts = artifacts.iter().map(|name| name.to_string()).collect();
        self.installed.push((id.to_string(), artifacts, modified));
    }

    fn generations(&self) -> Vec<Generation> {
        self.installed
            .iter()
            .map(|(id, artifacts, modified)| Generation {
                id: id.clone(),
                dir: PathBuf::from("/player/generations").join(id),
                artifacts: artifacts.iter().map(|name| artifact(name)).collect(),
                modified: Some(*modified),
            })
            .collect()
    }

    fn find(&self, id: &str) -> Option<Generation> {
        find(self.generations(), id)
    }

    fn catalog(&mut self) -> PluginCatalog {
        let root = TreePath::new(PathBuf::from("/player"));
        let channel = ChannelConfig {
            metadata_base_url: "https://127.0.0.1:1/metadata/".to_string(),
            artifact_base_url: "https://127.0.0.1:1/artifacts/".to_string(),
        };
        let config =
            CatalogConfig::beneath(root, channel, Vec::new(), "linux-x86_64".to_string(), ());
        PluginCatalog::new(config, ".so", self.stored.take()).0
    }

    fn found(&mut self, catalog: &PluginCatalog) -> Vec<Generation> {
        if catalog.booted() {
            return Vec::new();
        }
        self.listed += 1;
        self.generations()
    }

    fn tick(&mut self, catalog: &mut PluginCatalog, backend: &mut PlayerBackend) {
        let found = self.found(catalog);
        let step = catalog.tick(found, None, backend);
        self.run(step, catalog, backend);
    }

    fn run(&mut self, first: Step, catalog: &mut PluginCatalog, backend: &mut PlayerBackend) {
        let mut step = first;
        loop {
            step = match step {
                Step::Idle => return,
                Step::Extract(attempt) => {
                    assert!(!backend.is_live());
                    let torn = attempt.generation.artifacts.iter().any(|a| a.name == "torn");
                    let result = if torn {
                        Err("torn".to_string())
                    } else {
                        let dir = catalog.payloads().dir_of(&attempt.generation.id);
                        Ok(catalog.payloads().libraries(&dir, &attempt.generation.artifacts))
                    };
                    catalog.extracted(attempt, result)
                }
                Step::Load(attempt, libraries) => {
                    assert!(!backend.is_live());
                    backend.unload();
                    let names: Vec<String> = libraries
                        .iter()
                        .map(|library| library.segments.last().unwrap().clone())
                        .collect();
                    let mut report = LoadReport {
                        plugins: Vec::new(),
                        errors: Vec::new(),
                    };
                    for name in &names {
                        if name.starts_with("spu") {
                            report.errors.push(format!("{name} is not a library"));
                        } else {
                            report.plugins.push(LoadedPlugin {
                                kind: PluginKind::Playback,
                                extensions: Some(name.replace("_playback.so", "")),
                            });
                        }
                    }
                    self.loads.push(names);
                    catalog.swapped(attempt, report, backend)
                }
                Step::Recall(recall) => {
                    self.stored = Some(catalog.record().persist());
                    catalog.recalled(recall, self.generations())
                }
                Step::Unload => {
                    self.stored = Some(catalog.record().persist());
                    backend.unload();
                    Step::Idle
                }
                Step::Persist => {
                    self.stored = Some(catalog.record().persist());
                    Step::Idle
                }
                Step::CleanUp(clean_up) => {
                    self.stored = Some(catalog.record().persist());
                    self.installed.retain(|generation| clean_up.live.contains(&generation.0));
                    self.evicted.extend(clean_up.digests);
                    Step::Idle
                }
            };
        }
    }
}

fn kinds(catalog: &PluginCatalog) -> Vec<EventKind> {
    catalog.history().iter().map(|e| e.what).collect()
}

#[test]
fn boot_activates_the_newest_generation_and_records_it() {
    let mut host = Host::new();
    let id = generation_id("a");
    host.install(&id, &[]);

    let mut catalog = host.catalog();
    let mut backend = backend();
    host.tick(&mut catalog, &mut backend);

    assert_eq!(catalog.active_generation(), Some(id.as_str()));
    assert_eq!(
        catalog.history().last().map(|e| e.what),
        Some(EventKind::Activated)
    );
    assert_eq!(host.stored.unwrap().active, Some(id));
}

#[test]
fn boot_reprobes_the_recorded_active_generation_over_a_newer_one() {
    let mut host = Host::new();
    let older = generation_id("a");
    let newer = generation_id("b");
    host.install(&older, &[]);
    host.install(&newer, &[]);
    host.stored = Some(RecordFile {
        schema: 1,
        active: Some(older.clone()),
        previous: None,
        history: Vec::new(),
    });

    let mut catalog = host.catalog();
    let mut backend = backend();
    host.tick(&mut catalog, &mut backend);

    assert_eq!(catalog.active_generation(), Some(older.as_str()));
}

#[test]
fn a_boot_generation_that_refuses_to_load_falls_back_to_the_next_newest() {
    let mut host = Host::new();
    let good = generation_id("a");
    let bad = generation_id("b");
    host.install(&good, &[]);
    host.install(&bad, &["spu"]);

    let mut catalog = host.catalog();
    let mut backend = backend();
    host.tick(&mut catalog, &mut backend);
    // The refusal re-arms pending; the next boundary tries the fallback.
    assert_eq!(catalog.pending_generation(), Some(good.as_str()));
    host.tick(&mut catalog, &mut backend);

    assert_eq!(catalog.active_generation(), Some(good.as_str()));
    assert_eq!(kinds(&catalog), vec![EventKind::ProbeFailed, EventKind::Activated]);
    assert_eq!(
        catalog.history()[0].detail.as_deref(),
        Some("0 of 1 plugins loaded: spu_playback.so is not a library")
    );
}

#[test]
fn a_refused_update_reloads_the_previous_generation() {
    let mut host = Host::new();
    let good = generation_id("a");
    host.install(&good, &[]);

    let mut catalog = host.catalog();
    let mut backend = backend();
    host.tick(&mut catalog, &mut backend);
    assert_eq!(catalog.active_generation(), Some(good.as_str()));

    let bad = generation_id("b");
    host.install(&bad, &["spu"]);
    let refused = host.find(&bad).expect("the published update");
    catalog.inject_pending(refused);
    host.tick(&mut catalog, &mut backend);

    assert_eq!(catalog.active_generation(), Some(good.as_str()));
    let last = catalog.history().last().expect("an event");
    assert_eq!(last.what, EventKind::FellBack);
    assert_eq!(last.generation, bad);
    assert_eq!(
        last.detail,
        Some(format!("the previous set was reloaded; reloaded {good}"))
    );
    // The refusal is the fall-back and nothing beside it.
    assert_eq!(kinds(&catalog), vec![EventKind::Activated, EventKind::FellBack]);
    let stored = host.stored.unwrap();
    assert_eq!(stored.history.len(), 2);
    assert_eq!(stored.active, Some(good));
}

#[test]
fn a_refused_set_is_not_on_record_before_the_reload() {
    let mut host = Host::new();
    host.install("gen-a", &["sid"]);
    let mut catalog = host.catalog();
    let mut backend = backend();
    host.tick(&mut catalog, &mut backend);
    host.install("gen-b", &["vgm", "spu"]);
    catalog.inject_pending(host.find("gen-b").unwrap());
    let Step::Extract(attempt) = catalog.tick(Vec::new(), None, &backend) else {
        panic!("no extraction");
    };
    let Step::Load(attempt, _) = catalog.extracted(attempt, Ok(Vec::new())) else {
        panic!("no load");
    };
    let report = LoadReport {
        plugins: Vec::new(),
        errors: vec!["torn".to_string(), "worn".to_string()],
    };
    let Step::Recall(recall) = catalog.swapped(attempt, report, &mut backend) else {
        panic!("no recall");
    };
    assert_eq!(recall.previous, "gen-a");
    assert_eq!(recall.refused.id, "gen-b");
    assert_eq!(
        recall.refused.detail.as_deref(),
        Some("0 of 2 plugins loaded: torn; worn")
    );
    assert_eq!(kinds(&catalog), vec![EventKind::Activated]);

    let step = catalog.recalled(recall, host.generations());
    host.run(step, &mut catalog, &mut backend);
    assert_eq!(kinds(&catalog), vec![EventKind::Activated, EventKind::FellBack]);
    assert_eq!(catalog.active_generation(), Some("gen-a"));
    assert!(backend.can_handle_extension("sid"));
}

/// A catalog at which `gen-a` was live and the set of `gen-b` was refused,
/// once `gen-a`, now made of `artifacts`, would not reload.
fn unrecovered(artifacts: &[&str]) -> PluginCatalog {
    let mut host = Host::new();
    host.install("gen-a", &["sid"]);
    let mut catalog = host.catalog();
    let mut backend = backend();
    host.tick(&mut catalog, &mut backend);
    host.installed.clear();
    host.install("gen-a", artifacts);
    host.install("gen-b", &["spu"]);
    catalog.inject_pending(host.find("gen-b").unwrap());
    host.tick(&mut catalog, &mut backend);
    assert_eq!(host.stored.unwrap().history.len(), catalog.history().len());
    assert!(!backend.can_handle_extension("sid"));
    catalog
}

#[test]
fn a_refusal_with_nothing_to_reload_is_a_failed_probe_of_both() {
    for artifacts in [["torn"], ["spu"]] {
        let catalog = unrecovered(&artifacts);
        assert_eq!(catalog.active_generation(), None);
        assert_eq!(
            kinds(&catalog),
            vec![
                EventKind::Activated,
                EventKind::ProbeFailed,
                EventKind::ProbeFailed
            ]
        );
        let [_, refused, previous] = catalog.history() else {
            panic!("three events");
        };
        assert_eq!(refused.generation, "gen-b");
        assert_eq!(
            refused.detail.as_deref(),
            Some("0 of 1 plugins loaded: spu_playback.so is not a library")
        );
        assert_eq!(previous.generation, "gen-a");
        assert_eq!(
            previous.detail.as_deref(),
            Some("the previous generation would not reload")
        );
    }
}

#[test]
fn activation_retires_everything_but_the_active_and_previous_generations() {
    let mut host = Host::new();
    let oldest = generation_id("a");
    let old = generation_id("b");
    host.install(&oldest, &[]);
    host.install(&old, &[]);

    let mut catalog = host.catalog();
    let mut backend = backend();
    host.tick(&mut catalog, &mut backend);
    assert_eq!(catalog.active_generation(), Some(old.as_str()));

    let newest = generation_id("c");
    host.install(&newest, &[]);
    let update = host.find(&newest).expect("the published update");
    catalog.inject_pending(update);
    host.tick(&mut catalog, &mut backend);

    assert_eq!(catalog.active_generation(), Some(newest.as_str()));
    let mut remaining: Vec<String> = host
        .generations()
        .into_iter()
        .map(|g| g.id)
        .collect();
    remaining.sort();
    let mut expected = vec![old.clone(), newest.clone()];
    expected.sort();
    assert_eq!(remaining, expected, "active and previous survive");
}

#[test]
fn a_song_finishes_on_the_generation_it_started_with() {
    let mut host = Host::new();
    host.install("gen-a", &["sid"]);
    let mut catalog = host.catalog();
    let mut backend = backend();
    host.tick(&mut catalog, &mut backend);
    assert!(backend.can_handle_extension("sid"));
    mounted(&mut backend);

    host.install("gen-b", &["vgm"]);
    let step = catalog.tick(Vec::new(), host.find("gen-b"), &backend);
    assert!(matches!(step, Step::Idle));
    host.tick(&mut catalog, &mut backend);
    assert_eq!(catalog.active_generation(), Some("gen-a"));
    assert_eq!(catalog.pending_generation(), Some("gen-b"));
    assert!(backend.is_live());

    backend.close();
    host.tick(&mut catalog, &mut backend);
    assert_eq!(catalog.active_generation(), Some("gen-b"));
    assert_eq!(catalog.pending_generation(), None);
    assert!(backend.can_handle_extension("vgm"));
    assert!(!backend.can_handle_extension("sid"));
    assert_eq!(host.evicted, vec!["digest of sid", "digest of vgm"]);
}

#[test]
fn a_mount_activates_what_is_pending_first() {
    let mut host = Host::new();
    host.install("gen-a", &["sid"]);
    let mut catalog = host.catalog();
    let mut backend = backend();
    mounted(&mut backend);
    let found = host.found(&catalog);
    let step = catalog.mount(found, &mut backend);
    assert!(!backend.is_live());
    host.run(step, &mut catalog, &mut backend);
    assert_eq!(catalog.active_generation(), Some("gen-a"));

    mounted(&mut backend);
    let step = catalog.mount(Vec::new(), &mut backend);
    assert!(matches!(step, Step::Idle));
    assert!(backend.is_live());
    assert_eq!(host.loads.len(), 1);
}

#[test]
fn a_newer_completion_supersedes_a_waiting_one() {
    let mut host = Host::new();
    let mut catalog = host.catalog();
    let mut backend = backend();
    host.tick(&mut catalog, &mut backend);
    mounted(&mut backend);
    host.install("gen-a", &[]);
    host.install("gen-b", &[]);
    catalog.tick(Vec::new(), host.find("gen-a"), &backend);
    catalog.tick(Vec::new(), host.find("gen-b"), &backend);
    assert_eq!(catalog.pending_generation(), Some("gen-b"));
    assert_eq!(catalog.active_generation(), None);
}

#[test]
fn the_live_generation_is_not_loaded_again() {
    let mut host = Host::new();
    host.install("gen-a", &["sid"]);
    let mut catalog = host.catalog();
    let mut backend = backend();
    host.tick(&mut catalog, &mut backend);
    let step = catalog.tick(Vec::new(), host.find("gen-a"), &backend);
    assert!(matches!(step, Step::Idle));
    assert_eq!(catalog.pending_generation(), None);
    assert_eq!(host.loads.len(), 1);
    assert_eq!(kinds(&catalog), vec![EventKind::Activated]);
}

#[test]
fn an_update_that_does_not_extract_reloads_the_previous_set() {
    let mut host = Host::new();
    host.install("gen-a", &["sid"]);
    let mut catalog = host.catalog();
    let mut backend = backend();
    host.tick(&mut catalog, &mut backend);
    host.install("gen-b", &["torn"]);
    catalog.inject_pending(host.find("gen-b").unwrap());
    host.tick(&mut catalog, &mut backend);
    assert_eq!(catalog.active_generation(), Some("gen-a"));
    assert!(backend.can_handle_extension("sid"));
    assert_eq!(
        kinds(&catalog),
        vec![
            EventKind::Activated,
            EventKind::ExtractFailed,
            EventKind::FellBack
        ]
    );
    assert_eq!(catalog.history()[1].detail.as_deref(), Some("torn"));
}

#[test]
fn a_previous_generation_that_is_gone_leaves_nothing_loaded() {
    let mut host = Host::new();
    host.install("gen-a", &["sid"]);
    let mut catalog = host.catalog();
    let mut backend = backend();
    host.tick(&mut catalog, &mut backend);
    host.installed.clear();
    host.install("gen-b", &["spu", "vgm"]);
    catalog.inject_pending(host.find("gen-b").unwrap());
    host.tick(&mut catalog, &mut backend);
    assert_eq!(catalog.active_generation(), None);
    assert!(!backend.can_handle_extension("vgm"));
    assert!(!backend.can_handle_extension("sid"));
    let last = catalog.history().last().unwrap();
    assert_eq!(last.what, EventKind::ProbeFailed);
    assert_eq!(last.generation, "gen-a");
    assert_eq!(
        last.detail.as_deref(),
        Some("the previous generation would not reload")
    );
    let refused = &catalog.history()[1];
    assert_eq!(refused.what, EventKind::ProbeFailed);
    assert_eq!(refused.generation, "gen-b");
    assert_eq!(
        refused.detail.as_deref(),
        Some("1 of 2 plugins loaded: spu_playback.so is not a library")
    );
    assert_eq!(catalog.history().len(), 3);
    assert_eq!(host.stored.unwrap().active.as_deref(), Some("gen-a"));
}

#[test]
fn a_boot_looks_at_the_disk_once() {
    let mut host = Host::new();
    let mut catalog = host.catalog();
    let mut backend = backend();
    for _ in 0..3 {
        host.tick(&mut catalog, &mut backend);
    }
    assert_eq!(host.listed, 1);
    host.install("gen-a", &[]);
    let step = catalog.tick(host.generations(), None, &backend);
    assert!(matches!(step, Step::Idle));
    assert_eq!(catalog.active_generation(), None);
}

#[test]
fn a_boot_drops_every_refused_set() {
    let mut host = Host::new();
    host.install("gen-a", &["torn"]);
    host.install("gen-b", &["vgm", "spu"]);
    let mut catalog = host.catalog();
    let mut backend = backend();
    host.tick(&mut catalog, &mut backend);
    assert!(!backend.can_handle_extension("vgm"));
    host.tick(&mut catalog, &mut backend);
    host.tick(&mut catalog, &mut backend);
    assert_eq!(catalog.active_generation(), None);
    assert_eq!(catalog.pending_generation(), None);
    assert_eq!(kinds(&catalog), vec![EventKind::ProbeFailed, EventKind::ExtractFailed]);
}

#[test]
fn a_boot_works_through_its_candidates_to_one_that_loads() {
    let mut host = Host::new();
    host.install("gen-a", &["mod"]);
    host.install("gen-b", &["sid"]);
    host.install("gen-c", &["torn"]);
    host.install("gen-d", &["vgm", "spu"]);
    let mut catalog = host.catalog();
    let mut backend = backend();
    let mut pending = Vec::new();
    for _ in 0..3 {
        host.tick(&mut catalog, &mut backend);
        pending.push(catalog.pending_generation().map(str::to_string));
    }
    assert_eq!(
        pending,
        vec![Some("gen-c".to_string()), Some("gen-b".to_string()), None]
    );
    assert_eq!(catalog.active_generation(), Some("gen-b"));
    assert!(backend.can_handle_extension("sid"));
    assert!(!backend.can_handle_extension("vgm"));
    assert_eq!(
        kinds(&catalog),
        vec![
            EventKind::ProbeFailed,
            EventKind::ExtractFailed,
            EventKind::Activated
        ]
    );
}

#[test]
fn every_event_reaches_the_stored_record() {
    let mut host = Host::new();
    host.install("gen-a", &["mod"]);
    host.install("gen-b", &["spu"]);
    let mut catalog = host.catalog();
    let mut backend = backend();
    for _ in 0..2 {
        let before = catalog.history().len();
        host.tick(&mut catalog, &mut backend);
        assert_eq!(catalog.history().len(), before + 1);
        let stored = host.stored.as_ref().unwrap();
        assert_eq!(stored.history.len(), before + 1);
        assert_eq!(stored.history[before].what, catalog.history()[before].what);
    }
    assert_eq!(host.stored.unwrap().active.as_deref(), Some("gen-a"));
}

#[test]
fn generations_are_tried_newest_first() {
    let aged = |id: &str, modified: Option<i128>| Generation {
        id: id.to_string(),
        dir: PathBuf::new(),
        artifacts: Vec::new(),
        modified,
    };
    let ids = |list: Vec<Generation>| -> Vec<String> { list.into_iter().map(|g| g.id).collect() };
    let list = || {
        vec![
            aged("d", Some(9)),
            aged("a", None),
            aged("c", Some(5)),
            aged("b", Some(0)),
            aged("z", Some(-4)),
            aged("c2", Some(5)),
        ]
    };
    assert_eq!(modified(&aged("x", None)), 0);
    assert_eq!(modified(&aged("x", Some(7))), 7);
    assert_eq!(ids(sort_by_age(list())), vec!["z", "a", "b", "c", "c2", "d"]);
    assert_eq!(
        ids(sort_for_boot(list(), Some("b"))),
        vec!["z", "a", "c", "c2", "d", "b"]
    );
    assert_eq!(
        ids(sort_for_boot(list(), Some("gone"))),
        vec!["z", "a", "b", "c", "c2", "d"]
    );
    assert_eq!(ids(sort_for_boot(list(), None)).last().unwrap(), "d");
    assert_eq!(find_position(&list(), "c2"), Some(5));
    assert_eq!(find_position(&list(), "q"), None);
    assert_eq!(find(list(), "b").map(|g| g.modified), Some(Some(0)));
    assert!(find(list(), "q").is_none());
}

#[test]
fn a_swap_is_accepted_whole_or_not_at_all() {
    let report = |loaded: usize, errors: &[&str]| SwapReport {
        loaded,
        errors: errors.iter().map(|e| e.to_string()).collect(),
    };
    assert!(accepted(&report(0, &[]), 0));
    assert!(accepted(&report(3, &[]), 3));
    assert!(!accepted(&report(2, &[]), 3));
    assert!(!accepted(&report(4, &[]), 3));
    assert!(!accepted(&report(3, &["x"]), 3));
    assert_eq!(describe(&report(2, &[]), 13), "2 of 13 plugins loaded");
    assert_eq!(
        describe(&report(10, &["no symbol", "no file"]), 12),
        "10 of 12 plugins loaded: no symbol; no file"
    );
}
