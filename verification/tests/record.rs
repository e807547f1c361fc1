use std::path::PathBuf;

use retrovert_player::record::{
    clamp_ms, now_ms, ActivationLog, Event, EventKind, RecordFile, HISTORY_CAP, SCHEMA,
};
use retrovert_player::tree::TreePath;

fn place() -> TreePath {
    TreePath::new(PathBuf::from("/player")).join("activation.json")
}

#[test]
fn activation_moves_the_pins_and_survives_a_reload() {
    let mut log = ActivationLog::load(place(), None);
    log.activated("gen-a");
    log.activated("gen-b");
    log.fell_back("gen-c", "gen-b", "one library refused".to_string());

    let reloaded = ActivationLog::load(place(), Some(log.persist()));
    assert_eq!(reloaded.active(), Some("gen-b"));
    assert_eq!(reloaded.previous(), Some("gen-a"));
    let kinds: Vec<EventKind> = reloaded.history().iter().map(|event| event.what).collect();
    assert_eq!(
        kinds,
        vec![
            EventKind::Activated,
            EventKind::Activated,
            EventKind::FellBack
        ]
    );
}

#[test]
fn re_activating_the_active_generation_keeps_the_previous_pin() {
    let mut log = ActivationLog::load(place(), None);
    log.activated("gen-a");
    log.activated("gen-b");
    log.activated("gen-b");
    assert_eq!(log.previous(), Some("gen-a"));
}

#[test]
fn the_previous_pin_is_the_last_other_to_go_live() {
    let mut log = ActivationLog::load(place(), None);
    let mut pins = Vec::new();
    for id in ["gen-a", "gen-a", "gen-b", "gen-b", "gen-a", "gen-c"] {
        log.activated(id);
        log.probe_failed("gen-x", "refused".to_string());
        pins.push(log.previous().map(str::to_string));
    }
    let expected = [None, None, Some("gen-a"), Some("gen-a"), Some("gen-b"), Some("gen-a")];
    assert_eq!(pins, expected.map(|pin| pin.map(str::to_string)));
}

#[test]
fn a_corrupt_record_starts_fresh() {
    let parsed = serde_json::from_slice::<serde_json::Value>(b"not json at all").ok();
    assert!(parsed.is_none());
    let log = ActivationLog::load(place(), parsed.map(|_| RecordFile::default()));
    assert_eq!(log.active(), None);
    assert!(log.history().is_empty());
}

#[test]
fn a_record_of_another_schema_starts_fresh() {
    let stored = RecordFile {
        schema: SCHEMA + 1,
        active: Some("gen-a".to_string()),
        previous: Some("gen-0".to_string()),
        history: vec![Event {
            what: EventKind::Activated,
            generation: "gen-a".to_string(),
            detail: None,
            at_unix_ms: 5,
        }],
    };
    let log = ActivationLog::load(place(), Some(stored));
    assert_eq!(log.active(), None);
    assert_eq!(log.previous(), None);
    assert!(log.history().is_empty());
    assert_eq!(log.persist().schema, 1);
}

#[test]
fn a_stored_record_comes_back_field_by_field() {
    let mut log = ActivationLog::load(place(), None);
    log.activated("gen-a");
    log.push_at(EventKind::ProbeFailed, "gen-b", Some("0 of 1 plugins loaded".to_string()), 77);
    let stored = log.persist();
    assert_eq!(stored.schema, SCHEMA);
    assert_eq!(stored.active.as_deref(), Some("gen-a"));
    assert_eq!(stored.previous, None);
    let reloaded = ActivationLog::load(place(), Some(stored));
    assert_eq!(reloaded.path(), &place());
    let last = &reloaded.history()[1];
    assert_eq!(last.what, EventKind::ProbeFailed);
    assert_eq!(last.generation, "gen-b");
    assert_eq!(last.detail.as_deref(), Some("0 of 1 plugins loaded"));
    assert_eq!(last.at_unix_ms, 77);
}

#[test]
fn details_are_kept_as_they_are_said() {
    let mut log = ActivationLog::load(place(), None);
    log.fell_back("gen-c", "gen-b", "one library refused".to_string());
    log.probe_failed("gen-d", "no plugin".to_string());
    log.extract_failed("gen-e", "no archive".to_string());
    let details: Vec<Option<&str>> = log.history().iter().map(|e| e.detail.as_deref()).collect();
    assert_eq!(
        details,
        vec![
            Some("one library refused; reloaded gen-b"),
            Some("no plugin"),
            Some("no archive")
        ]
    );
    let kinds: Vec<EventKind> = log.history().iter().map(|event| event.what).collect();
    assert_eq!(
        kinds,
        vec![
            EventKind::FellBack,
            EventKind::ProbeFailed,
            EventKind::ExtractFailed
        ]
    );
    assert_eq!(log.active(), None);
    assert_eq!(log.previous(), None);
}

#[test]
fn the_history_drops_its_oldest_entries_over_the_cap() {
    let mut log = ActivationLog::load(place(), None);
    for i in 0..(HISTORY_CAP as i64 + 6) {
        log.push_at(EventKind::Activated, "gen", None, i);
    }
    assert_eq!(log.history().len(), 64);
    assert_eq!(log.history()[0].at_unix_ms, 6);
    assert_eq!(log.history()[63].at_unix_ms, 69);
}

#[test]
fn a_long_stored_history_is_cut_by_the_next_event() {
    let mut history = Vec::new();
    for i in 0..100 {
        history.push(Event {
            what: EventKind::Activated,
            generation: "gen".to_string(),
            detail: None,
            at_unix_ms: i,
        });
    }
    let stored = RecordFile {
        schema: 1,
        active: None,
        previous: None,
        history,
    };
    let mut log = ActivationLog::load(place(), Some(stored));
    assert_eq!(log.history().len(), 100);
    log.push_at(EventKind::Activated, "gen", None, 100);
    assert_eq!(log.history().len(), 64);
    assert_eq!(log.history()[0].at_unix_ms, 37);
    assert_eq!(log.history()[63].at_unix_ms, 100);
}

#[test]
fn times_are_clamped_to_what_the_record_holds() {
    assert_eq!(clamp_ms(None), 0);
    assert_eq!(clamp_ms(Some(0)), 0);
    assert_eq!(clamp_ms(Some(1_700_000_000_123)), 1_700_000_000_123);
    assert_eq!(clamp_ms(Some(i64::MAX as u128)), i64::MAX);
    assert_eq!(clamp_ms(Some(i64::MAX as u128 + 1)), i64::MAX);
    assert_eq!(clamp_ms(Some(u128::MAX)), i64::MAX);
}

#[test]
fn the_clock_is_past_the_start_of_the_century() {
    assert!(now_ms() > 946_684_800_000);
}
