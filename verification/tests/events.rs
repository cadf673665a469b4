use evac::activity::Activities;
use evac::config::Server as ServerConfig;
use evac::database::{Auth, Data, Database};
use evac::entities::{Event, EventKind};
use evac::ids::Uuid;

fn id(v: u128) -> Uuid {
    Uuid { value: v }
}

fn empty_db() -> Database {
    Database {
        config: ServerConfig::default(),
        data: Data::default(),
        auth: Auth::default(),
        events: Vec::new(),
        activities: Activities::new(),
        version: String::new(),
    }
}

fn event(uuid: u128, ts: u64, scanner: u128, device: u128, kind: EventKind) -> Event {
    Event {
        uuid: id(uuid),
        timestamp: ts,
        scanner: id(scanner),
        device: Some(id(device)),
        kind,
    }
}

#[test]
fn record_inserts_first_occurrence() {
    let mut db = empty_db();
    let stored = db.record(event(1, 100, 10, 20, EventKind::ButtonPressed));
    assert_eq!(db.events.len(), 1);
    assert_eq!(stored.uuid, id(1));
    assert_eq!(stored.timestamp, 100);
}

#[test]
fn record_repeat_updates_timestamp_in_place() {
    let mut db = empty_db();
    db.record(event(1, 100, 10, 20, EventKind::ButtonPressed));
    let stored = db.record(event(2, 250, 10, 20, EventKind::ButtonPressed));
    // One row per (scanner, device, kind); the original event's identity
    // survives with a fresh timestamp.
    assert_eq!(db.events.len(), 1);
    assert_eq!(stored.uuid, id(1));
    assert_eq!(stored.timestamp, 250);
    assert_eq!(db.events[0].timestamp, 250);
}

#[test]
fn record_distinguishes_kind_scanner_and_device() {
    let mut db = empty_db();
    db.record(event(1, 100, 10, 20, EventKind::ButtonPressed));
    db.record(event(2, 110, 10, 20, EventKind::ButtonDoublePressed));
    db.record(event(3, 120, 11, 20, EventKind::ButtonPressed));
    db.record(event(4, 130, 10, 21, EventKind::ButtonPressed));
    assert_eq!(db.events.len(), 4);
    // No two rows share (scanner, device, kind).
    for i in 0..db.events.len() {
        for j in (i + 1)..db.events.len() {
            let a = &db.events[i];
            let b = &db.events[j];
            assert!(!(a.scanner == b.scanner && a.device == b.device && a.kind == b.kind));
        }
    }
}

#[test]
fn backup_records_each_path_once() {
    let mut db = empty_db();
    db.backup(String::from("/tmp/a.json"));
    db.backup(String::from("/tmp/b.json"));
    db.backup(String::from("/tmp/a.json"));
    assert_eq!(db.data.backups.len(), 2);
}

#[test]
fn restore_replaces_domain_registries() {
    let mut db = empty_db();
    db.backup(String::from("/tmp/a.json"));
    let mut fresh = Data::default();
    fresh.locations.push(evac::entities::Location {
        uuid: id(5),
        name: String::from("Hall"),
    });
    db.restore(fresh);
    assert_eq!(db.data.locations.len(), 1);
    assert_eq!(db.data.backups.len(), 0);
}
