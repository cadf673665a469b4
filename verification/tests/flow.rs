use evac::activity::Activities;
use evac::config::{HostPort, Server as ServerConfig};
use evac::database::{Auth, Data, Database};
use evac::entities::{Device, EventKind};
use evac::ids::Uuid;
use evac::messages::{Effect, ScannerContent, ScannerMessage, WebMessage};
use evac::scanner::Scanner;

fn id(v: u128) -> Uuid {
    Uuid { value: v }
}

fn empty_db() -> Database {
    Database {
        config: ServerConfig::default(),
        data: Data::default(),
        auth: Auth::default(),
        events: Vec::new(),
        activities: Activities::new(),
        version: String::new(),
    }
}

fn addr(ip: &str, port: u16) -> HostPort {
    HostPort { ip: String::from(ip), port }
}

fn register_msg(uuid: u128, mac: Vec<u8>) -> ScannerMessage {
    ScannerMessage { uuid: id(uuid), content: ScannerContent::Register { mac } }
}

fn scan_msg(uuid: u128, mac: Vec<u8>, rssi: i32, data: Vec<u8>) -> ScannerMessage {
    ScannerMessage {
        uuid: id(uuid),
        content: ScannerContent::ScanResult(evac::messages::ScanDevice { mac, rssi, data }),
    }
}

#[test]
fn scenario_register_creates_then_updates_in_place() {
    let mut db = empty_db();
    let mut dispatcher = Scanner::new();

    let effects = dispatcher.process_socket(
        &mut db,
        &addr("10.0.0.5", 5000),
        register_msg(1, vec![1, 2, 3, 4]),
        1_000,
    );
    assert_eq!(db.data.scanners.len(), 1);
    let first_uuid = db.data.scanners[0].uuid;
    assert_eq!(db.data.scanners[0].mac, vec![1, 2, 3, 4]);
    assert_eq!(db.data.scanners[0].ip, "10.0.0.5");
    assert_eq!(db.data.scanners[0].port, 5000);
    assert_eq!(db.data.scanners[0].name, "Scanner: 01020304");
    assert_eq!(effects.len(), 2);
    match &effects[0] {
        Effect::Broadcast(WebMessage::ScannerDetail(sc)) => {
            assert_eq!(sc.uuid, first_uuid);
        },
        other => panic!("expected a scanner detail broadcast, got {:?}", other),
    }
    match &effects[1] {
        Effect::ToScanner(ev) => {
            assert_eq!(ev.scanner, Some(first_uuid));
            match &ev.message.content {
                ScannerContent::SetState(st) => {
                    assert_eq!(st.scan, Some(false));
                    assert_eq!(st.led, Some(false));
                    assert_eq!(st.buzzer, Some(false));
                },
                other => panic!("expected an actuator push, got {:?}", other),
            }
        },
        other => panic!("expected an actuator push, got {:?}", other),
    }

    // Re-registering the same hardware address from a new port updates the
    // record in place.
    dispatcher.process_socket(
        &mut db,
        &addr("10.0.0.5", 5001),
        register_msg(2, vec![1, 2, 3, 4]),
        2_000,
    );
    assert_eq!(db.data.scanners.len(), 1);
    assert_eq!(db.data.scanners[0].uuid, first_uuid);
    assert_eq!(db.data.scanners[0].port, 5001);
    assert_eq!(db.data.scanners[0].last_activity, 2_000);
}

#[test]
fn scenario_scan_result_creates_device() {
    let mut db = empty_db();
    let mut dispatcher = Scanner::new();
    dispatcher.process_socket(
        &mut db,
        &addr("10.0.0.5", 5000),
        register_msg(1, vec![1, 2, 3, 4]),
        1_000,
    );
    let effects = dispatcher.process_socket(
        &mut db,
        &addr("10.0.0.5", 5000),
        scan_msg(2, vec![9, 9, 9], -50, Vec::new()),
        1_500,
    );
    assert_eq!(db.data.devices.len(), 1);
    assert_eq!(db.data.devices[0].mac, vec![9, 9, 9]);
    assert!(!db.data.devices[0].enabled);
    // A fresh device is announced, but no activity is tracked while it is
    // disabled.
    assert_eq!(effects.len(), 1);
    match &effects[0] {
        Effect::Broadcast(WebMessage::DeviceDetail(d)) => {
            assert_eq!(d.mac, vec![9, 9, 9]);
        },
        other => panic!("expected a device detail broadcast, got {:?}", other),
    }
    assert!(db.activities.best(db.data.devices[0].uuid).is_none());
}

#[test]
fn scenario_unknown_sender_is_dropped() {
    let mut db = empty_db();
    let mut dispatcher = Scanner::new();
    let effects = dispatcher.process_socket(
        &mut db,
        &addr("10.9.9.9", 4000),
        scan_msg(2, vec![9, 9, 9], -50, Vec::new()),
        1_500,
    );
    assert!(effects.is_empty());
    assert!(db.data.devices.is_empty());
    assert!(db.data.scanners.is_empty());
}

#[test]
fn scenario_vendor_payload_yields_battery_and_button_event() {
    let mut db = empty_db();
    let mut dispatcher = Scanner::new();
    dispatcher.process_socket(
        &mut db,
        &addr("10.0.0.5", 5000),
        register_msg(1, vec![1, 2, 3, 4]),
        1_000,
    );
    let scanner_uuid = db.data.scanners[0].uuid;

    // An enabled device, already observed once so that it has a best
    // scanner for event attribution.
    let device_uuid = id(77);
    db.data.devices.push(Device {
        uuid: device_uuid,
        name: Some(String::from("Button")),
        mac: vec![9, 9, 9],
        enabled: true,
        battery: None,
        last_activity: 1_000,
    });
    db.activities.push(device_uuid, scanner_uuid, 1_000, -55);

    // One advertisement record: vendor signature 210, 252; battery byte 60
    // at payload offset 6; button code 1 at offset 8.
    let payload: Vec<u8> = vec![210, 252, 0, 0, 0, 0, 60, 0, 1];
    let mut record: Vec<u8> = vec![payload.len() as u8 + 1, 22];
    record.extend_from_slice(&payload);

    // Scanned three seconds after the seed observation, so the refreshed
    // best timestamp also republishes the presence.
    let effects = dispatcher.process_socket(
        &mut db,
        &addr("10.0.0.5", 5000),
        scan_msg(2, vec![9, 9, 9], -50, record),
        4_000,
    );

    assert_eq!(db.data.devices[0].battery, Some(60));
    assert_eq!(db.events.len(), 1);
    assert_eq!(db.events[0].kind, EventKind::ButtonPressed);
    assert_eq!(db.events[0].device, Some(device_uuid));
    assert_eq!(db.events[0].scanner, scanner_uuid);
    // Effects: the event broadcast, the changed device detail, and the
    // presence update for the enabled device.
    assert_eq!(effects.len(), 3);
    match &effects[0] {
        Effect::Broadcast(WebMessage::Event(e)) => {
            assert_eq!(e.kind, EventKind::ButtonPressed);
            assert_eq!(e.scanner, scanner_uuid);
        },
        other => panic!("expected an event broadcast, got {:?}", other),
    }
    match &effects[2] {
        Effect::Broadcast(WebMessage::Activity(a)) => {
            assert_eq!(a.device, device_uuid);
            assert_eq!(a.scanner, scanner_uuid);
            assert_eq!(a.rssi, -50);
        },
        other => panic!("expected an activity broadcast, got {:?}", other),
    }
}

#[test]
fn scan_name_record_fills_missing_device_name() {
    let mut db = empty_db();
    let mut dispatcher = Scanner::new();
    dispatcher.process_socket(
        &mut db,
        &addr("10.0.0.5", 5000),
        register_msg(1, vec![1, 2, 3, 4]),
        1_000,
    );
    // "hi" as a complete-local-name record.
    let record: Vec<u8> = vec![3, 9, 104, 105];
    dispatcher.process_socket(
        &mut db,
        &addr("10.0.0.5", 5000),
        scan_msg(2, vec![9, 9, 9], -50, record),
        1_500,
    );
    assert_eq!(db.data.devices[0].name.as_deref(), Some("hi"));
}

#[test]
fn unknown_button_code_yields_no_event() {
    let mut db = empty_db();
    let mut dispatcher = Scanner::new();
    dispatcher.process_socket(
        &mut db,
        &addr("10.0.0.5", 5000),
        register_msg(1, vec![1, 2, 3, 4]),
        1_000,
    );
    let scanner_uuid = db.data.scanners[0].uuid;
    let device_uuid = id(77);
    db.data.devices.push(Device {
        uuid: device_uuid,
        name: None,
        mac: vec![9, 9, 9],
        enabled: true,
        battery: None,
        last_activity: 1_000,
    });
    db.activities.push(device_uuid, scanner_uuid, 1_000, -55);
    let payload: Vec<u8> = vec![210, 252, 0, 0, 0, 0, 60, 0, 7];
    let mut record: Vec<u8> = vec![payload.len() as u8 + 1, 22];
    record.extend_from_slice(&payload);
    dispatcher.process_socket(
        &mut db,
        &addr("10.0.0.5", 5000),
        scan_msg(2, vec![9, 9, 9], -50, record),
        2_000,
    );
    assert!(db.events.is_empty());
}
