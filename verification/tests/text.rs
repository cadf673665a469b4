use evac::activity::Activities;
use evac::ble::{ble_uuid_to_vec, BleUuid};
use evac::broker::SessionQueue;
use evac::config::{Server as ServerConfig, SMS};
use evac::database::{Auth, Data, Database};
use evac::entities::{Contact, ContactGroup, ContactKind, Device};
use evac::ids::Uuid;
use evac::messages::WebMessage;
use evac::util::{bytes_eq, clamp_millis, elapsed_secs, hex_encode};

fn id(v: u128) -> Uuid {
    Uuid { value: v }
}

#[test]
fn hex_encode_matches_reference_encoder() {
    let samples: Vec<Vec<u8>> = vec![
        vec![],
        vec![0],
        vec![1, 2, 3, 4],
        vec![0xde, 0xad, 0xbe, 0xef],
        vec![255, 0, 127, 16],
    ];
    for bytes in samples {
        assert_eq!(hex_encode(&bytes), hex::encode(&bytes));
    }
}

#[test]
fn sms_auth_matches_reference_digests() {
    let sms = SMS {
        url: String::from("https://gateway.example.net"),
        login: String::from("operator"),
        auth: String::from("sms-shared-key"),
    };
    let msg = String::from("fire drill at noon");
    // The documented scheme: md5 of (hex(md5(auth)) ++ login ++ "send" ++ msg).
    let inner = hex::encode(md5::compute("sms-shared-key").0);
    let mut outer: Vec<u8> = Vec::new();
    outer.extend_from_slice(inner.as_bytes());
    outer.extend_from_slice(b"operator");
    outer.extend_from_slice(b"send");
    outer.extend_from_slice(msg.as_bytes());
    let expected = hex::encode(md5::compute(&outer).0);
    assert_eq!(sms.get_auth(&msg), expected);
}

#[test]
fn elapsed_secs_truncates_and_clamps() {
    assert_eq!(elapsed_secs(10_000, 8_500), 1);
    assert_eq!(elapsed_secs(10_000, 10_000), 0);
    assert_eq!(elapsed_secs(8_000, 10_000), 0);
    assert_eq!(elapsed_secs(22_000, 1_000), 21);
}

#[test]
fn clamp_millis_handles_pre_epoch_clock() {
    assert_eq!(clamp_millis(12), 12);
    assert_eq!(clamp_millis(-5), 0);
}

#[test]
fn bytes_eq_compares_contents() {
    assert!(bytes_eq(&vec![1, 2], &vec![1, 2]));
    assert!(!bytes_eq(&vec![1, 2], &vec![1, 3]));
    assert!(!bytes_eq(&vec![1, 2], &vec![1, 2, 3]));
}

#[test]
fn session_queue_drops_oldest_on_overflow() {
    let mut q = SessionQueue::new(2);
    q.push(WebMessage::Ping);
    q.push(WebMessage::Pong);
    q.push(WebMessage::Close);
    assert_eq!(q.len(), 2);
    match q.pop() {
        Some(WebMessage::Pong) => {},
        other => panic!("expected the second message to survive, got {:?}", other),
    }
    match q.pop() {
        Some(WebMessage::Close) => {},
        other => panic!("expected the newest message last, got {:?}", other),
    }
    assert!(q.pop().is_none());
}

#[test]
fn ble_uuid_bytes() {
    assert_eq!(ble_uuid_to_vec(BleUuid::Uuid16(0x1234)), vec![0x34, 0x12]);
    assert_eq!(
        ble_uuid_to_vec(BleUuid::Uuid32(0x0102_0304)),
        vec![0x04, 0x03, 0x02, 0x01]
    );
    let raw = [9u8; 16];
    assert_eq!(ble_uuid_to_vec(BleUuid::Uuid128(raw)), raw.to_vec());
}

#[test]
fn contacts_by_group_keeps_registry_order() {
    let mut data = Data::default();
    for (k, name) in ["a", "b", "c"].iter().enumerate() {
        data.contacts.push(Contact {
            uuid: id(k as u128 + 1),
            name: String::from(*name),
            kind: ContactKind::Email { email: format!("{}@example.net", name) },
        });
    }
    data.contact_group.push(ContactGroup {
        uuid: id(10),
        name: String::from("g"),
        contacts: vec![id(3), id(1)],
    });
    let picked = data.get_contacts_by_group(id(10));
    let names: Vec<&str> = picked.iter().map(|c| c.name.as_str()).collect();
    assert_eq!(names, vec!["a", "c"]);
    assert!(data.get_contacts_by_group(id(99)).is_empty());
}

#[test]
fn eviction_removes_stale_disabled_devices_only() {
    let mut db = Database {
        config: ServerConfig::default(),
        data: Data::default(),
        auth: Auth::default(),
        events: Vec::new(),
        activities: Activities::new(),
        version: String::new(),
    };
    // The default threshold is 15 seconds.
    db.data.devices.push(Device {
        uuid: id(1),
        name: None,
        mac: vec![1],
        enabled: false,
        battery: None,
        last_activity: 1_000,
    });
    db.data.devices.push(Device {
        uuid: id(2),
        name: None,
        mac: vec![2],
        enabled: true,
        battery: None,
        last_activity: 1_000,
    });
    db.data.devices.push(Device {
        uuid: id(3),
        name: None,
        mac: vec![3],
        enabled: false,
        battery: None,
        last_activity: 99_000,
    });
    db.activities.push(id(1), id(50), 1_000, -40);
    let effects = evac::server::web_routine(&mut db, 100_000);
    let left: Vec<u128> = db.data.devices.iter().map(|d| d.uuid.value).collect();
    assert_eq!(left, vec![2, 3]);
    assert_eq!(effects.len(), 1);
    match &effects[0] {
        evac::messages::Effect::Broadcast(WebMessage::DeviceRemoved(u)) => {
            assert_eq!(*u, id(1));
        },
        other => panic!("expected a removal broadcast, got {:?}", other),
    }
    // The stale observation is gone from the tracker as well.
    assert!(db.activities.best(id(1)).is_none());
}

#[test]
fn scanner_map_overwrites_by_identity_or_address() {
    let mut map = evac::scanner::ScannerMap::new();
    let a1 = evac::config::HostPort { ip: String::from("10.0.0.1"), port: 1000 };
    let a2 = evac::config::HostPort { ip: String::from("10.0.0.2"), port: 2000 };
    map.set(id(1), a1.clone());
    assert_eq!(map.get_uuid(&a1), Some(id(1)));
    // The same scanner moves to a new address.
    map.set(id(1), a2.clone());
    let got = map.get_addr(&id(1)).expect("mapped");
    assert_eq!(got.ip, "10.0.0.2");
    assert!(map.get_uuid(&a1).is_none());
    // Another scanner takes over the old address.
    map.set(id(2), a1.clone());
    assert_eq!(map.get_uuid(&a1), Some(id(2)));
    assert!(map.has_uuid(&id(2)));
    assert!(map.has_addr(&a2));
}

#[test]
fn default_config_matches_documented_values() {
    let cfg = ServerConfig::default();
    assert_eq!(cfg.base.query_size, 16);
    assert_eq!(cfg.base.activity_diff, 15);
    assert_eq!(cfg.base.routine, 5);
    assert_eq!(cfg.base.port_web.port, 3030);
    assert_eq!(cfg.base.port_scanner.port, 3031);
    assert_eq!(cfg.base.port_broadcast.ip, "255.255.255.255");
    assert_eq!(cfg.notification.email.server, "smtp");
    assert_eq!(cfg.notification.email.port, 587);
}
