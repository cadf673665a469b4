use evac::activity::Activities;
use evac::config::{NotifyAction, Server as ServerConfig};
use evac::context::Context;
use evac::database::{Auth, Data, Database};
use evac::entities::{
    Alarm, Contact, ContactGroup, ContactKind, Location, Notification, Role, Room, Scanner, User,
};
use evac::ids::Uuid;
use evac::messages::{AlarmInfo, Auth as Credentials, Effect, WebMessage};
use evac::operator::{Operator, ProcessError};

fn id(v: u128) -> Uuid {
    Uuid { value: v }
}

fn empty_ctx() -> Context {
    Context {
        database: Database {
            config: ServerConfig::default(),
            data: Data::default(),
            auth: Auth::default(),
            events: Vec::new(),
            activities: Activities::new(),
            version: String::new(),
        },
        alarms: Vec::new(),
    }
}

fn admin() -> Operator {
    Operator { uuid: id(1), roles: vec![Role::Admin], username: String::from("root") }
}

fn location(uuid: u128, name: &str) -> Location {
    Location { uuid: id(uuid), name: String::from(name) }
}

#[test]
fn roles_anonymous_can_log_in_but_not_edit() {
    let anon = Operator::new();
    assert!(anon.has_role(&WebMessage::Ping));
    assert!(anon.has_role(&WebMessage::Logout));
    assert!(!anon.has_role(&WebMessage::LocationSet(location(1, "Hall"))));
    assert!(!anon.has_role(&WebMessage::Backup(String::from("/tmp/x"))));
}

#[test]
fn roles_service_edits_but_does_not_back_up() {
    let svc = Operator { uuid: id(2), roles: vec![Role::Service], username: String::from("svc") };
    assert!(svc.has_role(&WebMessage::LocationSet(location(1, "Hall"))));
    assert!(!svc.has_role(&WebMessage::Backup(String::from("/tmp/x"))));
    assert!(!svc.has_role(&WebMessage::TokenGetForUser(id(1))));
}

#[test]
fn unauthorized_command_is_rejected_without_effect() {
    let mut ctx = empty_ctx();
    let mut anon = Operator::new();
    let effects = anon
        .process(&mut ctx, WebMessage::LocationSet(location(1, "Hall")), 0)
        .expect("rejection is not an error");
    assert!(ctx.database.data.locations.is_empty());
    assert_eq!(effects.len(), 1);
    match &effects[0] {
        Effect::Reply(WebMessage::Error(_)) => {},
        other => panic!("expected an error reply, got {:?}", other),
    }
}

#[test]
fn location_set_inserts_then_updates() {
    let mut ctx = empty_ctx();
    let mut op = admin();
    op.process(&mut ctx, WebMessage::LocationSet(location(1, "Hall")), 0).unwrap();
    assert_eq!(ctx.database.data.locations.len(), 1);
    let effects = op
        .process(&mut ctx, WebMessage::LocationSet(location(1, "Hall B")), 0)
        .unwrap();
    assert_eq!(ctx.database.data.locations.len(), 1);
    assert_eq!(ctx.database.data.locations[0].name, "Hall B");
    assert_eq!(effects.len(), 2);
    match &effects[0] {
        Effect::Broadcast(WebMessage::LocationDetail(l)) => assert_eq!(l.name, "Hall B"),
        other => panic!("expected a location detail, got {:?}", other),
    }
    match &effects[1] {
        Effect::SaveData => {},
        other => panic!("expected a save, got {:?}", other),
    }
}

#[test]
fn location_remove_refused_while_a_room_uses_it() {
    let mut ctx = empty_ctx();
    let mut op = admin();
    op.process(&mut ctx, WebMessage::LocationSet(location(1, "Hall")), 0).unwrap();
    ctx.database.data.rooms.push(Room {
        uuid: id(2),
        name: String::from("Room"),
        location: id(1),
        points: Vec::new(),
    });
    let effects = op.process(&mut ctx, WebMessage::LocationRemove(id(1)), 0).unwrap();
    assert_eq!(ctx.database.data.locations.len(), 1);
    assert_eq!(effects.len(), 2);
    match &effects[0] {
        Effect::Reply(WebMessage::Error(_)) => {},
        other => panic!("expected an integrity error, got {:?}", other),
    }
    match &effects[1] {
        Effect::Reply(WebMessage::Close) => {},
        other => panic!("expected a close, got {:?}", other),
    }
    // Without the room the removal goes through.
    op.process(&mut ctx, WebMessage::RoomRemove(id(2)), 0).unwrap();
    op.process(&mut ctx, WebMessage::LocationRemove(id(1)), 0).unwrap();
    assert!(ctx.database.data.locations.is_empty());
}

#[test]
fn missing_alarm_definition_fails_the_command() {
    let mut ctx = empty_ctx();
    let mut op = admin();
    let info = AlarmInfo {
        uuid: id(50),
        alarm: id(99),
        device: String::new(),
        scanner: String::new(),
        location: String::new(),
        room: String::new(),
    };
    let r = op.process(&mut ctx, WebMessage::Alarm(info), 0);
    assert_eq!(r.unwrap_err(), ProcessError::MissingAlarm);
    assert!(ctx.alarms.is_empty());
}

fn seeded_alarm_ctx() -> Context {
    let mut ctx = empty_ctx();
    ctx.database.data.notifications.push(Notification {
        uuid: id(30),
        name: String::from("Alert"),
        subject: String::from("Alarm"),
        long: String::from("Device %device% in %room%"),
        short: String::from("%device%!"),
    });
    ctx.database.data.contacts.push(Contact {
        uuid: id(41),
        name: String::from("Ann"),
        kind: ContactKind::Email { email: String::from("ann@example.net") },
    });
    ctx.database.data.contacts.push(Contact {
        uuid: id(42),
        name: String::from("Bob"),
        kind: ContactKind::Sms { number: String::from("123456") },
    });
    ctx.database.data.contact_group.push(ContactGroup {
        uuid: id(40),
        name: String::from("Oncall"),
        contacts: vec![id(41), id(42)],
    });
    ctx.database.data.alarms.push(Alarm {
        uuid: id(20),
        name: String::from("Evacuate"),
        buzzer: true,
        led: true,
        notification: id(30),
        group: id(40),
    });
    for k in 0..2u128 {
        ctx.database.data.scanners.push(Scanner {
            uuid: id(100 + k),
            name: format!("Scanner {}", k),
            ip: String::from("10.0.0.1"),
            port: 5000 + k as u16,
            mac: vec![k as u8, 2, 3, 4],
            room: None,
            last_activity: 0,
            led: false,
            buzzer: false,
            scan: true,
        });
    }
    ctx
}

#[test]
fn scenario_alarm_trigger_and_stop() {
    let mut ctx = seeded_alarm_ctx();
    let mut op = admin();
    let info = AlarmInfo {
        uuid: id(50),
        alarm: id(20),
        device: String::from("Button 7"),
        scanner: String::from("Scanner 0"),
        location: String::from("Plant"),
        room: String::from("Lobby"),
    };
    let effects = op.process(&mut ctx, WebMessage::Alarm(info), 0).unwrap();

    // Every scanner's actuators follow the definition, and the actuation is
    // broadcast to the scanners.
    assert!(ctx.database.data.scanners.iter().all(|s| s.buzzer && s.led));
    assert_eq!(ctx.alarms.len(), 1);
    assert_eq!(effects.len(), 4);
    match &effects[0] {
        Effect::ToScanner(ev) => {
            assert!(ev.scanner.is_none());
            match &ev.message.content {
                evac::messages::ScannerContent::SetState(st) => {
                    assert_eq!(st.buzzer, Some(true));
                    assert_eq!(st.led, Some(true));
                    assert_eq!(st.scan, None);
                },
                other => panic!("expected an actuator push, got {:?}", other),
            }
        },
        other => panic!("expected a scanner broadcast, got {:?}", other),
    }
    // Exactly two notifications, with the labels substituted.
    match &effects[2] {
        Effect::Notify(NotifyAction::Email { to, html, text, .. }) => {
            assert_eq!(to, "ann@example.net");
            assert_eq!(html, "Device Button 7 in Lobby");
            assert_eq!(text, "Button 7!");
        },
        other => panic!("expected an email, got {:?}", other),
    }
    match &effects[3] {
        Effect::Notify(NotifyAction::Sms { number, msg }) => {
            assert_eq!(number, "123456");
            assert_eq!(msg, "Button 7!");
        },
        other => panic!("expected a text message, got {:?}", other),
    }

    // Stopping the alarm silences every scanner and removes the instance.
    let effects = op.process(&mut ctx, WebMessage::AlarmStop(id(50)), 0).unwrap();
    assert!(ctx.database.data.scanners.iter().all(|s| !s.buzzer && !s.led));
    assert!(ctx.alarms.is_empty());
    match &effects[0] {
        Effect::ToScanner(ev) => match &ev.message.content {
            evac::messages::ScannerContent::SetState(st) => {
                assert_eq!(st.buzzer, Some(false));
                assert_eq!(st.led, Some(false));
            },
            other => panic!("expected an actuator push, got {:?}", other),
        },
        other => panic!("expected a scanner broadcast, got {:?}", other),
    }
}

#[test]
fn login_takes_identity_and_sends_snapshot() {
    let mut ctx = empty_ctx();
    ctx.database.auth.users.push(User {
        uuid: id(7),
        username: String::from("kim"),
        password: String::from("irrelevant-hash"),
        roles: vec![Role::Admin, Role::Service],
    });
    let mut op = Operator::new();
    let effects = op
        .process(
            &mut ctx,
            WebMessage::Login(Credentials::Login {
                username: String::from("kim"),
                password: String::from("pw"),
            }),
            0,
        )
        .unwrap();
    assert_eq!(op.username, "kim");
    assert_eq!(op.uuid, id(7));
    assert_eq!(op.roles, vec![Role::Admin, Role::Service]);
    // The snapshot: thirteen list messages, no active alarms, then the
    // session's own user info.
    assert_eq!(effects.len(), 14);
    match effects.last().unwrap() {
        Effect::Reply(WebMessage::UserInfo(ui)) => {
            assert_eq!(ui.username, "kim");
            assert!(ui.password.is_none());
        },
        other => panic!("expected the session's user info, got {:?}", other),
    }
}

#[test]
fn login_with_unknown_user_stays_anonymous() {
    let mut ctx = empty_ctx();
    let mut op = Operator::new();
    let effects = op
        .process(
            &mut ctx,
            WebMessage::Login(Credentials::Login {
                username: String::from("ghost"),
                password: String::from("pw"),
            }),
            0,
        )
        .unwrap();
    assert_eq!(op.username, "Anonymous");
    assert_eq!(effects.len(), 1);
}

#[test]
fn token_mint_and_lookup() {
    let mut ctx = empty_ctx();
    let mut op = admin();
    let effects = op.process(&mut ctx, WebMessage::TokenGet(None), 12_345).unwrap();
    assert_eq!(ctx.database.auth.tokens.len(), 1);
    let nonce = ctx.database.auth.tokens[0].nonce.clone();
    assert_eq!(nonce.len(), 16);
    assert_eq!(ctx.database.auth.tokens[0].user, id(1));
    assert_eq!(ctx.database.auth.tokens[0].created, 12_345);
    match &effects[0] {
        Effect::Reply(WebMessage::TokenDetail(Some(t))) => assert_eq!(t.nonce, nonce),
        other => panic!("expected the minted token, got {:?}", other),
    }
    // Looking the nonce up finds the stored token.
    let effects = op.process(&mut ctx, WebMessage::TokenGet(Some(nonce)), 0).unwrap();
    match &effects[0] {
        Effect::Reply(WebMessage::TokenDetail(Some(t))) => assert_eq!(t.user, id(1)),
        other => panic!("expected the stored token, got {:?}", other),
    }
}

#[test]
fn user_set_requires_password_for_new_accounts() {
    let mut ctx = empty_ctx();
    let mut op = admin();
    let r = op.process(
        &mut ctx,
        WebMessage::UserSet(evac::messages::UserInfo {
            username: String::from("new"),
            uuid: id(9),
            roles: vec![Role::Service],
            password: None,
        }),
        0,
    );
    assert_eq!(r.unwrap_err(), ProcessError::MissingPassword);
    assert!(ctx.database.auth.users.is_empty());
}

#[test]
fn user_set_stores_salted_hash() {
    let mut ctx = empty_ctx();
    ctx.database.config.base.salt = String::from("pepper");
    let mut op = admin();
    op.process(
        &mut ctx,
        WebMessage::UserSet(evac::messages::UserInfo {
            username: String::from("new"),
            uuid: id(9),
            roles: vec![Role::Service],
            password: Some(String::from("secret")),
        }),
        0,
    )
    .unwrap();
    assert_eq!(ctx.database.auth.users.len(), 1);
    let mut hasher: sha2::Sha256 = sha2::Digest::new();
    sha2::Digest::update(&mut hasher, "pepper");
    sha2::Digest::update(&mut hasher, "secret");
    let expected = hex::encode(sha2::Digest::finalize(hasher));
    assert_eq!(ctx.database.auth.users[0].password, expected);
}

#[test]
fn restore_command_only_requests_the_load() {
    let mut ctx = empty_ctx();
    let mut op = admin();
    let effects = op
        .process(&mut ctx, WebMessage::Restore(String::from("/tmp/b.json")), 0)
        .unwrap();
    assert_eq!(effects.len(), 1);
    match &effects[0] {
        Effect::LoadData(p) => assert_eq!(p, "/tmp/b.json"),
        other => panic!("expected a load request, got {:?}", other),
    }
}

#[test]
fn login_with_token_takes_the_token_owners_identity() {
    let mut ctx = empty_ctx();
    ctx.database.auth.users.push(User {
        uuid: id(7),
        username: String::from("kim"),
        password: String::from("irrelevant-hash"),
        roles: vec![Role::Service],
    });
    let mut admin_session = admin();
    admin_session
        .process(&mut ctx, WebMessage::TokenGetForUser(id(7)), 500)
        .unwrap();
    let nonce = ctx.database.auth.tokens[0].nonce.clone();

    let mut session = Operator::new();
    let effects = session
        .process(&mut ctx, WebMessage::Login(Credentials::Token(nonce)), 600)
        .unwrap();
    assert_eq!(session.username, "kim");
    assert_eq!(session.roles, vec![Role::Service]);
    assert_eq!(effects.len(), 14);
}
