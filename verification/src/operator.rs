use vstd::prelude::*;

use crate::context::Context;
use crate::entities::Role;
use crate::ids::Uuid;
use crate::messages::{Activity, Auth, Effect, UserInfo, Version, WebMessage};
use crate::util::clone_list;

verus! {

// ---------------------------------------------------------------------------
// Operator sessions: role filtering at the session boundary, the login
// snapshot, and command processing.
// ---------------------------------------------------------------------------

/// One operator session's identity.
pub struct Operator {
    pub uuid: Uuid,
    pub roles: Vec<Role>,
    pub username: String,
}

/// Why a command failed; the command is not applied.
#[derive(Clone, Copy, Debug, PartialEq, Eq, Structural)]
pub enum ProcessError {
    /// The referenced alarm definition does not exist.
    MissingAlarm,
    /// The referenced notification template does not exist.
    MissingNotification,
    /// A new user was submitted without a password.
    MissingPassword,
}

/// Which roles a message requires. Session control is open to everyone;
/// configuration, backups and token issuing for other users are for
/// administrators; everything else is for administrators and services.
pub open spec fn allowed(roles: Seq<Role>, msg: &WebMessage) -> bool {
    match msg {
        WebMessage::Close => true,
        WebMessage::Login(..) => true,
        WebMessage::Logout => true,
        WebMessage::UserInfo(..) => true,
        WebMessage::Ping => true,
        WebMessage::Pong => true,
        WebMessage::Version(..) => true,
        WebMessage::Error(..) => true,
        WebMessage::Config(..) => roles.contains(Role::Admin),
        WebMessage::TokenGetForUser(..) => roles.contains(Role::Admin),
        WebMessage::Backup(..) => roles.contains(Role::Admin),
        WebMessage::BackupList(..) => roles.contains(Role::Admin),
        WebMessage::BackupRemove(..) => roles.contains(Role::Admin),
        WebMessage::Restore(..) => roles.contains(Role::Admin),
        _ => roles.contains(Role::Admin) || roles.contains(Role::Service),
    }
}

/// Whether a role list holds a role.
fn roles_contain(roles: &Vec<Role>, role: Role) -> (r: bool)
    ensures
        r == roles@.contains(role),
{
    let mut i: usize = 0;
    while i < roles.len()
        invariant
            i <= roles@.len(),
            forall|j: int| 0 <= j < i ==> roles@[j] != role,
        decreases roles@.len() - i,
    {
        if roles[i] == role {
            return true;
        }
        i += 1;
    }
    proof {
        assert(forall|j: int| 0 <= j < roles@.len() ==> roles@[j] != role);
    }
    false
}

/// The user list as shown to operators: the stored accounts without their
/// password hashes.
pub open spec fn spec_user_infos(users: Seq<crate::entities::User>) -> Seq<
    crate::messages::UserInfoView,
> {
    Seq::new(
        users.len(),
        |i: int| crate::messages::UserInfoView {
            username: users[i]@.username,
            uuid: users[i]@.uuid,
            roles: users[i]@.roles,
            password: Option::None,
        },
    )
}

/// The presence snapshot sent at login: for every enabled device with at
/// least one observation, its best scanner, in device order.
pub open spec fn spec_activity_list(
    devices: Seq<crate::entities::Device>,
    acts: crate::activity::Activities,
) -> Seq<Activity>
    decreases devices.len(),
{
    if devices.len() == 0 {
        Seq::empty()
    } else {
        let rest = spec_activity_list(devices.drop_last(), acts);
        let d = devices.last();
        if d@.enabled {
            match crate::activity::best_of(acts.activities_of(d@.uuid)) {
                Option::Some(b) => rest.push(
                    Activity {
                        device: d@.uuid,
                        scanner: b.scanner_uuid,
                        rssi: b.irssi,
                        timestamp: b.timestamp,
                    },
                ),
                Option::None => rest,
            }
        } else {
            rest
        }
    }
}


/// The login snapshot: the configuration, every registry's list, the
/// presence list, the event log, the visible user list, the backups, and
/// one message per firing alarm.
pub open spec fn snapshot_effects(o: Context, r: Seq<Effect>) -> bool {
    &&& r.len() >= 13 + o.alarms@.len()
    &&& (r[0] matches Effect::Reply(m) && m matches WebMessage::Config(c) && c@
        == o.database.config@)
    &&& (r[1] matches Effect::Reply(m) && m matches WebMessage::LocationList(v) && v.deep_view()
        == o.database.data.locations.deep_view())
    &&& (r[2] matches Effect::Reply(m) && m matches WebMessage::RoomList(v) && v.deep_view()
        == o.database.data.rooms.deep_view())
    &&& (r[3] matches Effect::Reply(m) && m matches WebMessage::ScannerList(v) && v.deep_view()
        == o.database.data.scanners.deep_view())
    &&& (r[4] matches Effect::Reply(m) && m matches WebMessage::DeviceList(v) && v.deep_view()
        == o.database.data.devices.deep_view())
    &&& (r[5] matches Effect::Reply(m) && m matches WebMessage::ActivityList(v) && v@
        == spec_activity_list(o.database.data.devices@, o.database.activities))
    &&& (r[6] matches Effect::Reply(m) && m matches WebMessage::EventList(v) && v@
        == o.database.events@)
    &&& (r[7] matches Effect::Reply(m) && m matches WebMessage::AlarmList(v) && v.deep_view()
        == o.database.data.alarms.deep_view())
    &&& (r[8] matches Effect::Reply(m) && m matches WebMessage::NotificationList(v)
        && v.deep_view() == o.database.data.notifications.deep_view())
    &&& (r[9] matches Effect::Reply(m) && m matches WebMessage::UserList(v) && v.deep_view()
        == spec_user_infos(o.database.auth.users@))
    &&& (r[10] matches Effect::Reply(m) && m matches WebMessage::ContactList(v) && v.deep_view()
        == o.database.data.contacts.deep_view())
    &&& (r[11] matches Effect::Reply(m) && m matches WebMessage::ContactGroupList(v)
        && v.deep_view() == o.database.data.contact_group.deep_view())
    &&& (r[12] matches Effect::Reply(m) && m matches WebMessage::BackupList(v) && v.deep_view()
        == o.database.data.backups.deep_view())
    &&& forall|k: int|
        0 <= k < o.alarms@.len() ==> (#[trigger] r[13 + k] matches Effect::Reply(m)
            && m matches WebMessage::Alarm(a) && a@ == o.alarms@[k].1@)
}

impl Operator {
    /// A fresh session: anonymous until it logs in.
    pub fn new() -> (r: Operator)
        ensures
            r.uuid.value == 0,
            r.roles@ == seq![Role::Anonymous],
            r.username@ == "Anonymous"@,
    {
        let mut roles: Vec<Role> = Vec::new();
        roles.push(Role::Anonymous);
        proof {
            assert(roles@ =~= seq![Role::Anonymous]);
        }
        Operator { uuid: Uuid::nil(), roles, username: "Anonymous".to_owned() }
    }

    /// Whether this session may see or send the message.
    pub fn has_role(&self, msg: &WebMessage) -> (r: bool)
        ensures
            r == allowed(self.roles@, msg),
    {
        match msg {
            WebMessage::Close => true,
            WebMessage::Login(..) => true,
            WebMessage::Logout => true,
            WebMessage::UserInfo(..) => true,
            WebMessage::Ping => true,
            WebMessage::Pong => true,
            WebMessage::Version(..) => true,
            WebMessage::Error(..) => true,
            WebMessage::Config(..) => roles_contain(&self.roles, Role::Admin),
            WebMessage::TokenGetForUser(..) => roles_contain(&self.roles, Role::Admin),
            WebMessage::Backup(..) => roles_contain(&self.roles, Role::Admin),
            WebMessage::BackupList(..) => roles_contain(&self.roles, Role::Admin),
            WebMessage::BackupRemove(..) => roles_contain(&self.roles, Role::Admin),
            WebMessage::Restore(..) => roles_contain(&self.roles, Role::Admin),
            _ => {
                let admin = roles_contain(&self.roles, Role::Admin);
                if admin {
                    true
                } else {
                    roles_contain(&self.roles, Role::Service)
                }
            },
        }
    }

    /// The build identification message.
    pub fn version(&self, commit: String, number: String) -> (r: Effect)
        ensures
            (r matches Effect::Reply(m) && m matches WebMessage::Version(v) && v.commit@ == commit@
                && v.number@ == number@),
    {
        Effect::Reply(WebMessage::Version(Version { commit, number }))
    }

    /// The full state snapshot sent to a session after it authenticates:
    /// the configuration, every registry, the presence list, the event log,
    /// the visible user list, the backups, and one message per firing
    /// alarm.
    pub fn login(&self, ctx: &Context) -> (r: Vec<Effect>)
        ensures
            r@.len() == 13 + ctx.alarms@.len(),
            snapshot_effects(*ctx, r@),
    {
        let mut r: Vec<Effect> = Vec::new();
        r.push(Effect::Reply(WebMessage::Config(ctx.database.config.clone())));
        r.push(Effect::Reply(WebMessage::LocationList(clone_list(&ctx.database.data.locations))));
        r.push(Effect::Reply(WebMessage::RoomList(clone_list(&ctx.database.data.rooms))));
        r.push(Effect::Reply(WebMessage::ScannerList(clone_list(&ctx.database.data.scanners))));
        r.push(Effect::Reply(WebMessage::DeviceList(clone_list(&ctx.database.data.devices))));
        let mut activity_list: Vec<Activity> = Vec::new();
        let mut i: usize = 0;
        while i < ctx.database.data.devices.len()
            invariant
                i <= ctx.database.data.devices@.len(),
                activity_list@ == spec_activity_list(
                    ctx.database.data.devices@.subrange(0, i as int),
                    ctx.database.activities,
                ),
            decreases ctx.database.data.devices@.len() - i,
        {
            let d = &ctx.database.data.devices[i];
            proof {
                assert(ctx.database.data.devices@.subrange(0, i as int + 1).drop_last()
                    =~= ctx.database.data.devices@.subrange(0, i as int));
                assert(ctx.database.data.devices@.subrange(0, i as int + 1).last()
                    == ctx.database.data.devices@[i as int]);
            }
            if d.enabled {
                let best = ctx.database.activities.best(d.uuid);
                match best {
                    Option::Some(b) => {
                        activity_list.push(
                            Activity {
                                device: d.uuid,
                                scanner: b.scanner_uuid,
                                rssi: b.irssi,
                                timestamp: b.timestamp,
                            },
                        );
                    },
                    Option::None => {},
                }
            }
            i += 1;
        }
        proof {
            assert(ctx.database.data.devices@.subrange(0, ctx.database.data.devices@.len() as int)
                =~= ctx.database.data.devices@);
        }
        r.push(Effect::Reply(WebMessage::ActivityList(activity_list)));
        r.push(Effect::Reply(WebMessage::EventList(crate::util::copy_vec(&ctx.database.events))));
        r.push(Effect::Reply(WebMessage::AlarmList(clone_list(&ctx.database.data.alarms))));
        r.push(
            Effect::Reply(
                WebMessage::NotificationList(clone_list(&ctx.database.data.notifications)),
            ),
        );
        let mut user_list: Vec<UserInfo> = Vec::new();
        let mut j: usize = 0;
        while j < ctx.database.auth.users.len()
            invariant
                j <= ctx.database.auth.users@.len(),
                user_list.deep_view() == spec_user_infos(ctx.database.auth.users@).subrange(
                    0,
                    j as int,
                ),
            decreases ctx.database.auth.users@.len() - j,
        {
            let u = &ctx.database.auth.users[j];
            let ghost prev = user_list.deep_view();
            user_list.push(
                UserInfo {
                    username: u.username.clone(),
                    uuid: u.uuid,
                    roles: crate::util::copy_vec(&u.roles),
                    password: None,
                },
            );
            proof {
                assert(user_list.deep_view() =~= prev.push(
                    spec_user_infos(ctx.database.auth.users@)[j as int],
                ));
                assert(user_list.deep_view() =~= spec_user_infos(
                    ctx.database.auth.users@,
                ).subrange(0, j as int + 1));
            }
            j += 1;
        }
        proof {
            assert(spec_user_infos(ctx.database.auth.users@).subrange(
                0,
                ctx.database.auth.users@.len() as int,
            ) =~= spec_user_infos(ctx.database.auth.users@));
        }
        r.push(Effect::Reply(WebMessage::UserList(user_list)));
        r.push(Effect::Reply(WebMessage::ContactList(clone_list(&ctx.database.data.contacts))));
        r.push(
            Effect::Reply(
                WebMessage::ContactGroupList(clone_list(&ctx.database.data.contact_group)),
            ),
        );
        r.push(Effect::Reply(WebMessage::BackupList(clone_list(&ctx.database.data.backups))));
        let ghost base = r@;
        let mut k: usize = 0;
        while k < ctx.alarms.len()
            invariant
                k <= ctx.alarms@.len(),
                r@.len() == base.len() + k,
                forall|t: int| 0 <= t < base.len() ==> (#[trigger] r@[t]) == base[t],
                forall|t: int|
                    0 <= t < k ==> (#[trigger] r@[base.len() + t] matches Effect::Reply(m)
                        && m matches WebMessage::Alarm(a) && a@ == ctx.alarms@[t].1@),
            decreases ctx.alarms@.len() - k,
        {
            let info = ctx.alarms[k].1.clone();
            r.push(Effect::Reply(WebMessage::Alarm(info)));
            k += 1;
        }
        proof {
            assert(base.len() == 13);
            assert forall|t: int|
                0 <= t < ctx.alarms@.len() implies (#[trigger] r@[13 + t] matches Effect::Reply(m)
                && m matches WebMessage::Alarm(a) && a@ == ctx.alarms@[t].1@) by {
                assert(r@[base.len() + t] == r@[13 + t]);
            }
        }
        r
    }
}


/// Every domain registry except `locations` is unchanged.
pub open spec fn data_same_but_locations(o_: crate::database::Data, n: crate::database::Data) -> bool {
    &&& n.scanners == o_.scanners
    &&& n.devices == o_.devices
    &&& n.rooms == o_.rooms
    &&& n.alarms == o_.alarms
    &&& n.notifications == o_.notifications
    &&& n.contacts == o_.contacts
    &&& n.contact_group == o_.contact_group
    &&& n.backups == o_.backups
}

/// Every domain registry except `rooms` is unchanged.
pub open spec fn data_same_but_rooms(o_: crate::database::Data, n: crate::database::Data) -> bool {
    &&& n.scanners == o_.scanners
    &&& n.devices == o_.devices
    &&& n.locations == o_.locations
    &&& n.alarms == o_.alarms
    &&& n.notifications == o_.notifications
    &&& n.contacts == o_.contacts
    &&& n.contact_group == o_.contact_group
    &&& n.backups == o_.backups
}

/// Every domain registry except `scanners` is unchanged.
pub open spec fn data_same_but_scanners(o_: crate::database::Data, n: crate::database::Data) -> bool {
    &&& n.devices == o_.devices
    &&& n.locations == o_.locations
    &&& n.rooms == o_.rooms
    &&& n.alarms == o_.alarms
    &&& n.notifications == o_.notifications
    &&& n.contacts == o_.contacts
    &&& n.contact_group == o_.contact_group
    &&& n.backups == o_.backups
}

/// Every domain registry except `devices` is unchanged.
pub open spec fn data_same_but_devices(o_: crate::database::Data, n: crate::database::Data) -> bool {
    &&& n.scanners == o_.scanners
    &&& n.locations == o_.locations
    &&& n.rooms == o_.rooms
    &&& n.alarms == o_.alarms
    &&& n.notifications == o_.notifications
    &&& n.contacts == o_.contacts
    &&& n.contact_group == o_.contact_group
    &&& n.backups == o_.backups
}

/// Every domain registry except `alarms` is unchanged.
pub open spec fn data_same_but_alarms(o_: crate::database::Data, n: crate::database::Data) -> bool {
    &&& n.scanners == o_.scanners
    &&& n.devices == o_.devices
    &&& n.locations == o_.locations
    &&& n.rooms == o_.rooms
    &&& n.notifications == o_.notifications
    &&& n.contacts == o_.contacts
    &&& n.contact_group == o_.contact_group
    &&& n.backups == o_.backups
}

/// Every domain registry except `notifications` is unchanged.
pub open spec fn data_same_but_notifications(o_: crate::database::Data, n: crate::database::Data) -> bool {
    &&& n.scanners == o_.scanners
    &&& n.devices == o_.devices
    &&& n.locations == o_.locations
    &&& n.rooms == o_.rooms
    &&& n.alarms == o_.alarms
    &&& n.contacts == o_.contacts
    &&& n.contact_group == o_.contact_group
    &&& n.backups == o_.backups
}

/// Every domain registry except `contacts` is unchanged.
pub open spec fn data_same_but_contacts(o_: crate::database::Data, n: crate::database::Data) -> bool {
    &&& n.scanners == o_.scanners
    &&& n.devices == o_.devices
    &&& n.locations == o_.locations
    &&& n.rooms == o_.rooms
    &&& n.alarms == o_.alarms
    &&& n.notifications == o_.notifications
    &&& n.contact_group == o_.contact_group
    &&& n.backups == o_.backups
}

/// Every domain registry except `contact_group` is unchanged.
pub open spec fn data_same_but_contact_group(o_: crate::database::Data, n: crate::database::Data) -> bool {
    &&& n.scanners == o_.scanners
    &&& n.devices == o_.devices
    &&& n.locations == o_.locations
    &&& n.rooms == o_.rooms
    &&& n.alarms == o_.alarms
    &&& n.notifications == o_.notifications
    &&& n.contacts == o_.contacts
    &&& n.backups == o_.backups
}

/// Every domain registry except `backups` is unchanged.
pub open spec fn data_same_but_backups(o_: crate::database::Data, n: crate::database::Data) -> bool {
    &&& n.scanners == o_.scanners
    &&& n.devices == o_.devices
    &&& n.locations == o_.locations
    &&& n.rooms == o_.rooms
    &&& n.alarms == o_.alarms
    &&& n.notifications == o_.notifications
    &&& n.contacts == o_.contacts
    &&& n.contact_group == o_.contact_group
}

/// The configuration, version, tracker, event log, accounts and active
/// alarms are unchanged.
pub open spec fn crud_frame(o: Context, n: Context) -> bool {
    &&& n.database.config == o.database.config
    &&& n.database.version == o.database.version
    &&& n.database.activities == o.database.activities
    &&& n.database.events == o.database.events
    &&& n.database.auth == o.database.auth
    &&& n.alarms@ == o.alarms@
}

/// Nothing at all changed.
pub open spec fn ctx_unchanged(o: Context, n: Context) -> bool {
    &&& n.database == o.database
    &&& n.alarms@ == o.alarms@
}

/// The `LocationSet` command: update the stored record's editable fields, or
/// insert the submitted record; publish the stored form and save.
pub open spec fn locations_set_spec(
    o: Context,
    n: Context,
    location: crate::entities::Location,
    effects: Seq<Effect>,
) -> bool {
    let xs = o.database.data.locations;
    let i = crate::util::uuid_index(crate::util::ids_of(xs@), location.uuid);
    let stored = if i == -1 {
        location@
    } else {
        (crate::entities::LocationView { name: location@.name, ..xs@[i]@ })
    };
    &&& crud_frame(o, n)
    &&& data_same_but_locations(o.database.data, n.database.data)
    &&& (if i == -1 {
        n.database.data.locations@.len() == xs@.len() + 1 && (forall|j: int|
            0 <= j < xs@.len() ==> (#[trigger] n.database.data.locations@[j]) == xs@[j])
            && n.database.data.locations@[xs@.len() as int]@ == stored
    } else {
        n.database.data.locations@.len() == xs@.len() && (forall|j: int|
            0 <= j < xs@.len() && j != i ==> (#[trigger] n.database.data.locations@[j]) == xs@[j])
            && n.database.data.locations@[i]@ == stored
    })
    &&& effects.len() == 2
    &&& (effects[0] matches Effect::Broadcast(m) && m matches WebMessage::LocationDetail(x) && x@
        == stored)
    &&& effects[1] is SaveData
}

/// The `RoomSet` command: update the stored record's editable fields, or
/// insert the submitted record; publish the stored form and save.
pub open spec fn rooms_set_spec(
    o: Context,
    n: Context,
    room: crate::entities::Room,
    effects: Seq<Effect>,
) -> bool {
    let xs = o.database.data.rooms;
    let i = crate::util::uuid_index(crate::util::ids_of(xs@), room.uuid);
    let stored = if i == -1 {
        room@
    } else {
        (crate::entities::RoomView { name: room@.name, location: room@.location, ..xs@[i]@ })
    };
    &&& crud_frame(o, n)
    &&& data_same_but_rooms(o.database.data, n.database.data)
    &&& (if i == -1 {
        n.database.data.rooms@.len() == xs@.len() + 1 && (forall|j: int|
            0 <= j < xs@.len() ==> (#[trigger] n.database.data.rooms@[j]) == xs@[j])
            && n.database.data.rooms@[xs@.len() as int]@ == stored
    } else {
        n.database.data.rooms@.len() == xs@.len() && (forall|j: int|
            0 <= j < xs@.len() && j != i ==> (#[trigger] n.database.data.rooms@[j]) == xs@[j])
            && n.database.data.rooms@[i]@ == stored
    })
    &&& effects.len() == 2
    &&& (effects[0] matches Effect::Broadcast(m) && m matches WebMessage::RoomDetail(x) && x@
        == stored)
    &&& effects[1] is SaveData
}

/// The `AlarmSet` command: update the stored record's editable fields, or
/// insert the submitted record; publish the stored form and save.
pub open spec fn alarms_set_spec(
    o: Context,
    n: Context,
    alarm: crate::entities::Alarm,
    effects: Seq<Effect>,
) -> bool {
    let xs = o.database.data.alarms;
    let i = crate::util::uuid_index(crate::util::ids_of(xs@), alarm.uuid);
    let stored = if i == -1 {
        alarm@
    } else {
        (crate::entities::AlarmView { name: alarm@.name, notification: alarm@.notification, led: alarm@.led, buzzer: alarm@.buzzer, group: alarm@.group, ..xs@[i]@ })
    };
    &&& crud_frame(o, n)
    &&& data_same_but_alarms(o.database.data, n.database.data)
    &&& (if i == -1 {
        n.database.data.alarms@.len() == xs@.len() + 1 && (forall|j: int|
            0 <= j < xs@.len() ==> (#[trigger] n.database.data.alarms@[j]) == xs@[j])
            && n.database.data.alarms@[xs@.len() as int]@ == stored
    } else {
        n.database.data.alarms@.len() == xs@.len() && (forall|j: int|
            0 <= j < xs@.len() && j != i ==> (#[trigger] n.database.data.alarms@[j]) == xs@[j])
            && n.database.data.alarms@[i]@ == stored
    })
    &&& effects.len() == 2
    &&& (effects[0] matches Effect::Broadcast(m) && m matches WebMessage::AlarmDetail(x) && x@
        == stored)
    &&& effects[1] is SaveData
}

/// The `NotificationSet` command: update the stored record's editable fields, or
/// insert the submitted record; publish the stored form and save.
pub open spec fn notifications_set_spec(
    o: Context,
    n: Context,
    notification: crate::entities::Notification,
    effects: Seq<Effect>,
) -> bool {
    let xs = o.database.data.notifications;
    let i = crate::util::uuid_index(crate::util::ids_of(xs@), notification.uuid);
    let stored = if i == -1 {
        notification@
    } else {
        (crate::entities::NotificationView { name: notification@.name, subject: notification@.subject, short: notification@.short, long: notification@.long, ..xs@[i]@ })
    };
    &&& crud_frame(o, n)
    &&& data_same_but_notifications(o.database.data, n.database.data)
    &&& (if i == -1 {
        n.database.data.notifications@.len() == xs@.len() + 1 && (forall|j: int|
            0 <= j < xs@.len() ==> (#[trigger] n.database.data.notifications@[j]) == xs@[j])
            && n.database.data.notifications@[xs@.len() as int]@ == stored
    } else {
        n.database.data.notifications@.len() == xs@.len() && (forall|j: int|
            0 <= j < xs@.len() && j != i ==> (#[trigger] n.database.data.notifications@[j]) == xs@[j])
            && n.database.data.notifications@[i]@ == stored
    })
    &&& effects.len() == 2
    &&& (effects[0] matches Effect::Broadcast(m) && m matches WebMessage::NotificationDetail(x) && x@
        == stored)
    &&& effects[1] is SaveData
}

/// The `ContactSet` command: update the stored record's editable fields, or
/// insert the submitted record; publish the stored form and save.
pub open spec fn contacts_set_spec(
    o: Context,
    n: Context,
    contact: crate::entities::Contact,
    effects: Seq<Effect>,
) -> bool {
    let xs = o.database.data.contacts;
    let i = crate::util::uuid_index(crate::util::ids_of(xs@), contact.uuid);
    let stored = if i == -1 {
        contact@
    } else {
        (crate::entities::ContactView { name: contact@.name, kind: contact@.kind, ..xs@[i]@ })
    };
    &&& crud_frame(o, n)
    &&& data_same_but_contacts(o.database.data, n.database.data)
    &&& (if i == -1 {
        n.database.data.contacts@.len() == xs@.len() + 1 && (forall|j: int|
            0 <= j < xs@.len() ==> (#[trigger] n.database.data.contacts@[j]) == xs@[j])
            && n.database.data.contacts@[xs@.len() as int]@ == stored
    } else {
        n.database.data.contacts@.len() == xs@.len() && (forall|j: int|
            0 <= j < xs@.len() && j != i ==> (#[trigger] n.database.data.contacts@[j]) == xs@[j])
            && n.database.data.contacts@[i]@ == stored
    })
    &&& effects.len() == 2
    &&& (effects[0] matches Effect::Broadcast(m) && m matches WebMessage::ContactDetail(x) && x@
        == stored)
    &&& effects[1] is SaveData
}

/// The `ContactGroupSet` command: update the stored record's editable fields, or
/// insert the submitted record; publish the stored form and save.
pub open spec fn contact_group_set_spec(
    o: Context,
    n: Context,
    contact_group: crate::entities::ContactGroup,
    effects: Seq<Effect>,
) -> bool {
    let xs = o.database.data.contact_group;
    let i = crate::util::uuid_index(crate::util::ids_of(xs@), contact_group.uuid);
    let stored = if i == -1 {
        contact_group@
    } else {
        (crate::entities::ContactGroupView { name: contact_group@.name, contacts: contact_group@.contacts, ..xs@[i]@ })
    };
    &&& crud_frame(o, n)
    &&& data_same_but_contact_group(o.database.data, n.database.data)
    &&& (if i == -1 {
        n.database.data.contact_group@.len() == xs@.len() + 1 && (forall|j: int|
            0 <= j < xs@.len() ==> (#[trigger] n.database.data.contact_group@[j]) == xs@[j])
            && n.database.data.contact_group@[xs@.len() as int]@ == stored
    } else {
        n.database.data.contact_group@.len() == xs@.len() && (forall|j: int|
            0 <= j < xs@.len() && j != i ==> (#[trigger] n.database.data.contact_group@[j]) == xs@[j])
            && n.database.data.contact_group@[i]@ == stored
    })
    &&& effects.len() == 2
    &&& (effects[0] matches Effect::Broadcast(m) && m matches WebMessage::ContactGroupDetail(x) && x@
        == stored)
    &&& effects[1] is SaveData
}

/// The `RoomRemove` command: drop the first record with the key, announce
/// the removal and save.
pub open spec fn rooms_remove_spec(o: Context, n: Context, uuid: Uuid, effects: Seq<Effect>) -> bool {
    let xs = o.database.data.rooms;
    let i = crate::util::uuid_index(crate::util::ids_of(xs@), uuid);
    &&& crud_frame(o, n)
    &&& data_same_but_rooms(o.database.data, n.database.data)
    &&& (if i == -1 {
        n.database.data.rooms@ == xs@
    } else {
        n.database.data.rooms@ == xs@.remove(i)
    })
    &&& effects.len() == 2
    &&& (effects[0] matches Effect::Broadcast(m) && m matches WebMessage::RoomRemoved(u) && u
        == uuid)
    &&& effects[1] is SaveData
}

/// The `ScannerRemove` command: drop the first record with the key, announce
/// the removal and save.
pub open spec fn scanners_remove_spec(o: Context, n: Context, uuid: Uuid, effects: Seq<Effect>) -> bool {
    let xs = o.database.data.scanners;
    let i = crate::util::uuid_index(crate::util::ids_of(xs@), uuid);
    &&& crud_frame(o, n)
    &&& data_same_but_scanners(o.database.data, n.database.data)
    &&& (if i == -1 {
        n.database.data.scanners@ == xs@
    } else {
        n.database.data.scanners@ == xs@.remove(i)
    })
    &&& effects.len() == 2
    &&& (effects[0] matches Effect::Broadcast(m) && m matches WebMessage::ScannerRemoved(u) && u
        == uuid)
    &&& effects[1] is SaveData
}

/// The `DeviceRemove` command: drop the first record with the key, announce
/// the removal and save.
pub open spec fn devices_remove_spec(o: Context, n: Context, uuid: Uuid, effects: Seq<Effect>) -> bool {
    let xs = o.database.data.devices;
    let i = crate::util::uuid_index(crate::util::ids_of(xs@), uuid);
    &&& crud_frame(o, n)
    &&& data_same_but_devices(o.database.data, n.database.data)
    &&& (if i == -1 {
        n.database.data.devices@ == xs@
    } else {
        n.database.data.devices@ == xs@.remove(i)
    })
    &&& effects.len() == 2
    &&& (effects[0] matches Effect::Broadcast(m) && m matches WebMessage::DeviceRemoved(u) && u
        == uuid)
    &&& effects[1] is SaveData
}

/// The `AlarmRemove` command: drop the first record with the key, announce
/// the removal and save.
pub open spec fn alarms_remove_spec(o: Context, n: Context, uuid: Uuid, effects: Seq<Effect>) -> bool {
    let xs = o.database.data.alarms;
    let i = crate::util::uuid_index(crate::util::ids_of(xs@), uuid);
    &&& crud_frame(o, n)
    &&& data_same_but_alarms(o.database.data, n.database.data)
    &&& (if i == -1 {
        n.database.data.alarms@ == xs@
    } else {
        n.database.data.alarms@ == xs@.remove(i)
    })
    &&& effects.len() == 2
    &&& (effects[0] matches Effect::Broadcast(m) && m matches WebMessage::AlarmRemoved(u) && u
        == uuid)
    &&& effects[1] is SaveData
}

/// The `NotificationRemove` command: drop the first record with the key, announce
/// the removal and save.
pub open spec fn notifications_remove_spec(o: Context, n: Context, uuid: Uuid, effects: Seq<Effect>) -> bool {
    let xs = o.database.data.notifications;
    let i = crate::util::uuid_index(crate::util::ids_of(xs@), uuid);
    &&& crud_frame(o, n)
    &&& data_same_but_notifications(o.database.data, n.database.data)
    &&& (if i == -1 {
        n.database.data.notifications@ == xs@
    } else {
        n.database.data.notifications@ == xs@.remove(i)
    })
    &&& effects.len() == 2
    &&& (effects[0] matches Effect::Broadcast(m) && m matches WebMessage::NotificationRemoved(u) && u
        == uuid)
    &&& effects[1] is SaveData
}

/// The `ContactRemove` command: drop the first record with the key, announce
/// the removal and save.
pub open spec fn contacts_remove_spec(o: Context, n: Context, uuid: Uuid, effects: Seq<Effect>) -> bool {
    let xs = o.database.data.contacts;
    let i = crate::util::uuid_index(crate::util::ids_of(xs@), uuid);
    &&& crud_frame(o, n)
    &&& data_same_but_contacts(o.database.data, n.database.data)
    &&& (if i == -1 {
        n.database.data.contacts@ == xs@
    } else {
        n.database.data.contacts@ == xs@.remove(i)
    })
    &&& effects.len() == 2
    &&& (effects[0] matches Effect::Broadcast(m) && m matches WebMessage::ContactRemoved(u) && u
        == uuid)
    &&& effects[1] is SaveData
}

/// The `ContactGroupRemove` command: drop the first record with the key, announce
/// the removal and save.
pub open spec fn contact_group_remove_spec(o: Context, n: Context, uuid: Uuid, effects: Seq<Effect>) -> bool {
    let xs = o.database.data.contact_group;
    let i = crate::util::uuid_index(crate::util::ids_of(xs@), uuid);
    &&& crud_frame(o, n)
    &&& data_same_but_contact_group(o.database.data, n.database.data)
    &&& (if i == -1 {
        n.database.data.contact_group@ == xs@
    } else {
        n.database.data.contact_group@ == xs@.remove(i)
    })
    &&& effects.len() == 2
    &&& (effects[0] matches Effect::Broadcast(m) && m matches WebMessage::ContactGroupRemoved(u) && u
        == uuid)
    &&& effects[1] is SaveData
}
/// The `ScannerSet` command: update the stored scanner's editable fields,
/// or insert the submitted scanner when its hardware address is free; push
/// the resulting actuator state to the scanner, publish and save. A new
/// scanner whose hardware address is already taken is ignored, keeping
/// addresses unique.
pub open spec fn scanners_set_spec(
    o: Context,
    n: Context,
    scanner: crate::entities::Scanner,
    effects: Seq<Effect>,
) -> bool {
    let xs = o.database.data.scanners;
    let i = crate::util::uuid_index(crate::util::ids_of(xs@), scanner.uuid);
    let clash = exists|j: int| 0 <= j < xs@.len() && (#[trigger] xs@[j])@.mac == scanner@.mac;
    let stored = if i == -1 {
        scanner@
    } else {
        (crate::entities::ScannerView {
            name: scanner@.name,
            room: scanner@.room,
            buzzer: scanner@.buzzer,
            led: scanner@.led,
            scan: scanner@.scan,
            ..xs@[i]@
        })
    };
    &&& crud_frame(o, n)
    &&& data_same_but_scanners(o.database.data, n.database.data)
    &&& (if i == -1 && clash {
        n.database.data.scanners@ == xs@ && effects.len() == 0
    } else {
        &&& (if i == -1 {
            n.database.data.scanners@.len() == xs@.len() + 1 && (forall|j: int|
                0 <= j < xs@.len() ==> (#[trigger] n.database.data.scanners@[j]) == xs@[j])
                && n.database.data.scanners@[xs@.len() as int]@ == stored
        } else {
            n.database.data.scanners@.len() == xs@.len() && (forall|j: int|
                0 <= j < xs@.len() && j != i ==> (#[trigger] n.database.data.scanners@[j])
                    == xs@[j]) && n.database.data.scanners@[i]@ == stored
        })
        &&& effects.len() == 3
        &&& (effects[0] matches Effect::ToScanner(ev) && ev.scanner == Option::Some(stored.uuid)
            && (ev.message.content matches crate::messages::ScannerContent::SetState(st)
            && st.scan == Option::Some(stored.scan) && st.buzzer == Option::Some(stored.buzzer)
            && st.led == Option::Some(stored.led)))
        &&& (effects[1] matches Effect::Broadcast(m) && m matches WebMessage::ScannerDetail(x)
            && x@ == stored)
        &&& effects[2] is SaveData
    })
}

/// The `DeviceSet` command: update the stored device's name and enabled
/// flag; an unknown device is not created here.
pub open spec fn devices_set_spec(
    o: Context,
    n: Context,
    device: crate::entities::Device,
    effects: Seq<Effect>,
) -> bool {
    let xs = o.database.data.devices;
    let i = crate::util::uuid_index(crate::util::ids_of(xs@), device.uuid);
    &&& crud_frame(o, n)
    &&& data_same_but_devices(o.database.data, n.database.data)
    &&& (if i == -1 {
        n.database.data.devices@ == xs@ && effects.len() == 0
    } else {
        let stored = (crate::entities::DeviceView {
            name: device@.name,
            enabled: device@.enabled,
            ..xs@[i]@
        });
        &&& n.database.data.devices@.len() == xs@.len()
        &&& (forall|j: int|
            0 <= j < xs@.len() && j != i ==> (#[trigger] n.database.data.devices@[j]) == xs@[j])
        &&& n.database.data.devices@[i]@ == stored
        &&& effects.len() == 2
        &&& (effects[0] matches Effect::Broadcast(m) && m matches WebMessage::DeviceDetail(x)
            && x@ == stored)
        &&& effects[1] is SaveData
    })
}

/// The `LocationRemove` command: refused while a room still references the
/// location, in which case the session is told and closed; otherwise the
/// location is removed, announced and saved.
pub open spec fn locations_remove_spec(
    o: Context,
    n: Context,
    uuid: Uuid,
    effects: Seq<Effect>,
) -> bool {
    let used = exists|i: int|
        0 <= i < o.database.data.rooms@.len() && (#[trigger] o.database.data.rooms@[i]).location
            == uuid;
    &&& crud_frame(o, n)
    &&& data_same_but_locations(o.database.data, n.database.data)
    &&& (if used {
        &&& n.database.data.locations@ == o.database.data.locations@
        &&& effects.len() == 2
        &&& (effects[0] matches Effect::Reply(m) && m matches WebMessage::Error(e)
            && (e matches crate::messages::Error::IntegrityError(b)
            && (*b matches WebMessage::LocationRemove(u) && u == uuid)))
        &&& (effects[1] matches Effect::Reply(m) && m is Close)
    } else {
        let xs = o.database.data.locations;
        let i = crate::util::uuid_index(crate::util::ids_of(xs@), uuid);
        &&& (if i == -1 {
            n.database.data.locations@ == xs@
        } else {
            n.database.data.locations@ == xs@.remove(i)
        })
        &&& effects.len() == 2
        &&& (effects[0] matches Effect::Broadcast(m) && m matches WebMessage::LocationRemoved(u)
            && u == uuid)
        &&& effects[1] is SaveData
    })
}

/// The `EventRemove` command: drop the first event with the key and
/// announce the removal.
pub open spec fn events_remove_spec(o: Context, n: Context, uuid: Uuid, effects: Seq<Effect>) -> bool {
    let xs = o.database.events;
    let i = crate::util::uuid_index(crate::util::ids_of(xs@), uuid);
    &&& n.database.config == o.database.config
    &&& n.database.version == o.database.version
    &&& n.database.activities == o.database.activities
    &&& n.database.auth == o.database.auth
    &&& n.database.data == o.database.data
    &&& n.alarms@ == o.alarms@
    &&& (if i == -1 {
        n.database.events@ == xs@
    } else {
        n.database.events@ == xs@.remove(i)
    })
    &&& effects.len() == 1
    &&& (effects[0] matches Effect::Broadcast(m) && m matches WebMessage::EventRemoved(u) && u
        == uuid)
}

/// The substituted template an alarm notification carries.
pub open spec fn alarm_template(
    notif: crate::entities::NotificationView,
    info: crate::messages::AlarmInfoView,
) -> crate::entities::NotificationView {
    crate::entities::NotificationView {
        long: crate::config::spec_substituted(notif.long, info),
        short: crate::config::spec_substituted(notif.short, info),
        ..notif
    }
}

/// The contacts a group key resolves to.
pub open spec fn group_contacts_of(o: Context, group: Uuid) -> Seq<crate::entities::ContactView> {
    let gs = o.database.data.contact_group;
    let gi = crate::util::uuid_index(crate::util::ids_of(gs@), group);
    if gi == -1 {
        Seq::empty()
    } else {
        crate::database::spec_group_contacts(
            o.database.data.contacts.deep_view(),
            gs@[gi].contacts@,
        )
    }
}

/// The `Alarm` command once both references resolve: record the firing
/// alarm, drive every scanner's buzzer and led to the definition's values,
/// broadcast the actuation and the alarm, and notify every contact of the
/// group with the substituted template.
pub open spec fn alarm_trigger_spec(
    o: Context,
    n: Context,
    info: crate::messages::AlarmInfo,
    alarm: crate::entities::AlarmView,
    notif: crate::entities::NotificationView,
    effects: Seq<Effect>,
) -> bool {
    let gc = group_contacts_of(o, alarm.group);
    let ai = crate::util::uuid_index(crate::context::alarm_ids(o.alarms@), info.uuid);
    &&& n.database.config == o.database.config
    &&& n.database.version == o.database.version
    &&& n.database.activities == o.database.activities
    &&& n.database.events == o.database.events
    &&& n.database.auth == o.database.auth
    &&& data_same_but_scanners(o.database.data, n.database.data)
    &&& n.database.data.scanners@.len() == o.database.data.scanners@.len()
    &&& forall|j: int|
        0 <= j < o.database.data.scanners@.len() ==> (#[trigger] n.database.data.scanners@[j])@
            == (crate::entities::ScannerView {
            buzzer: alarm.buzzer,
            led: alarm.led,
            ..o.database.data.scanners@[j]@
        })
    &&& (if ai == -1 {
        n.alarms@.len() == o.alarms@.len() + 1 && (forall|k: int|
            0 <= k < o.alarms@.len() ==> (#[trigger] n.alarms@[k]).0 == o.alarms@[k].0
                && n.alarms@[k].1@ == o.alarms@[k].1@) && n.alarms@[o.alarms@.len() as int].0
            == info.uuid && n.alarms@[o.alarms@.len() as int].1@ == info@
    } else {
        n.alarms@.len() == o.alarms@.len() && (forall|k: int|
            0 <= k < o.alarms@.len() && k != ai ==> (#[trigger] n.alarms@[k]).0 == o.alarms@[k].0
                && n.alarms@[k].1@ == o.alarms@[k].1@) && n.alarms@[ai].0 == info.uuid
            && n.alarms@[ai].1@ == info@
    })
    &&& effects.len() == 2 + gc.len()
    &&& (effects[0] matches Effect::ToScanner(ev) && ev.scanner is None
        && (ev.message.content matches crate::messages::ScannerContent::SetState(st)
        && st.scan is None && st.buzzer == Option::Some(alarm.buzzer) && st.led == Option::Some(
        alarm.led)))
    &&& (effects[1] matches Effect::Broadcast(m) && m matches WebMessage::Alarm(a) && a@ == info@)
    &&& forall|k: int|
        0 <= k < gc.len() ==> (#[trigger] effects[2 + k] matches Effect::Notify(act) && act@
            == crate::config::spec_notify_action(gc[k], alarm_template(notif, info@)))
}

/// The `AlarmStop` command: forget the firing alarm, silence every
/// scanner, and announce both.
pub open spec fn alarm_stop_spec(o: Context, n: Context, uuid: Uuid, effects: Seq<Effect>) -> bool {
    let ai = crate::util::uuid_index(crate::context::alarm_ids(o.alarms@), uuid);
    &&& n.database.config == o.database.config
    &&& n.database.version == o.database.version
    &&& n.database.activities == o.database.activities
    &&& n.database.events == o.database.events
    &&& n.database.auth == o.database.auth
    &&& data_same_but_scanners(o.database.data, n.database.data)
    &&& n.database.data.scanners@.len() == o.database.data.scanners@.len()
    &&& forall|j: int|
        0 <= j < o.database.data.scanners@.len() ==> (#[trigger] n.database.data.scanners@[j])@
            == (crate::entities::ScannerView {
            buzzer: false,
            led: false,
            ..o.database.data.scanners@[j]@
        })
    &&& (if ai == -1 {
        n.alarms@ == o.alarms@
    } else {
        n.alarms@ == o.alarms@.remove(ai)
    })
    &&& effects.len() == 2
    &&& (effects[0] matches Effect::ToScanner(ev) && ev.scanner is None
        && (ev.message.content matches crate::messages::ScannerContent::SetState(st)
        && st.scan is None && st.buzzer == Option::Some(false) && st.led == Option::Some(false)))
    &&& (effects[1] matches Effect::Broadcast(m) && m matches WebMessage::AlarmStop(u) && u
        == uuid)
}

/// The `Notify` command: one prepared delivery per contact of the group,
/// with the unmodified template, then a save; nothing when the template is
/// unknown.
pub open spec fn notify_spec(
    o: Context,
    n: Context,
    uuid: Uuid,
    group: Uuid,
    effects: Seq<Effect>,
) -> bool {
    let ns = o.database.data.notifications;
    let ni = crate::util::uuid_index(crate::util::ids_of(ns@), uuid);
    &&& ctx_unchanged(o, n)
    &&& (if ni == -1 {
        effects.len() == 1 && effects[0] is SaveData
    } else {
        let gc = group_contacts_of(o, group);
        &&& effects.len() == gc.len() + 1
        &&& forall|k: int|
            0 <= k < gc.len() ==> (#[trigger] effects[k] matches Effect::Notify(act) && act@
                == crate::config::spec_notify_action(gc[k], ns@[ni]@))
        &&& effects[gc.len() as int] is SaveData
    })
}

/// The stored password hash for a submitted plain password.
pub open spec fn hashed_password(o: Context, pw: Seq<char>) -> Seq<char> {
    crate::util::hex_chars_of(
        crate::config::sha256_of(
            crate::config::str_bytes(o.database.config.base.salt@) + crate::config::str_bytes(pw),
        ),
    )
}

/// The `UserSet` command once acceptable: update the stored account's roles
/// and, when a password was submitted, its hash; or create the account.
/// The announced user info never carries a password.
pub open spec fn user_set_spec(
    o: Context,
    n: Context,
    user: UserInfo,
    effects: Seq<Effect>,
) -> bool {
    let us = o.database.auth.users;
    let i = crate::util::uuid_index(crate::util::ids_of(us@), user.uuid);
    &&& n.database.config == o.database.config
    &&& n.database.version == o.database.version
    &&& n.database.activities == o.database.activities
    &&& n.database.events == o.database.events
    &&& n.database.data == o.database.data
    &&& n.database.auth.tokens == o.database.auth.tokens
    &&& n.alarms@ == o.alarms@
    &&& ({
        let info = if i == -1 {
            crate::messages::UserInfoView {
                username: user@.username,
                uuid: user.uuid,
                roles: user@.roles,
                password: Option::None,
            }
        } else {
            crate::messages::UserInfoView {
                username: us@[i]@.username,
                uuid: us@[i]@.uuid,
                roles: user@.roles,
                password: Option::None,
            }
        };
        &&& (if i == -1 {
            n.database.auth.users@.len() == us@.len() + 1 && (forall|j: int|
                0 <= j < us@.len() ==> (#[trigger] n.database.auth.users@[j]) == us@[j])
                && n.database.auth.users@[us@.len() as int]@ == (crate::entities::UserView {
                uuid: user.uuid,
                username: user@.username,
                password: hashed_password(o, user@.password->Some_0),
                roles: user@.roles,
            })
        } else {
            n.database.auth.users@.len() == us@.len() && (forall|j: int|
                0 <= j < us@.len() && j != i ==> (#[trigger] n.database.auth.users@[j]) == us@[j])
                && n.database.auth.users@[i]@ == (crate::entities::UserView {
                roles: user@.roles,
                password: (match user@.password {
                    Option::Some(p) => hashed_password(o, p),
                    Option::None => us@[i]@.password,
                }),
                ..us@[i]@
            })
        })
        &&& effects.len() == 2
        &&& effects[0] is SaveData
        &&& (effects[1] matches Effect::Broadcast(m) && m matches WebMessage::UserInfo(ui) && ui@
            == info)
    })
}


/// The token a mint produces.
pub open spec fn minted_token(nc: Seq<char>, who: Uuid, now: u64) -> crate::entities::TokenView {
    crate::entities::TokenView { nonce: nc, user: who, is_valid: true, created: now }
}

/// The `TokenGet` command: look a token up by nonce, or mint a fresh
/// sixteen-character token for the session's user; either way the session
/// gets the detail and the accounts are saved.
pub open spec fn token_get_spec(
    o: Context,
    n: Context,
    who: Uuid,
    token: Option<String>,
    now: u64,
    effects: Seq<Effect>,
) -> bool {
    let ts = o.database.auth.tokens;
    &&& n.database.config == o.database.config
    &&& n.database.version == o.database.version
    &&& n.database.activities == o.database.activities
    &&& n.database.events == o.database.events
    &&& n.database.data == o.database.data
    &&& n.database.auth.users == o.database.auth.users
    &&& n.alarms@ == o.alarms@
    &&& match token {
        Option::Some(tok) => {
            &&& n.database.auth.tokens@ == ts@
            &&& effects.len() == 2
            &&& (if exists|j: int| 0 <= j < ts@.len() && (#[trigger] ts@[j])@.nonce == tok@ {
                exists|j: int|
                    {
                        &&& 0 <= j < ts@.len()
                        &&& (#[trigger] ts@[j])@.nonce == tok@
                        &&& forall|k: int| 0 <= k < j ==> (#[trigger] ts@[k])@.nonce != tok@
                        &&& (effects[0] matches Effect::Reply(m)
                            && m matches WebMessage::TokenDetail(d) && (d matches Option::Some(t)
                            && t@ == ts@[j]@))
                    }
            } else {
                effects[0] matches Effect::Reply(m) && m matches WebMessage::TokenDetail(d)
                    && d is None
            })
            &&& effects[1] is SaveAuth
        },
        Option::None => {
            exists|nc: Seq<char>|
                #![trigger minted_token(nc, who, now)]
                {
                    let tv = minted_token(nc, who, now);
                    &&& nc.len() == 16
                    &&& n.database.auth.tokens@.len() == ts@.len() + 1
                    &&& (forall|j: int|
                        0 <= j < ts@.len() ==> (#[trigger] n.database.auth.tokens@[j]) == ts@[j])
                    &&& n.database.auth.tokens@[ts@.len() as int]@ == tv
                    &&& effects.len() == 2
                    &&& (effects[0] matches Effect::Reply(m)
                        && m matches WebMessage::TokenDetail(d) && (d matches Option::Some(t)
                        && t@ == tv))
                    &&& effects[1] is SaveAuth
                }
        },
    }
}

/// The `BackupRemove` command: forget the recorded backup path and
/// announce it.
pub open spec fn backup_remove_spec(
    o: Context,
    n: Context,
    path: Seq<char>,
    effects: Seq<Effect>,
) -> bool {
    let bs = o.database.data.backups;
    &&& crud_frame(o, n)
    &&& data_same_but_backups(o.database.data, n.database.data)
    &&& (if exists|j: int| 0 <= j < bs@.len() && (#[trigger] bs@[j])@ == path {
        exists|j: int|
            {
                &&& 0 <= j < bs@.len()
                &&& (#[trigger] bs@[j])@ == path
                &&& forall|k: int| 0 <= k < j ==> (#[trigger] bs@[k])@ != path
                &&& n.database.data.backups@ == bs@.remove(j)
            }
    } else {
        n.database.data.backups@ == bs@
    })
    &&& effects.len() == 1
    &&& (effects[0] matches Effect::Broadcast(m) && m matches WebMessage::BackupRemove(p) && p@
        == path)
}

/// The `Backup` command: save the registries, record the path once, write
/// the backup file, and announce it.
pub open spec fn backup_spec(o: Context, n: Context, path: Seq<char>, effects: Seq<Effect>) -> bool {
    let bs = o.database.data.backups;
    &&& crud_frame(o, n)
    &&& data_same_but_backups(o.database.data, n.database.data)
    &&& (if exists|j: int| 0 <= j < bs@.len() && (#[trigger] bs@[j])@ == path {
        n.database.data.backups@ == bs@
    } else {
        n.database.data.backups.deep_view() == bs.deep_view().push(path)
    })
    &&& effects.len() == 3
    &&& effects[0] is SaveData
    &&& (effects[1] matches Effect::SaveBackup(p) && p@ == path)
    &&& (effects[2] matches Effect::Broadcast(m) && m matches WebMessage::Backup(p) && p@ == path)
}

/// The user-info view a session reports for itself.
pub open spec fn session_info(op: Operator) -> crate::messages::UserInfoView {
    crate::messages::UserInfoView {
        username: op.username@,
        uuid: op.uuid,
        roles: op.roles@,
        password: Option::None,
    }
}

/// The `Login` command: credentials are matched against the accounts; on a
/// match the session takes the account's identity and receives the full
/// snapshot; either way it is told who it now is.
pub open spec fn login_spec(
    o: Context,
    n: Context,
    op_old: Operator,
    op_new: Operator,
    auth: Auth,
    effects: Seq<Effect>,
) -> bool {
    let us = o.database.auth.users;
    &&& ctx_unchanged(o, n)
    &&& match auth {
        Auth::Login { username, password } => {
            if exists|j: int| 0 <= j < us@.len() && (#[trigger] us@[j])@.username == username@ {
                exists|j: int|
                    {
                        &&& 0 <= j < us@.len()
                        &&& (#[trigger] us@[j])@.username == username@
                        &&& forall|k: int|
                            0 <= k < j ==> (#[trigger] us@[k])@.username != username@
                        &&& session_info(op_new) == spec_user_infos(us@)[j]
                        &&& effects.len() == 14 + o.alarms@.len()
                        &&& snapshot_effects(o, effects)
                        &&& (effects[effects.len() - 1] matches Effect::Reply(m)
                            && m matches WebMessage::UserInfo(ui) && ui@ == session_info(op_new))
                    }
            } else {
                &&& session_info(op_new) == session_info(op_old)
                &&& effects.len() == 1
                &&& (effects[0] matches Effect::Reply(m) && m matches WebMessage::UserInfo(ui)
                    && ui@ == session_info(op_old))
            }
        },
        Auth::Token(tok) => {
            let ts = o.database.auth.tokens;
            if exists|j: int| 0 <= j < ts@.len() && (#[trigger] ts@[j])@.nonce == tok@ {
                exists|j: int|
                    {
                        &&& 0 <= j < ts@.len()
                        &&& (#[trigger] ts@[j])@.nonce == tok@
                        &&& forall|k: int| 0 <= k < j ==> (#[trigger] ts@[k])@.nonce != tok@
                        &&& ({
                            let ui = crate::util::uuid_index(
                                crate::util::ids_of(us@),
                                ts@[j]@.user,
                            );
                            if ui == -1 {
                                &&& session_info(op_new) == session_info(op_old)
                                &&& effects.len() == 1
                                &&& (effects[0] matches Effect::Reply(m)
                                    && m matches WebMessage::UserInfo(x) && x@ == session_info(
                                    op_old,
                                ))
                            } else {
                                &&& session_info(op_new) == spec_user_infos(us@)[ui]
                                &&& effects.len() == 14 + o.alarms@.len()
                                &&& snapshot_effects(o, effects)
                                &&& (effects[effects.len() - 1] matches Effect::Reply(m)
                                    && m matches WebMessage::UserInfo(x) && x@ == session_info(
                                    op_new,
                                ))
                            }
                        })
                    }
            } else {
                &&& session_info(op_new) == session_info(op_old)
                &&& effects.len() == 1
                &&& (effects[0] matches Effect::Reply(m) && m matches WebMessage::UserInfo(ui)
                    && ui@ == session_info(op_old))
            }
        },
    }
}

/// The `TokenGetForUser` command: mint a token for the named account and
/// tell the session; nothing happens for an unknown account.
pub open spec fn token_for_user_spec(
    o: Context,
    n: Context,
    target: Uuid,
    now: u64,
    effects: Seq<Effect>,
) -> bool {
    let us = o.database.auth.users;
    let ts = o.database.auth.tokens;
    let ui = crate::util::uuid_index(crate::util::ids_of(us@), target);
    &&& n.database.config == o.database.config
    &&& n.database.version == o.database.version
    &&& n.database.activities == o.database.activities
    &&& n.database.events == o.database.events
    &&& n.database.data == o.database.data
    &&& n.database.auth.users == o.database.auth.users
    &&& n.alarms@ == o.alarms@
    &&& (if ui == -1 {
        n.database.auth.tokens@ == ts@ && effects.len() == 0
    } else {
        exists|nc: Seq<char>|
            #![trigger minted_token(nc, target, now)]
            {
                let tv = minted_token(nc, target, now);
                &&& nc.len() == 16
                &&& n.database.auth.tokens@.len() == ts@.len() + 1
                &&& (forall|j: int|
                    0 <= j < ts@.len() ==> (#[trigger] n.database.auth.tokens@[j]) == ts@[j])
                &&& n.database.auth.tokens@[ts@.len() as int]@ == tv
                &&& effects.len() == 2
                &&& (effects[0] matches Effect::Reply(m) && m matches WebMessage::TokenDetail(d)
                    && (d matches Option::Some(t) && t@ == tv))
                &&& effects[1] is SaveAuth
            }
    })
}

fn location_set(ctx: &mut Context, location: crate::entities::Location) -> (r: Vec<Effect>)
    requires
        old(ctx).database.data.wf(),
    ensures
        final(ctx).database.data.wf(),
        locations_set_spec(*old(ctx), *final(ctx), location, r@),
{
    proof {
        crate::util::lemma_uuid_index(
            crate::util::ids_of(old(ctx).database.data.locations@),
            location.uuid,
        );
    }
    let found = crate::util::find_by_uuid(&ctx.database.data.locations, location.uuid);
    let stored: crate::entities::Location = match found {
        Option::Some(i) => {
            let mut cur = ctx.database.data.locations[i].clone();
            cur.name = location.name;
            let copy = cur.clone();
            ctx.database.data.locations.set(i, cur);
            copy
        },
        Option::None => {
            let copy = location.clone();
            ctx.database.data.locations.push(location);
            copy
        },
    };
    let mut effects: Vec<Effect> = Vec::new();
    effects.push(Effect::Broadcast(WebMessage::LocationDetail(stored)));
    effects.push(Effect::SaveData);
    effects
}
fn room_set(ctx: &mut Context, room: crate::entities::Room) -> (r: Vec<Effect>)
    requires
        old(ctx).database.data.wf(),
    ensures
        final(ctx).database.data.wf(),
        rooms_set_spec(*old(ctx), *final(ctx), room, r@),
{
    proof {
        crate::util::lemma_uuid_index(
            crate::util::ids_of(old(ctx).database.data.rooms@),
            room.uuid,
        );
    }
    let found = crate::util::find_by_uuid(&ctx.database.data.rooms, room.uuid);
    let stored: crate::entities::Room = match found {
        Option::Some(i) => {
            let mut cur = ctx.database.data.rooms[i].clone();
            cur.name = room.name;
            cur.location = room.location;
            let copy = cur.clone();
            ctx.database.data.rooms.set(i, cur);
            copy
        },
        Option::None => {
            let copy = room.clone();
            ctx.database.data.rooms.push(room);
            copy
        },
    };
    let mut effects: Vec<Effect> = Vec::new();
    effects.push(Effect::Broadcast(WebMessage::RoomDetail(stored)));
    effects.push(Effect::SaveData);
    effects
}
fn alarm_set(ctx: &mut Context, alarm: crate::entities::Alarm) -> (r: Vec<Effect>)
    requires
        old(ctx).database.data.wf(),
    ensures
        final(ctx).database.data.wf(),
        alarms_set_spec(*old(ctx), *final(ctx), alarm, r@),
{
    proof {
        crate::util::lemma_uuid_index(
            crate::util::ids_of(old(ctx).database.data.alarms@),
            alarm.uuid,
        );
    }
    let found = crate::util::find_by_uuid(&ctx.database.data.alarms, alarm.uuid);
    let stored: crate::entities::Alarm = match found {
        Option::Some(i) => {
            let mut cur = ctx.database.data.alarms[i].clone();
            cur.name = alarm.name;
            cur.notification = alarm.notification;
            cur.led = alarm.led;
            cur.buzzer = alarm.buzzer;
            cur.group = alarm.group;
            let copy = cur.clone();
            ctx.database.data.alarms.set(i, cur);
            copy
        },
        Option::None => {
            let copy = alarm.clone();
            ctx.database.data.alarms.push(alarm);
            copy
        },
    };
    let mut effects: Vec<Effect> = Vec::new();
    effects.push(Effect::Broadcast(WebMessage::AlarmDetail(stored)));
    effects.push(Effect::SaveData);
    effects
}
fn notification_set(ctx: &mut Context, notification: crate::entities::Notification) -> (r: Vec<Effect>)
    requires
        old(ctx).database.data.wf(),
    ensures
        final(ctx).database.data.wf(),
        notifications_set_spec(*old(ctx), *final(ctx), notification, r@),
{
    proof {
        crate::util::lemma_uuid_index(
            crate::util::ids_of(old(ctx).database.data.notifications@),
            notification.uuid,
        );
    }
    let found = crate::util::find_by_uuid(&ctx.database.data.notifications, notification.uuid);
    let stored: crate::entities::Notification = match found {
        Option::Some(i) => {
            let mut cur = ctx.database.data.notifications[i].clone();
            cur.name = notification.name;
            cur.subject = notification.subject;
            cur.short = notification.short;
            cur.long = notification.long;
            let copy = cur.clone();
            ctx.database.data.notifications.set(i, cur);
            copy
        },
        Option::None => {
            let copy = notification.clone();
            ctx.database.data.notifications.push(notification);
            copy
        },
    };
    let mut effects: Vec<Effect> = Vec::new();
    effects.push(Effect::Broadcast(WebMessage::NotificationDetail(stored)));
    effects.push(Effect::SaveData);
    effects
}
fn contact_set(ctx: &mut Context, contact: crate::entities::Contact) -> (r: Vec<Effect>)
    requires
        old(ctx).database.data.wf(),
    ensures
        final(ctx).database.data.wf(),
        contacts_set_spec(*old(ctx), *final(ctx), contact, r@),
{
    proof {
        crate::util::lemma_uuid_index(
            crate::util::ids_of(old(ctx).database.data.contacts@),
            contact.uuid,
        );
    }
    let found = crate::util::find_by_uuid(&ctx.database.data.contacts, contact.uuid);
    let stored: crate::entities::Contact = match found {
        Option::Some(i) => {
            let mut cur = ctx.database.data.contacts[i].clone();
            cur.name = contact.name;
            cur.kind = contact.kind;
            let copy = cur.clone();
            ctx.database.data.contacts.set(i, cur);
            copy
        },
        Option::None => {
            let copy = contact.clone();
            ctx.database.data.contacts.push(contact);
            copy
        },
    };
    let mut effects: Vec<Effect> = Vec::new();
    effects.push(Effect::Broadcast(WebMessage::ContactDetail(stored)));
    effects.push(Effect::SaveData);
    effects
}
fn contact_group_set(ctx: &mut Context, contact_group: crate::entities::ContactGroup) -> (r: Vec<Effect>)
    requires
        old(ctx).database.data.wf(),
    ensures
        final(ctx).database.data.wf(),
        contact_group_set_spec(*old(ctx), *final(ctx), contact_group, r@),
{
    proof {
        crate::util::lemma_uuid_index(
            crate::util::ids_of(old(ctx).database.data.contact_group@),
            contact_group.uuid,
        );
    }
    let found = crate::util::find_by_uuid(&ctx.database.data.contact_group, contact_group.uuid);
    let stored: crate::entities::ContactGroup = match found {
        Option::Some(i) => {
            let mut cur = ctx.database.data.contact_group[i].clone();
            cur.name = contact_group.name;
            cur.contacts = contact_group.contacts;
            let copy = cur.clone();
            ctx.database.data.contact_group.set(i, cur);
            copy
        },
        Option::None => {
            let copy = contact_group.clone();
            ctx.database.data.contact_group.push(contact_group);
            copy
        },
    };
    let mut effects: Vec<Effect> = Vec::new();
    effects.push(Effect::Broadcast(WebMessage::ContactGroupDetail(stored)));
    effects.push(Effect::SaveData);
    effects
}
fn room_remove(ctx: &mut Context, uuid: Uuid) -> (r: Vec<Effect>)
    requires
        old(ctx).database.data.wf(),
    ensures
        final(ctx).database.data.wf(),
        rooms_remove_spec(*old(ctx), *final(ctx), uuid, r@),
{
    crate::util::remove_by_uuid(&mut ctx.database.data.rooms, uuid);
    let mut effects: Vec<Effect> = Vec::new();
    effects.push(Effect::Broadcast(WebMessage::RoomRemoved(uuid)));
    effects.push(Effect::SaveData);
    effects
}
fn scanner_remove(ctx: &mut Context, uuid: Uuid) -> (r: Vec<Effect>)
    requires
        old(ctx).database.data.wf(),
    ensures
        final(ctx).database.data.wf(),
        scanners_remove_spec(*old(ctx), *final(ctx), uuid, r@),
{
    crate::util::remove_by_uuid(&mut ctx.database.data.scanners, uuid);
    proof {
        let xs = old(ctx).database.data.scanners@;
        let i = crate::util::uuid_index(crate::util::ids_of(xs), uuid);
        if i != -1 {
            crate::util::lemma_uuid_index(crate::util::ids_of(xs), uuid);
            assert forall|a: int, b: int|
                0 <= a < b < ctx.database.data.scanners@.len() implies (
            #[trigger] ctx.database.data.scanners@[a])@.mac != (
            #[trigger] ctx.database.data.scanners@[b])@.mac by {
                crate::util::lemma_remove_index(xs, i, a);
                crate::util::lemma_remove_index(xs, i, b);
            }
        }
    }
    let mut effects: Vec<Effect> = Vec::new();
    effects.push(Effect::Broadcast(WebMessage::ScannerRemoved(uuid)));
    effects.push(Effect::SaveData);
    effects
}
fn device_remove(ctx: &mut Context, uuid: Uuid) -> (r: Vec<Effect>)
    requires
        old(ctx).database.data.wf(),
    ensures
        final(ctx).database.data.wf(),
        devices_remove_spec(*old(ctx), *final(ctx), uuid, r@),
{
    crate::util::remove_by_uuid(&mut ctx.database.data.devices, uuid);
    proof {
        let xs = old(ctx).database.data.devices@;
        let i = crate::util::uuid_index(crate::util::ids_of(xs), uuid);
        if i != -1 {
            crate::util::lemma_uuid_index(crate::util::ids_of(xs), uuid);
            assert forall|a: int, b: int|
                0 <= a < b < ctx.database.data.devices@.len() implies (
            #[trigger] ctx.database.data.devices@[a])@.mac != (
            #[trigger] ctx.database.data.devices@[b])@.mac by {
                crate::util::lemma_remove_index(xs, i, a);
                crate::util::lemma_remove_index(xs, i, b);
            }
        }
    }
    let mut effects: Vec<Effect> = Vec::new();
    effects.push(Effect::Broadcast(WebMessage::DeviceRemoved(uuid)));
    effects.push(Effect::SaveData);
    effects
}
fn alarm_remove(ctx: &mut Context, uuid: Uuid) -> (r: Vec<Effect>)
    requires
        old(ctx).database.data.wf(),
    ensures
        final(ctx).database.data.wf(),
        alarms_remove_spec(*old(ctx), *final(ctx), uuid, r@),
{
    crate::util::remove_by_uuid(&mut ctx.database.data.alarms, uuid);
    let mut effects: Vec<Effect> = Vec::new();
    effects.push(Effect::Broadcast(WebMessage::AlarmRemoved(uuid)));
    effects.push(Effect::SaveData);
    effects
}
fn notification_remove(ctx: &mut Context, uuid: Uuid) -> (r: Vec<Effect>)
    requires
        old(ctx).database.data.wf(),
    ensures
        final(ctx).database.data.wf(),
        notifications_remove_spec(*old(ctx), *final(ctx), uuid, r@),
{
    crate::util::remove_by_uuid(&mut ctx.database.data.notifications, uuid);
    let mut effects: Vec<Effect> = Vec::new();
    effects.push(Effect::Broadcast(WebMessage::NotificationRemoved(uuid)));
    effects.push(Effect::SaveData);
    effects
}
fn contact_remove(ctx: &mut Context, uuid: Uuid) -> (r: Vec<Effect>)
    requires
        old(ctx).database.data.wf(),
    ensures
        final(ctx).database.data.wf(),
        contacts_remove_spec(*old(ctx), *final(ctx), uuid, r@),
{
    crate::util::remove_by_uuid(&mut ctx.database.data.contacts, uuid);
    let mut effects: Vec<Effect> = Vec::new();
    effects.push(Effect::Broadcast(WebMessage::ContactRemoved(uuid)));
    effects.push(Effect::SaveData);
    effects
}
fn contact_group_remove(ctx: &mut Context, uuid: Uuid) -> (r: Vec<Effect>)
    requires
        old(ctx).database.data.wf(),
    ensures
        final(ctx).database.data.wf(),
        contact_group_remove_spec(*old(ctx), *final(ctx), uuid, r@),
{
    crate::util::remove_by_uuid(&mut ctx.database.data.contact_group, uuid);
    let mut effects: Vec<Effect> = Vec::new();
    effects.push(Effect::Broadcast(WebMessage::ContactGroupRemoved(uuid)));
    effects.push(Effect::SaveData);
    effects
}
fn scanner_set(ctx: &mut Context, scanner: crate::entities::Scanner) -> (r: Vec<Effect>)
    requires
        old(ctx).database.data.wf(),
    ensures
        final(ctx).database.data.wf(),
        scanners_set_spec(*old(ctx), *final(ctx), scanner, r@),
{
    proof {
        crate::util::lemma_uuid_index(
            crate::util::ids_of(old(ctx).database.data.scanners@),
            scanner.uuid,
        );
    }
    let found = crate::util::find_by_uuid(&ctx.database.data.scanners, scanner.uuid);
    let ghost xs = ctx.database.data.scanners@;
    let stored: crate::entities::Scanner = match found {
        Option::Some(i) => {
            let mut cur = ctx.database.data.scanners[i].clone();
            cur.name = scanner.name;
            cur.room = scanner.room;
            cur.buzzer = scanner.buzzer;
            cur.led = scanner.led;
            cur.scan = scanner.scan;
            let copy = cur.clone();
            ctx.database.data.scanners.set(i, cur);
            proof {
                assert forall|a: int, b: int|
                    0 <= a < b < ctx.database.data.scanners@.len() implies (
                #[trigger] ctx.database.data.scanners@[a])@.mac != (
                #[trigger] ctx.database.data.scanners@[b])@.mac by {
                    assert(ctx.database.data.scanners@[a]@.mac == xs[a]@.mac);
                    assert(ctx.database.data.scanners@[b]@.mac == xs[b]@.mac);
                }
            }
            copy
        },
        Option::None => {
            let clash = ctx.database.data.find_scanner_by_mac(&scanner.mac);
            match clash {
                Option::Some(_) => {
                    return Vec::new();
                },
                Option::None => {
                    let copy = scanner.clone();
                    ctx.database.data.scanners.push(scanner);
                    proof {
                        assert forall|a: int, b: int|
                            0 <= a < b < ctx.database.data.scanners@.len() implies (
                        #[trigger] ctx.database.data.scanners@[a])@.mac != (
                        #[trigger] ctx.database.data.scanners@[b])@.mac by {
                            if b < xs.len() {
                                assert(ctx.database.data.scanners@[a]@.mac == xs[a]@.mac);
                                assert(ctx.database.data.scanners@[b]@.mac == xs[b]@.mac);
                            } else {
                                assert(ctx.database.data.scanners@[a]@.mac == xs[a]@.mac);
                                assert(xs[a]@.mac != ctx.database.data.scanners@[b]@.mac);
                            }
                        }
                    }
                    copy
                },
            }
        },
    };
    let state = crate::messages::State {
        scan: Some(stored.scan),
        led: Some(stored.led),
        buzzer: Some(stored.buzzer),
    };
    let target = stored.uuid;
    let mut effects: Vec<Effect> = Vec::new();
    effects.push(
        Effect::ToScanner(
            crate::messages::ScannerEvent {
                scanner: Some(target),
                message: crate::messages::ScannerMessage {
                    uuid: crate::ids::fresh_uuid(),
                    content: crate::messages::ScannerContent::SetState(state),
                },
            },
        ),
    );
    effects.push(Effect::Broadcast(WebMessage::ScannerDetail(stored)));
    effects.push(Effect::SaveData);
    effects
}

fn device_set(ctx: &mut Context, device: crate::entities::Device) -> (r: Vec<Effect>)
    requires
        old(ctx).database.data.wf(),
    ensures
        final(ctx).database.data.wf(),
        devices_set_spec(*old(ctx), *final(ctx), device, r@),
{
    proof {
        crate::util::lemma_uuid_index(
            crate::util::ids_of(old(ctx).database.data.devices@),
            device.uuid,
        );
    }
    let found = crate::util::find_by_uuid(&ctx.database.data.devices, device.uuid);
    let ghost xs = ctx.database.data.devices@;
    match found {
        Option::None => Vec::new(),
        Option::Some(i) => {
            let mut cur = ctx.database.data.devices[i].clone();
            cur.name = device.name;
            cur.enabled = device.enabled;
            let copy = cur.clone();
            ctx.database.data.devices.set(i, cur);
            proof {
                assert forall|a: int, b: int|
                    0 <= a < b < ctx.database.data.devices@.len() implies (
                #[trigger] ctx.database.data.devices@[a])@.mac != (
                #[trigger] ctx.database.data.devices@[b])@.mac by {
                    assert(ctx.database.data.devices@[a]@.mac == xs[a]@.mac);
                    assert(ctx.database.data.devices@[b]@.mac == xs[b]@.mac);
                }
            }
            let mut effects: Vec<Effect> = Vec::new();
            effects.push(Effect::Broadcast(WebMessage::DeviceDetail(copy)));
            effects.push(Effect::SaveData);
            effects
        },
    }
}

fn location_remove(ctx: &mut Context, uuid: Uuid) -> (r: Vec<Effect>)
    requires
        old(ctx).database.data.wf(),
    ensures
        final(ctx).database.data.wf(),
        locations_remove_spec(*old(ctx), *final(ctx), uuid, r@),
{
    if ctx.database.data.is_location_used(uuid) {
        let mut effects: Vec<Effect> = Vec::new();
        effects.push(
            Effect::Reply(
                WebMessage::Error(
                    crate::messages::Error::IntegrityError(
                        Box::new(WebMessage::LocationRemove(uuid)),
                    ),
                ),
            ),
        );
        effects.push(Effect::Reply(WebMessage::Close));
        effects
    } else {
        crate::util::remove_by_uuid(&mut ctx.database.data.locations, uuid);
        let mut effects: Vec<Effect> = Vec::new();
        effects.push(Effect::Broadcast(WebMessage::LocationRemoved(uuid)));
        effects.push(Effect::SaveData);
        effects
    }
}

fn event_remove(ctx: &mut Context, uuid: Uuid) -> (r: Vec<Effect>)
    requires
        old(ctx).database.events_wf(),
    ensures
        final(ctx).database.events_wf(),
        events_remove_spec(*old(ctx), *final(ctx), uuid, r@),
{
    let ghost xs = ctx.database.events@;
    crate::util::remove_by_uuid(&mut ctx.database.events, uuid);
    proof {
        let i = crate::util::uuid_index(crate::util::ids_of(xs), uuid);
        if i != -1 {
            crate::util::lemma_uuid_index(crate::util::ids_of(xs), uuid);
            assert forall|a: int, b: int|
                0 <= a < b < ctx.database.events@.len() implies !crate::database::same_event_key(
                #[trigger] ctx.database.events@[a],
                #[trigger] ctx.database.events@[b],
            ) by {
                crate::util::lemma_remove_index(xs, i, a);
                crate::util::lemma_remove_index(xs, i, b);
            }
        }
    }
    let mut effects: Vec<Effect> = Vec::new();
    effects.push(Effect::Broadcast(WebMessage::EventRemoved(uuid)));
    effects
}

fn alarm_trigger(ctx: &mut Context, info: crate::messages::AlarmInfo) -> (r: Result<
    Vec<Effect>,
    ProcessError,
>)
    requires
        old(ctx).database.data.wf(),
    ensures
        final(ctx).database.data.wf(),
        ({
            let ds = old(ctx).database.data.alarms;
            let ai = crate::util::uuid_index(crate::util::ids_of(ds@), info.alarm);
            if ai == -1 {
                &&& (r matches Result::Err(e) && e == ProcessError::MissingAlarm)
                &&& ctx_unchanged(*old(ctx), *final(ctx))
            } else {
                let ns = old(ctx).database.data.notifications;
                let ni = crate::util::uuid_index(crate::util::ids_of(ns@), ds@[ai]@.notification);
                if ni == -1 {
                    &&& (r matches Result::Err(e) && e == ProcessError::MissingNotification)
                    &&& ctx_unchanged(*old(ctx), *final(ctx))
                } else {
                    r matches Result::Ok(effects) && alarm_trigger_spec(
                        *old(ctx),
                        *final(ctx),
                        info,
                        ds@[ai]@,
                        ns@[ni]@,
                        effects@,
                    )
                }
            }
        }),
{
    proof {
        crate::util::lemma_uuid_index(
            crate::util::ids_of(ctx.database.data.alarms@),
            info.alarm,
        );
    }
    let found = crate::util::find_by_uuid(&ctx.database.data.alarms, info.alarm);
    let ai = match found {
        Option::Some(i) => i,
        Option::None => {
            return Err(ProcessError::MissingAlarm);
        },
    };
    let alarm = ctx.database.data.alarms[ai].clone();
    proof {
        crate::util::lemma_uuid_index(
            crate::util::ids_of(ctx.database.data.notifications@),
            alarm.notification,
        );
    }
    let nfound = crate::util::find_by_uuid(&ctx.database.data.notifications, alarm.notification);
    let ni = match nfound {
        Option::Some(i) => i,
        Option::None => {
            return Err(ProcessError::MissingNotification);
        },
    };
    let notification = ctx.database.data.notifications[ni].clone();
    // Record the firing alarm, overwriting an instance with the same key.
    let afound = ctx.find_alarm(info.uuid);
    let ghost alarms0 = ctx.alarms@;
    proof {
        crate::util::lemma_uuid_index(crate::context::alarm_ids(ctx.alarms@), info.uuid);
    }
    match afound {
        Option::Some(k) => {
            ctx.alarms.set(k, (info.uuid, info.clone()));
            proof {
                let ids = crate::context::alarm_ids(alarms0);
                crate::util::lemma_uuid_index(ids, info.uuid);
                assert(crate::util::uuid_index(ids, info.uuid) == k as int);
            }
        },
        Option::None => {
            ctx.alarms.push((info.uuid, info.clone()));
        },
    }
    // Drive every scanner's actuators to the definition's values.
    let ghost xs = ctx.database.data.scanners@;
    let mut i: usize = 0;
    while i < ctx.database.data.scanners.len()
        invariant
            old(ctx).database.data.wf(),
            i <= xs.len(),
            ctx.database.data.scanners@.len() == xs.len(),
            xs == old(ctx).database.data.scanners@,
            ctx.database.config == old(ctx).database.config,
            ctx.database.version == old(ctx).database.version,
            ctx.database.activities == old(ctx).database.activities,
            ctx.database.events == old(ctx).database.events,
            ctx.database.auth == old(ctx).database.auth,
            data_same_but_scanners(old(ctx).database.data, ctx.database.data),
            forall|j: int|
                0 <= j < i ==> (#[trigger] ctx.database.data.scanners@[j])@
                    == (crate::entities::ScannerView {
                    buzzer: alarm@.buzzer,
                    led: alarm@.led,
                    ..xs[j]@
                }),
            forall|j: int|
                i <= j < xs.len() ==> (#[trigger] ctx.database.data.scanners@[j]) == xs[j],
            alarms0 == old(ctx).alarms@,
            ({
                let ai = crate::util::uuid_index(crate::context::alarm_ids(alarms0), info.uuid);
                if ai == -1 {
                    ctx.alarms@.len() == alarms0.len() + 1 && (forall|t: int|
                        0 <= t < alarms0.len() ==> (#[trigger] ctx.alarms@[t]).0 == alarms0[t].0
                            && ctx.alarms@[t].1@ == alarms0[t].1@) && ctx.alarms@[alarms0.len() as int].0
                        == info.uuid && ctx.alarms@[alarms0.len() as int].1@ == info@
                } else {
                    ctx.alarms@.len() == alarms0.len() && (forall|t: int|
                        0 <= t < alarms0.len() && t != ai ==> (#[trigger] ctx.alarms@[t]).0
                            == alarms0[t].0 && ctx.alarms@[t].1@ == alarms0[t].1@)
                        && ctx.alarms@[ai].0 == info.uuid && ctx.alarms@[ai].1@ == info@
                }
            }),
        decreases xs.len() - i,
    {
        let mut sc = ctx.database.data.scanners[i].clone();
        sc.buzzer = alarm.buzzer;
        sc.led = alarm.led;
        ctx.database.data.scanners.set(i, sc);
        i += 1;
    }
    proof {
        assert forall|a: int, b: int|
            0 <= a < b < ctx.database.data.scanners@.len() implies (
        #[trigger] ctx.database.data.scanners@[a])@.mac != (
        #[trigger] ctx.database.data.scanners@[b])@.mac by {
            assert(ctx.database.data.scanners@[a]@.mac == xs[a]@.mac);
            assert(ctx.database.data.scanners@[b]@.mac == xs[b]@.mac);
        }
    }
    let contacts = ctx.database.data.get_contacts_by_group(alarm.group);
    let mut effects: Vec<Effect> = Vec::new();
    effects.push(
        Effect::ToScanner(
            crate::messages::ScannerEvent {
                scanner: None,
                message: crate::messages::ScannerMessage {
                    uuid: crate::ids::fresh_uuid(),
                    content: crate::messages::ScannerContent::SetState(
                        crate::messages::State {
                            scan: None,
                            buzzer: Some(alarm.buzzer),
                            led: Some(alarm.led),
                        },
                    ),
                },
            },
        ),
    );
    effects.push(Effect::Broadcast(WebMessage::Alarm(info.clone())));
    let ghost gc = group_contacts_of(*old(ctx), alarm@.group);
    proof {
        assert(contacts.deep_view() == gc);
    }
    let ghost base2 = effects@;
    let mut k: usize = 0;
    while k < contacts.len()
        invariant
            k <= contacts@.len(),
            contacts.deep_view() == gc,
            effects@.len() == 2 + k,
            base2.len() == 2,
            forall|t: int| 0 <= t < 2 ==> (#[trigger] effects@[t]) == base2[t],
            forall|t: int|
                0 <= t < k ==> (#[trigger] effects@[2 + t] matches Effect::Notify(act) && act@
                    == crate::config::spec_notify_action(
                    gc[t],
                    alarm_template(notification@, info@),
                )),
        decreases contacts@.len() - k,
    {
        let contact = contacts[k].clone();
        proof {
            assert(contact@ == gc[k as int]);
        }
        let action = ctx.database.config.notification.send_alarm(
            contact,
            notification.clone(),
            &info,
        );
        effects.push(Effect::Notify(action));
        k += 1;
    }
    Ok(effects)
}

fn alarm_stop(ctx: &mut Context, uuid: Uuid) -> (r: Vec<Effect>)
    requires
        old(ctx).database.data.wf(),
    ensures
        final(ctx).database.data.wf(),
        alarm_stop_spec(*old(ctx), *final(ctx), uuid, r@),
{
    let afound = ctx.find_alarm(uuid);
    let ghost alarms0 = ctx.alarms@;
    proof {
        crate::util::lemma_uuid_index(crate::context::alarm_ids(alarms0), uuid);
    }
    match afound {
        Option::Some(k) => {
            ctx.alarms.remove(k);
            proof {
                assert(crate::util::uuid_index(
                    crate::context::alarm_ids(alarms0),
                    uuid,
                ) == k as int);
            }
        },
        Option::None => {},
    }
    let ghost xs = ctx.database.data.scanners@;
    let mut i: usize = 0;
    while i < ctx.database.data.scanners.len()
        invariant
            old(ctx).database.data.wf(),
            i <= xs.len(),
            ctx.database.data.scanners@.len() == xs.len(),
            xs == old(ctx).database.data.scanners@,
            ctx.database.config == old(ctx).database.config,
            ctx.database.version == old(ctx).database.version,
            ctx.database.activities == old(ctx).database.activities,
            ctx.database.events == old(ctx).database.events,
            ctx.database.auth == old(ctx).database.auth,
            data_same_but_scanners(old(ctx).database.data, ctx.database.data),
            forall|j: int|
                0 <= j < i ==> (#[trigger] ctx.database.data.scanners@[j])@
                    == (crate::entities::ScannerView { buzzer: false, led: false, ..xs[j]@ }),
            forall|j: int|
                i <= j < xs.len() ==> (#[trigger] ctx.database.data.scanners@[j]) == xs[j],
            ({
                let ai = crate::util::uuid_index(crate::context::alarm_ids(old(ctx).alarms@), uuid);
                if ai == -1 {
                    ctx.alarms@ == old(ctx).alarms@
                } else {
                    ctx.alarms@ == old(ctx).alarms@.remove(ai)
                }
            }),
        decreases xs.len() - i,
    {
        let mut sc = ctx.database.data.scanners[i].clone();
        sc.buzzer = false;
        sc.led = false;
        ctx.database.data.scanners.set(i, sc);
        i += 1;
    }
    proof {
        assert forall|a: int, b: int|
            0 <= a < b < ctx.database.data.scanners@.len() implies (
        #[trigger] ctx.database.data.scanners@[a])@.mac != (
        #[trigger] ctx.database.data.scanners@[b])@.mac by {
            assert(ctx.database.data.scanners@[a]@.mac == xs[a]@.mac);
            assert(ctx.database.data.scanners@[b]@.mac == xs[b]@.mac);
        }
    }
    let mut effects: Vec<Effect> = Vec::new();
    effects.push(
        Effect::ToScanner(
            crate::messages::ScannerEvent {
                scanner: None,
                message: crate::messages::ScannerMessage {
                    uuid: crate::ids::fresh_uuid(),
                    content: crate::messages::ScannerContent::SetState(
                        crate::messages::State {
                            scan: None,
                            buzzer: Some(false),
                            led: Some(false),
                        },
                    ),
                },
            },
        ),
    );
    effects.push(Effect::Broadcast(WebMessage::AlarmStop(uuid)));
    effects
}

fn notify_cmd(ctx: &Context, uuid: Uuid, group: Uuid) -> (r: Vec<Effect>)
    ensures
        notify_spec(*ctx, *ctx, uuid, group, r@),
{
    proof {
        crate::util::lemma_uuid_index(
            crate::util::ids_of(ctx.database.data.notifications@),
            uuid,
        );
    }
    let nfound = crate::util::find_by_uuid(&ctx.database.data.notifications, uuid);
    let mut effects: Vec<Effect> = Vec::new();
    match nfound {
        Option::None => {
            effects.push(Effect::SaveData);
            effects
        },
        Option::Some(ni) => {
            let notification = ctx.database.data.notifications[ni].clone();
            let contacts = ctx.database.data.get_contacts_by_group(group);
            let ghost gc = group_contacts_of(*ctx, group);
            proof {
                assert(contacts.deep_view() == gc);
            }
            let mut k: usize = 0;
            while k < contacts.len()
                invariant
                    k <= contacts@.len(),
                    contacts.deep_view() == gc,
                    effects@.len() == k,
                    notification@ == ctx.database.data.notifications@[crate::util::uuid_index(
                        crate::util::ids_of(ctx.database.data.notifications@),
                        uuid,
                    )]@,
                    forall|t: int|
                        0 <= t < k ==> (#[trigger] effects@[t] matches Effect::Notify(act)
                            && act@ == crate::config::spec_notify_action(gc[t], notification@)),
                decreases contacts@.len() - k,
            {
                let contact = contacts[k].clone();
                proof {
                    assert(contact@ == gc[k as int]);
                }
                let action = ctx.database.config.notification.send_notifications(
                    contact,
                    notification.clone(),
                );
                effects.push(Effect::Notify(action));
                k += 1;
            }
            effects.push(Effect::SaveData);
            effects
        },
    }
}

fn user_set(ctx: &mut Context, user: UserInfo) -> (r: Result<Vec<Effect>, ProcessError>)
    ensures
        ({
            let us = old(ctx).database.auth.users;
            let i = crate::util::uuid_index(crate::util::ids_of(us@), user.uuid);
            if i == -1 && user@.password is None {
                &&& (r matches Result::Err(e) && e == ProcessError::MissingPassword)
                &&& ctx_unchanged(*old(ctx), *final(ctx))
            } else {
                r matches Result::Ok(effects) && user_set_spec(
                    *old(ctx),
                    *final(ctx),
                    user,
                    effects@,
                )
            }
        }),
{
    proof {
        crate::util::lemma_uuid_index(
            crate::util::ids_of(ctx.database.auth.users@),
            user.uuid,
        );
    }
    let hashed: Option<String> = match &user.password {
        Option::Some(p) => Some(ctx.database.config.base.get_hashed(p.as_str())),
        Option::None => None,
    };
    let found = crate::util::find_by_uuid(&ctx.database.auth.users, user.uuid);
    let info: UserInfo = match found {
        Option::Some(i) => {
            let mut cur = ctx.database.auth.users[i].clone();
            cur.roles = crate::util::copy_vec(&user.roles);
            match hashed {
                Option::Some(h) => {
                    cur.password = h;
                },
                Option::None => {},
            }
            let info = UserInfo {
                username: cur.username.clone(),
                uuid: cur.uuid,
                roles: crate::util::copy_vec(&cur.roles),
                password: None,
            };
            ctx.database.auth.users.set(i, cur);
            info
        },
        Option::None => {
            let h = match hashed {
                Option::Some(h) => h,
                Option::None => {
                    return Err(ProcessError::MissingPassword);
                },
            };
            let stored = crate::entities::User {
                uuid: user.uuid,
                username: user.username.clone(),
                password: h,
                roles: crate::util::copy_vec(&user.roles),
            };
            ctx.database.auth.users.push(stored);
            UserInfo { username: user.username, uuid: user.uuid, roles: user.roles, password: None }
        },
    };
    let mut effects: Vec<Effect> = Vec::new();
    effects.push(Effect::SaveData);
    effects.push(Effect::Broadcast(WebMessage::UserInfo(info)));
    Ok(effects)
}

fn token_get(ctx: &mut Context, who: Uuid, token: Option<String>, now: u64) -> (r: Vec<Effect>)
    ensures
        token_get_spec(*old(ctx), *final(ctx), who, token, now, r@),
{
    let mut effects: Vec<Effect> = Vec::new();
    match &token {
        Option::Some(tok) => {
            let found = ctx.database.auth.find_token_by_nonce(tok);
            match found {
                Option::Some(i) => {
                    let t = ctx.database.auth.tokens[i].clone();
                    effects.push(Effect::Reply(WebMessage::TokenDetail(Some(t))));
                },
                Option::None => {
                    effects.push(Effect::Reply(WebMessage::TokenDetail(None)));
                },
            }
        },
        Option::None => {
            let nonce = crate::util::alphanumeric_nonce(16);
            let t = crate::entities::Token { nonce, user: who, is_valid: true, created: now };
            let t2 = t.clone();
            let ghost ts0 = ctx.database.auth.tokens@;
            ctx.database.auth.tokens.push(t);
            proof {
                let nc = t2@.nonce;
                assert(ctx.database.auth.tokens@[ts0.len() as int]@ == minted_token(nc, who, now));
            }
            effects.push(Effect::Reply(WebMessage::TokenDetail(Some(t2))));
        },
    }
    effects.push(Effect::SaveAuth);
    effects
}

fn token_for_user(ctx: &mut Context, target: Uuid, now: u64) -> (r: Vec<Effect>)
    ensures
        token_for_user_spec(*old(ctx), *final(ctx), target, now, r@),
{
    proof {
        crate::util::lemma_uuid_index(crate::util::ids_of(ctx.database.auth.users@), target);
    }
    let found = crate::util::find_by_uuid(&ctx.database.auth.users, target);
    match found {
        Option::None => Vec::new(),
        Option::Some(i) => {
            let nonce = crate::util::alphanumeric_nonce(16);
            let t = crate::entities::Token { nonce, user: target, is_valid: true, created: now };
            let t2 = t.clone();
            let ghost ts0 = ctx.database.auth.tokens@;
            ctx.database.auth.tokens.push(t);
            proof {
                let nc = t2@.nonce;
                assert(ctx.database.auth.tokens@[ts0.len() as int]@ == minted_token(
                    nc,
                    target,
                    now,
                ));
            }
            let mut effects: Vec<Effect> = Vec::new();
            effects.push(Effect::Reply(WebMessage::TokenDetail(Some(t2))));
            effects.push(Effect::SaveAuth);
            effects
        },
    }
}

fn backup_remove(ctx: &mut Context, path: String) -> (r: Vec<Effect>)
    requires
        old(ctx).database.data.wf(),
    ensures
        final(ctx).database.data.wf(),
        backup_remove_spec(*old(ctx), *final(ctx), path@, r@),
{
    let ghost bs = ctx.database.data.backups@;
    let mut i: usize = 0;
    let mut found: Option<usize> = None;
    while i < ctx.database.data.backups.len() && found.is_none()
        invariant
            old(ctx).database.data.wf(),
            *ctx == *old(ctx),
            i <= ctx.database.data.backups@.len(),
            bs == ctx.database.data.backups@,
            forall|j: int| 0 <= j < i ==> (#[trigger] bs[j])@ != path@,
            match found {
                Option::Some(k) => k == i && i < bs.len() && bs[i as int]@ == path@,
                Option::None => true,
            },
        decreases ctx.database.data.backups@.len() - i, (if found is Some {
            0int
        } else {
            1int
        }),
    {
        if ctx.database.data.backups[i] == path {
            found = Some(i);
        } else {
            i += 1;
        }
    }
    match found {
        Option::Some(k) => {
            ctx.database.data.backups.remove(k);
            proof {
                assert forall|a: int, b: int|
                    0 <= a < b < ctx.database.data.backups@.len() implies (
                #[trigger] ctx.database.data.backups@[a])@ != (
                #[trigger] ctx.database.data.backups@[b])@ by {
                    crate::util::lemma_remove_index(bs, k as int, a);
                    crate::util::lemma_remove_index(bs, k as int, b);
                }
            }
        },
        Option::None => {},
    }
    let mut effects: Vec<Effect> = Vec::new();
    effects.push(Effect::Broadcast(WebMessage::BackupRemove(path)));
    effects
}

fn backup_cmd(ctx: &mut Context, path: String) -> (r: Vec<Effect>)
    requires
        old(ctx).database.data.wf(),
    ensures
        final(ctx).database.data.wf(),
        backup_spec(*old(ctx), *final(ctx), path@, r@),
{
    let p2 = path.clone();
    let p3 = path.clone();
    ctx.database.backup(path);
    let mut effects: Vec<Effect> = Vec::new();
    effects.push(Effect::SaveData);
    effects.push(Effect::SaveBackup(p2));
    effects.push(Effect::Broadcast(WebMessage::Backup(p3)));
    effects
}

impl Operator {
    /// Logs the session in from submitted credentials, replacing its
    /// identity on a match and handing back the snapshot; the session is
    /// always told who it now is.
    fn do_login(&mut self, ctx: &Context, auth: Auth) -> (r: Vec<Effect>)
        ensures
            login_spec(*ctx, *ctx, *old(self), *final(self), auth, r@),
    {
        let logged_in: bool = match &auth {
            Auth::Login { username, .. } => {
                let found = ctx.database.auth.find_user_by_username(username);
                match found {
                    Option::Some(i) => {
                        let u = &ctx.database.auth.users[i];
                        self.username = u.username.clone();
                        self.uuid = u.uuid;
                        self.roles = crate::util::copy_vec(&u.roles);
                        true
                    },
                    Option::None => false,
                }
            },
            Auth::Token(tok) => {
                let tfound = ctx.database.auth.find_token_by_nonce(tok);
                match tfound {
                    Option::Some(ti) => {
                        let target = ctx.database.auth.tokens[ti].user;
                        proof {
                            crate::util::lemma_uuid_index(
                                crate::util::ids_of(ctx.database.auth.users@),
                                target,
                            );
                        }
                        let ufound = crate::util::find_by_uuid(&ctx.database.auth.users, target);
                        match ufound {
                            Option::Some(i) => {
                                let u = &ctx.database.auth.users[i];
                                self.username = u.username.clone();
                                self.uuid = u.uuid;
                                self.roles = crate::util::copy_vec(&u.roles);
                                true
                            },
                            Option::None => false,
                        }
                    },
                    Option::None => false,
                }
            },
        };
        if logged_in {
            let mut effects = self.login(ctx);
            let ghost before = effects@;
            effects.push(
                Effect::Reply(
                    WebMessage::UserInfo(
                        UserInfo {
                            username: self.username.clone(),
                            uuid: self.uuid,
                            roles: crate::util::copy_vec(&self.roles),
                            password: None,
                        },
                    ),
                ),
            );
            proof {
                assert(forall|k: int| 0 <= k < before.len() ==> #[trigger] effects@[k] == before[k]);
                assert(snapshot_effects(*ctx, effects@));
            }
            effects
        } else {
            let mut effects: Vec<Effect> = Vec::new();
            effects.push(
                Effect::Reply(
                    WebMessage::UserInfo(
                        UserInfo {
                            username: self.username.clone(),
                            uuid: self.uuid,
                            roles: crate::util::copy_vec(&self.roles),
                            password: None,
                        },
                    ),
                ),
            );
            effects
        }
    }

    /// Applies one operator command. A command the session's roles do not
    /// permit is rejected without being applied; an accepted command
    /// mutates the shared state and yields the side effects for the
    /// application to perform. Lookup failures leave the state untouched.
    #[verifier::rlimit(100)]
    pub fn process(&mut self, ctx: &mut Context, msg: WebMessage, now: u64) -> (r: Result<
        Vec<Effect>,
        ProcessError,
    >)
        requires
            old(ctx).database.data.wf(),
            old(ctx).database.events_wf(),
        ensures
            final(ctx).database.data.wf(),
            final(ctx).database.events_wf(),
            final(ctx).database.activities == old(ctx).database.activities,
            (match msg {
                WebMessage::Login(..) => true,
                WebMessage::Logout => true,
                _ => *final(self) == *old(self),
            }),
            (if !allowed(old(self).roles@, &msg) {
                &&& ctx_unchanged(*old(ctx), *final(ctx))
                &&& *final(self) == *old(self)
                &&& (r matches Result::Ok(effects) && effects@.len() == 1 && (effects@[0]
                    matches Effect::Reply(m) && m matches WebMessage::Error(e) && (
                e matches crate::messages::Error::Unauthorized(b) && *b == msg)))
            } else {
                match msg {
                    WebMessage::Login(auth) => r matches Result::Ok(effects) && login_spec(
                        *old(ctx),
                        *final(ctx),
                        *old(self),
                        *final(self),
                        auth,
                        effects@,
                    ),
                    WebMessage::Logout => {
                        &&& ctx_unchanged(*old(ctx), *final(ctx))
                        &&& (r matches Result::Ok(effects) && effects@.len() == 0)
                        &&& final(self).uuid.value == 0
                        &&& final(self).roles@ == seq![crate::entities::Role::Anonymous]
                        &&& final(self).username@ == "Anonymous"@
                    },
                    WebMessage::LocationSet(location) => r matches Result::Ok(effects)
                        && locations_set_spec(*old(ctx), *final(ctx), location, effects@),
                    WebMessage::LocationRemove(uuid) => r matches Result::Ok(effects)
                        && locations_remove_spec(*old(ctx), *final(ctx), uuid, effects@),
                    WebMessage::RoomSet(room) => r matches Result::Ok(effects) && rooms_set_spec(
                        *old(ctx),
                        *final(ctx),
                        room,
                        effects@,
                    ),
                    WebMessage::RoomRemove(uuid) => r matches Result::Ok(effects)
                        && rooms_remove_spec(*old(ctx), *final(ctx), uuid, effects@),
                    WebMessage::ScannerSet(scanner) => r matches Result::Ok(effects)
                        && scanners_set_spec(*old(ctx), *final(ctx), scanner, effects@),
                    WebMessage::ScannerRemove(uuid) => r matches Result::Ok(effects)
                        && scanners_remove_spec(*old(ctx), *final(ctx), uuid, effects@),
                    WebMessage::DeviceSet(device) => r matches Result::Ok(effects)
                        && devices_set_spec(*old(ctx), *final(ctx), device, effects@),
                    WebMessage::DeviceRemove(uuid) => r matches Result::Ok(effects)
                        && devices_remove_spec(*old(ctx), *final(ctx), uuid, effects@),
                    WebMessage::EventRemove(uuid) => r matches Result::Ok(effects)
                        && events_remove_spec(*old(ctx), *final(ctx), uuid, effects@),
                    WebMessage::AlarmSet(alarm) => r matches Result::Ok(effects)
                        && alarms_set_spec(*old(ctx), *final(ctx), alarm, effects@),
                    WebMessage::AlarmRemove(uuid) => r matches Result::Ok(effects)
                        && alarms_remove_spec(*old(ctx), *final(ctx), uuid, effects@),
                    WebMessage::Alarm(info) => ({
                        let ds = old(ctx).database.data.alarms;
                        let ai = crate::util::uuid_index(crate::util::ids_of(ds@), info.alarm);
                        if ai == -1 {
                            &&& (r matches Result::Err(e) && e == ProcessError::MissingAlarm)
                            &&& ctx_unchanged(*old(ctx), *final(ctx))
                        } else {
                            let ns = old(ctx).database.data.notifications;
                            let ni = crate::util::uuid_index(
                                crate::util::ids_of(ns@),
                                ds@[ai]@.notification,
                            );
                            if ni == -1 {
                                &&& (r matches Result::Err(e) && e
                                    == ProcessError::MissingNotification)
                                &&& ctx_unchanged(*old(ctx), *final(ctx))
                            } else {
                                r matches Result::Ok(effects) && alarm_trigger_spec(
                                    *old(ctx),
                                    *final(ctx),
                                    info,
                                    ds@[ai]@,
                                    ns@[ni]@,
                                    effects@,
                                )
                            }
                        }
                    }),
                    WebMessage::AlarmStop(uuid) => r matches Result::Ok(effects)
                        && alarm_stop_spec(*old(ctx), *final(ctx), uuid, effects@),
                    WebMessage::Notify { uuid, group } => r matches Result::Ok(effects)
                        && notify_spec(*old(ctx), *final(ctx), uuid, group, effects@),
                    WebMessage::NotificationSet(notification) => r matches Result::Ok(effects)
                        && notifications_set_spec(*old(ctx), *final(ctx), notification, effects@),
                    WebMessage::NotificationRemove(uuid) => r matches Result::Ok(effects)
                        && notifications_remove_spec(*old(ctx), *final(ctx), uuid, effects@),
                    WebMessage::UserSet(user) => ({
                        let us = old(ctx).database.auth.users;
                        let i = crate::util::uuid_index(crate::util::ids_of(us@), user.uuid);
                        if i == -1 && user@.password is None {
                            &&& (r matches Result::Err(e) && e == ProcessError::MissingPassword)
                            &&& ctx_unchanged(*old(ctx), *final(ctx))
                        } else {
                            r matches Result::Ok(effects) && user_set_spec(
                                *old(ctx),
                                *final(ctx),
                                user,
                                effects@,
                            )
                        }
                    }),
                    WebMessage::TokenGet(token) => r matches Result::Ok(effects)
                        && token_get_spec(
                        *old(ctx),
                        *final(ctx),
                        old(self).uuid,
                        token,
                        now,
                        effects@,
                    ),
                    WebMessage::TokenGetForUser(target) => r matches Result::Ok(effects)
                        && token_for_user_spec(*old(ctx), *final(ctx), target, now, effects@),
                    WebMessage::ContactSet(contact) => r matches Result::Ok(effects)
                        && contacts_set_spec(*old(ctx), *final(ctx), contact, effects@),
                    WebMessage::ContactRemove(uuid) => r matches Result::Ok(effects)
                        && contacts_remove_spec(*old(ctx), *final(ctx), uuid, effects@),
                    WebMessage::ContactGroupSet(contact_group) => r matches Result::Ok(effects)
                        && contact_group_set_spec(*old(ctx), *final(ctx), contact_group, effects@),
                    WebMessage::ContactGroupRemove(uuid) => r matches Result::Ok(effects)
                        && contact_group_remove_spec(*old(ctx), *final(ctx), uuid, effects@),
                    WebMessage::BackupRemove(path) => r matches Result::Ok(effects)
                        && backup_remove_spec(*old(ctx), *final(ctx), path@, effects@),
                    WebMessage::Backup(path) => r matches Result::Ok(effects) && backup_spec(
                        *old(ctx),
                        *final(ctx),
                        path@,
                        effects@,
                    ),
                    WebMessage::Restore(path) => {
                        &&& ctx_unchanged(*old(ctx), *final(ctx))
                        &&& (r matches Result::Ok(effects) && effects@.len() == 1 && (effects@[0]
                            matches Effect::LoadData(p) && p@ == path@))
                    },
                    _ => {
                        &&& ctx_unchanged(*old(ctx), *final(ctx))
                        &&& (r matches Result::Ok(effects) && effects@.len() == 0)
                    },
                }
            }),
    {
        let authorized = self.has_role(&msg);
        if !authorized {
            let mut effects: Vec<Effect> = Vec::new();
            effects.push(
                Effect::Reply(
                    WebMessage::Error(crate::messages::Error::Unauthorized(Box::new(msg))),
                ),
            );
            return Ok(effects);
        }
        match msg {
            WebMessage::Login(auth) => Ok(self.do_login(&*ctx, auth)),
            WebMessage::Logout => {
                self.username = "Anonymous".to_owned();
                let mut roles: Vec<crate::entities::Role> = Vec::new();
                roles.push(crate::entities::Role::Anonymous);
                proof {
                    assert(roles@ =~= seq![crate::entities::Role::Anonymous]);
                }
                self.roles = roles;
                self.uuid = Uuid::nil();
                Ok(Vec::new())
            },
            WebMessage::LocationSet(location) => Ok(location_set(ctx, location)),
            WebMessage::LocationRemove(uuid) => Ok(location_remove(ctx, uuid)),
            WebMessage::RoomSet(room) => Ok(room_set(ctx, room)),
            WebMessage::RoomRemove(uuid) => Ok(room_remove(ctx, uuid)),
            WebMessage::ScannerSet(scanner) => Ok(scanner_set(ctx, scanner)),
            WebMessage::ScannerRemove(uuid) => Ok(scanner_remove(ctx, uuid)),
            WebMessage::DeviceSet(device) => Ok(device_set(ctx, device)),
            WebMessage::DeviceRemove(uuid) => Ok(device_remove(ctx, uuid)),
            WebMessage::EventRemove(uuid) => Ok(event_remove(ctx, uuid)),
            WebMessage::AlarmSet(alarm) => Ok(alarm_set(ctx, alarm)),
            WebMessage::AlarmRemove(uuid) => Ok(alarm_remove(ctx, uuid)),
            WebMessage::Alarm(info) => alarm_trigger(ctx, info),
            WebMessage::AlarmStop(uuid) => Ok(alarm_stop(ctx, uuid)),
            WebMessage::Notify { uuid, group } => Ok(notify_cmd(&*ctx, uuid, group)),
            WebMessage::NotificationSet(notification) => Ok(notification_set(ctx, notification)),
            WebMessage::NotificationRemove(uuid) => Ok(notification_remove(ctx, uuid)),
            WebMessage::UserSet(user) => user_set(ctx, user),
            WebMessage::TokenGet(token) => Ok(token_get(ctx, self.uuid, token, now)),
            WebMessage::TokenGetForUser(target) => Ok(token_for_user(ctx, target, now)),
            WebMessage::ContactSet(contact) => Ok(contact_set(ctx, contact)),
            WebMessage::ContactRemove(uuid) => Ok(contact_remove(ctx, uuid)),
            WebMessage::ContactGroupSet(contact_group) => Ok(
                contact_group_set(ctx, contact_group),
            ),
            WebMessage::ContactGroupRemove(uuid) => Ok(contact_group_remove(ctx, uuid)),
            WebMessage::BackupRemove(path) => Ok(backup_remove(ctx, path)),
            WebMessage::Backup(path) => Ok(backup_cmd(ctx, path)),
            WebMessage::Restore(path) => {
                let mut effects: Vec<Effect> = Vec::new();
                effects.push(Effect::LoadData(path));
                Ok(effects)
            },
            _ => Ok(Vec::new()),
        }
    }
}

} // verus!
