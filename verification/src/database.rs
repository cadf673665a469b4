use vstd::prelude::*;

use crate::activity::Activities;
use crate::config;
use crate::entities::{Contact, ContactView, Event, Room, Scanner, Device, Token, User};
use crate::ids::Uuid;
use crate::util::{bytes_eq, find_by_uuid, ids_of, lemma_uuid_index, uuid_index};

verus! {

// ---------------------------------------------------------------------------
// The server's registries. Each registry is a vector of records; the mac
// registries keep their natural keys unique, as the protocol requires.
// ---------------------------------------------------------------------------

/// Operator accounts and login tokens.
pub struct Auth {
    pub users: Vec<User>,
    pub tokens: Vec<Token>,
}

impl Default for Auth {
    fn default() -> (r: Auth)
        ensures
            r.users@.len() == 0,
            r.tokens@.len() == 0,
    {
        Auth { users: Vec::new(), tokens: Vec::new() }
    }
}

impl Auth {
    /// First account with the given username.
    pub fn find_user_by_username(&self, username: &String) -> (r: Option<usize>)
        ensures
            match r {
                Option::Some(i) => {
                    &&& 0 <= i < self.users@.len()
                    &&& self.users@[i as int]@.username == username@
                    &&& forall|j: int|
                        0 <= j < i ==> (#[trigger] self.users@[j])@.username != username@
                },
                Option::None => forall|j: int|
                    0 <= j < self.users@.len() ==> (#[trigger] self.users@[j])@.username
                        != username@,
            },
    {
        let mut i: usize = 0;
        while i < self.users.len()
            invariant
                i <= self.users@.len(),
                forall|j: int| 0 <= j < i ==> (#[trigger] self.users@[j])@.username != username@,
            decreases self.users@.len() - i,
        {
            if self.users[i].username == *username {
                return Some(i);
            }
            i += 1;
        }
        None
    }

    /// First token with the given nonce.
    pub fn find_token_by_nonce(&self, nonce: &String) -> (r: Option<usize>)
        ensures
            match r {
                Option::Some(i) => {
                    &&& 0 <= i < self.tokens@.len()
                    &&& self.tokens@[i as int]@.nonce == nonce@
                    &&& forall|j: int|
                        0 <= j < i ==> (#[trigger] self.tokens@[j])@.nonce != nonce@
                },
                Option::None => forall|j: int|
                    0 <= j < self.tokens@.len() ==> (#[trigger] self.tokens@[j])@.nonce != nonce@,
            },
    {
        let mut i: usize = 0;
        while i < self.tokens.len()
            invariant
                i <= self.tokens@.len(),
                forall|j: int| 0 <= j < i ==> (#[trigger] self.tokens@[j])@.nonce != nonce@,
            decreases self.tokens@.len() - i,
        {
            if self.tokens[i].nonce == *nonce {
                return Some(i);
            }
            i += 1;
        }
        None
    }
}

/// The persisted domain registries.
pub struct Data {
    pub scanners: Vec<Scanner>,
    pub devices: Vec<Device>,
    pub locations: Vec<crate::entities::Location>,
    pub rooms: Vec<Room>,
    pub alarms: Vec<crate::entities::Alarm>,
    pub notifications: Vec<crate::entities::Notification>,
    pub contacts: Vec<Contact>,
    pub contact_group: Vec<crate::entities::ContactGroup>,
    pub backups: Vec<String>,
}

/// The contacts that belong to a group: those whose key appears in the
/// group's member list, in registry order.
pub open spec fn spec_group_contacts(contacts: Seq<ContactView>, members: Seq<Uuid>) -> Seq<
    ContactView,
>
    decreases contacts.len(),
{
    if contacts.len() == 0 {
        Seq::empty()
    } else {
        let rest = spec_group_contacts(contacts.drop_last(), members);
        if members.contains(contacts.last().uuid) {
            rest.push(contacts.last())
        } else {
            rest
        }
    }
}

/// Whether a member list holds a key.
pub fn contains_uuid(v: &Vec<Uuid>, u: Uuid) -> (r: bool)
    ensures
        r == v@.contains(u),
{
    let mut i: usize = 0;
    while i < v.len()
        invariant
            i <= v@.len(),
            forall|j: int| 0 <= j < i ==> v@[j] != u,
        decreases v@.len() - i,
    {
        if v[i] == u {
            return true;
        }
        i += 1;
    }
    proof {
        assert(forall|j: int| 0 <= j < v@.len() ==> v@[j] != u);
    }
    false
}

impl Default for Data {
    fn default() -> (r: Data)
        ensures
            r.scanners@.len() == 0,
            r.devices@.len() == 0,
            r.locations@.len() == 0,
            r.rooms@.len() == 0,
            r.alarms@.len() == 0,
            r.notifications@.len() == 0,
            r.contacts@.len() == 0,
            r.contact_group@.len() == 0,
            r.backups@.len() == 0,
            r.wf(),
    {
        Data {
            scanners: Vec::new(),
            devices: Vec::new(),
            locations: Vec::new(),
            rooms: Vec::new(),
            alarms: Vec::new(),
            notifications: Vec::new(),
            contacts: Vec::new(),
            contact_group: Vec::new(),
            backups: Vec::new(),
        }
    }
}

impl Data {
    /// The registry invariants: scanner and device hardware addresses are
    /// unique, and no backup path is recorded twice.
    pub open spec fn wf(&self) -> bool {
        &&& forall|i: int, j: int|
            0 <= i < j < self.scanners@.len() ==> (#[trigger] self.scanners@[i])@.mac != (
            #[trigger] self.scanners@[j])@.mac
        &&& forall|i: int, j: int|
            0 <= i < j < self.devices@.len() ==> (#[trigger] self.devices@[i])@.mac != (
            #[trigger] self.devices@[j])@.mac
        &&& forall|i: int, j: int|
            0 <= i < j < self.backups@.len() ==> (#[trigger] self.backups@[i])@ != (
            #[trigger] self.backups@[j])@
    }

    /// First scanner with the given hardware address.
    pub fn find_scanner_by_mac(&self, mac: &Vec<u8>) -> (r: Option<usize>)
        ensures
            match r {
                Option::Some(i) => {
                    &&& 0 <= i < self.scanners@.len()
                    &&& self.scanners@[i as int]@.mac == mac@
                    &&& forall|j: int|
                        0 <= j < i ==> (#[trigger] self.scanners@[j])@.mac != mac@
                },
                Option::None => forall|j: int|
                    0 <= j < self.scanners@.len() ==> (#[trigger] self.scanners@[j])@.mac != mac@,
            },
    {
        let mut i: usize = 0;
        while i < self.scanners.len()
            invariant
                i <= self.scanners@.len(),
                forall|j: int| 0 <= j < i ==> (#[trigger] self.scanners@[j])@.mac != mac@,
            decreases self.scanners@.len() - i,
        {
            if bytes_eq(&self.scanners[i].mac, mac) {
                return Some(i);
            }
            i += 1;
        }
        None
    }

    /// First device with the given hardware address.
    pub fn find_device_by_mac(&self, mac: &Vec<u8>) -> (r: Option<usize>)
        ensures
            match r {
                Option::Some(i) => {
                    &&& 0 <= i < self.devices@.len()
                    &&& self.devices@[i as int]@.mac == mac@
                    &&& forall|j: int|
                        0 <= j < i ==> (#[trigger] self.devices@[j])@.mac != mac@
                },
                Option::None => forall|j: int|
                    0 <= j < self.devices@.len() ==> (#[trigger] self.devices@[j])@.mac != mac@,
            },
    {
        let mut i: usize = 0;
        while i < self.devices.len()
            invariant
                i <= self.devices@.len(),
                forall|j: int| 0 <= j < i ==> (#[trigger] self.devices@[j])@.mac != mac@,
            decreases self.devices@.len() - i,
        {
            if bytes_eq(&self.devices[i].mac, mac) {
                return Some(i);
            }
            i += 1;
        }
        None
    }

    /// First scanner whose stored address matches the socket.
    pub fn find_scanner_by_socket(&self, socket: &crate::config::HostPort) -> (r: Option<usize>)
        ensures
            match r {
                Option::Some(i) => {
                    &&& 0 <= i < self.scanners@.len()
                    &&& self.scanners@[i as int]@.ip == socket@.ip
                    &&& self.scanners@[i as int]@.port == socket@.port
                    &&& forall|j: int|
                        0 <= j < i ==> !((#[trigger] self.scanners@[j])@.ip == socket@.ip
                            && self.scanners@[j]@.port == socket@.port)
                },
                Option::None => forall|j: int|
                    0 <= j < self.scanners@.len() ==> !((#[trigger] self.scanners@[j])@.ip
                        == socket@.ip && self.scanners@[j]@.port == socket@.port),
            },
    {
        let mut i: usize = 0;
        while i < self.scanners.len()
            invariant
                i <= self.scanners@.len(),
                forall|j: int|
                    0 <= j < i ==> !((#[trigger] self.scanners@[j])@.ip == socket@.ip
                        && self.scanners@[j]@.port == socket@.port),
            decreases self.scanners@.len() - i,
        {
            let sc = &self.scanners[i];
            if sc.ip == socket.ip && sc.port == socket.port {
                return Some(i);
            }
            i += 1;
        }
        None
    }

    /// Whether any room still references the location: such a location must
    /// not be removed.
    pub fn is_location_used(&self, location: Uuid) -> (r: bool)
        ensures
            r == exists|i: int|
                0 <= i < self.rooms@.len() && (#[trigger] self.rooms@[i]).location == location,
    {
        let mut i: usize = 0;
        while i < self.rooms.len()
            invariant
                i <= self.rooms@.len(),
                forall|j: int| 0 <= j < i ==> (#[trigger] self.rooms@[j]).location != location,
            decreases self.rooms@.len() - i,
        {
            if self.rooms[i].location == location {
                return true;
            }
            i += 1;
        }
        false
    }

    /// The contacts of a group: members of the first group with the given
    /// key, in registry order; empty when the group is unknown.
    pub fn get_contacts_by_group(&self, group: Uuid) -> (r: Vec<Contact>)
        ensures
            ({
                let gs = self.contact_group@;
                let gi = uuid_index(ids_of(gs), group);
                if gi == -1 {
                    r@.len() == 0
                } else {
                    r.deep_view() == spec_group_contacts(
                        self.contacts.deep_view(),
                        gs[gi].contacts@,
                    )
                }
            }),
    {
        proof {
            lemma_uuid_index(ids_of(self.contact_group@), group);
        }
        let found = find_by_uuid(&self.contact_group, group);
        match found {
            Option::None => Vec::new(),
            Option::Some(gi) => {
                let members = &self.contact_group[gi].contacts;
                let mut r: Vec<Contact> = Vec::new();
                let mut i: usize = 0;
                while i < self.contacts.len()
                    invariant
                        i <= self.contacts@.len(),
                        r.deep_view() == spec_group_contacts(
                            self.contacts.deep_view().subrange(0, i as int),
                            members@,
                        ),
                    decreases self.contacts@.len() - i,
                {
                    let ghost pre = self.contacts.deep_view().subrange(0, i as int + 1);
                    proof {
                        assert(pre.drop_last() =~= self.contacts.deep_view().subrange(0, i as int));
                        assert(pre.last() == self.contacts@[i as int].deep_view());
                    }
                    if contains_uuid(members, self.contacts[i].uuid) {
                        let ghost prev_deep = r.deep_view();
                        r.push(self.contacts[i].clone());
                        proof {
                            assert(r.deep_view() =~= prev_deep.push(
                                self.contacts@[i as int].deep_view(),
                            ));
                        }
                    }
                    i += 1;
                }
                proof {
                    assert(self.contacts.deep_view().subrange(
                        0,
                        self.contacts@.len() as int,
                    ) =~= self.contacts.deep_view());
                }
                r
            },
        }
    }
}

/// Whether two events fall on the same deduplication key.
pub open spec fn same_event_key(a: Event, b: Event) -> bool {
    a.scanner == b.scanner && a.device == b.device && a.kind == b.kind
}

/// The whole server state: configuration, registries, accounts, the event
/// log and the activity tracker.
pub struct Database {
    pub config: config::Server,
    pub data: Data,
    pub auth: Auth,
    pub events: Vec<Event>,
    pub activities: Activities,
    pub version: String,
}

impl Database {
    /// The event log holds at most one event per (scanner, device, kind).
    pub open spec fn events_wf(&self) -> bool {
        forall|i: int, j: int|
            0 <= i < j < self.events@.len() ==> !same_event_key(
                #[trigger] self.events@[i],
                #[trigger] self.events@[j],
            )
    }

    /// First logged event on the same deduplication key.
    fn find_event_like(&self, event: &Event) -> (r: Option<usize>)
        ensures
            match r {
                Option::Some(i) => {
                    &&& 0 <= i < self.events@.len()
                    &&& same_event_key(self.events@[i as int], *event)
                    &&& forall|j: int|
                        0 <= j < i ==> !same_event_key(#[trigger] self.events@[j], *event)
                },
                Option::None => forall|j: int|
                    0 <= j < self.events@.len() ==> !same_event_key(
                        #[trigger] self.events@[j],
                        *event,
                    ),
            },
    {
        let mut i: usize = 0;
        while i < self.events.len()
            invariant
                i <= self.events@.len(),
                forall|j: int| 0 <= j < i ==> !same_event_key(#[trigger] self.events@[j], *event),
            decreases self.events@.len() - i,
        {
            let e = &self.events[i];
            let device_matches: bool = match (e.device, event.device) {
                (Option::Some(a), Option::Some(b)) => a == b,
                (Option::None, Option::None) => true,
                _ => false,
            };
            if e.scanner == event.scanner && device_matches && e.kind == event.kind {
                return Some(i);
            }
            i += 1;
        }
        None
    }

    /// Records a semantic event. A repeat occurrence of the same
    /// (scanner, device, kind) refreshes the stored event's timestamp in
    /// place; a first occurrence is appended. Returns the event as stored,
    /// for publishing.
    pub fn record(&mut self, event: Event) -> (r: Event)
        requires
            old(self).events_wf(),
        ensures
            final(self).events_wf(),
            final(self).data == old(self).data,
            final(self).auth == old(self).auth,
            final(self).activities == old(self).activities,
            final(self).config == old(self).config,
            final(self).version == old(self).version,
            ({
                let es = old(self).events@;
                if exists|i: int| 0 <= i < es.len() && same_event_key(#[trigger] es[i], event) {
                    exists|i: int|
                        {
                            &&& 0 <= i < es.len()
                            &&& same_event_key(#[trigger] es[i], event)
                            &&& final(self).events@ == es.update(
                                i,
                                (Event { timestamp: event.timestamp, ..es[i] }),
                            )
                            &&& r == (Event { timestamp: event.timestamp, ..es[i] })
                        }
                } else {
                    final(self).events@ == es.push(event) && r == event
                }
            }),
    {
        let found = self.find_event_like(&event);
        match found {
            Option::Some(i) => {
                let old_event = self.events[i];
                let updated = Event { timestamp: event.timestamp, ..old_event };
                self.events.set(i, updated);
                proof {
                    assert(same_event_key(updated, old(self).events@[i as int]));
                    assert forall|a: int, b: int|
                        0 <= a < b < self.events@.len() implies !same_event_key(
                        #[trigger] self.events@[a],
                        #[trigger] self.events@[b],
                    ) by {
                        assert(same_event_key(self.events@[a], old(self).events@[a]));
                        assert(same_event_key(self.events@[b], old(self).events@[b]));
                    }
                }
                updated
            },
            Option::None => {
                self.events.push(event);
                proof {
                    assert forall|a: int, b: int|
                        0 <= a < b < self.events@.len() implies !same_event_key(
                        #[trigger] self.events@[a],
                        #[trigger] self.events@[b],
                    ) by {
                        if b < old(self).events@.len() {
                        } else {
                            assert(self.events@[b] == event);
                            assert(!same_event_key(old(self).events@[a], event));
                        }
                    }
                }
                event
            },
        }
    }

    /// Records a backup path, once; the backup file itself is written by the
    /// surrounding application.
    pub fn backup(&mut self, path: String)
        requires
            old(self).data.wf(),
        ensures
            final(self).data.wf(),
            final(self).config == old(self).config,
            final(self).version == old(self).version,
            final(self).auth == old(self).auth,
            final(self).events == old(self).events,
            final(self).activities == old(self).activities,
            final(self).data.scanners == old(self).data.scanners,
            final(self).data.devices == old(self).data.devices,
            final(self).data.locations == old(self).data.locations,
            final(self).data.rooms == old(self).data.rooms,
            final(self).data.alarms == old(self).data.alarms,
            final(self).data.notifications == old(self).data.notifications,
            final(self).data.contacts == old(self).data.contacts,
            final(self).data.contact_group == old(self).data.contact_group,
            ({
                let bs = old(self).data.backups;
                if exists|i: int| 0 <= i < bs@.len() && (#[trigger] bs@[i])@ == path@ {
                    final(self).data.backups@ == bs@
                } else {
                    final(self).data.backups.deep_view() == bs.deep_view().push(path@)
                }
            }),
    {
        let mut i: usize = 0;
        while i < self.data.backups.len()
            invariant
                old(self).data.wf(),
                *self == *old(self),
                i <= self.data.backups@.len(),
                forall|j: int| 0 <= j < i ==> (#[trigger] self.data.backups@[j])@ != path@,
            decreases self.data.backups@.len() - i,
        {
            if self.data.backups[i] == path {
                return ;
            }
            i += 1;
        }
        let ghost bs = self.data.backups@;
        let ghost bsd = self.data.backups.deep_view();
        self.data.backups.push(path);
        proof {
            assert forall|a: int, b: int|
                0 <= a < b < self.data.backups@.len() implies (#[trigger] self.data.backups@[a])@
                != (#[trigger] self.data.backups@[b])@ by {
                if b == bs.len() {
                    assert(self.data.backups@[b]@ == path@);
                }
            }
            assert(self.data.backups.deep_view() =~= bsd.push(path@));
        }
    }

    /// Replaces the domain registries with freshly loaded ones; reading the
    /// backup file is the surrounding application's work.
    pub fn restore(&mut self, data: Data)
        ensures
            final(self).data == data,
            final(self).config == old(self).config,
            final(self).version == old(self).version,
            final(self).auth == old(self).auth,
            final(self).events == old(self).events,
            final(self).activities == old(self).activities,
    {
        self.data = data;
    }
}

} // verus!
