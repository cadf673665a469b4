use vstd::prelude::*;
use vstd::pervasive::VecAdditionalExecFns;

use crate::activity::Activities;
use crate::config::{HostPort, HostPortView};
use crate::database::Database;
use crate::entities::Scanner as ScannerRecord;
use crate::ids::{fresh_uuid, Uuid};
use crate::entities::{Device, DeviceView, Event, EventKind};
use crate::messages::{Effect, ScannerEvent, ScannerMessage, WebMessage};
use crate::parser::{spec_records, Parser};
use crate::util::utf8_to_string;
use crate::util::{concat_str, hex_encode, lemma_uuid_index, uuid_index};

verus! {

// ---------------------------------------------------------------------------
// Scanner identity resolution. The registry scan is the source of truth; a
// fast-path cache maps socket addresses to scanner identities so that the
// hot packet path avoids a full scan.
// ---------------------------------------------------------------------------

/// The keys of the cache, in order.
pub open spec fn cache_ids(inner: Seq<(Uuid, HostPort)>) -> Seq<Uuid> {
    Seq::new(inner.len(), |i: int| inner[i].0)
}

/// Whether two addresses are the same host and port.
pub open spec fn addr_eq(a: HostPortView, b: HostPortView) -> bool {
    a.ip == b.ip && a.port == b.port
}

/// The fast-path cache: socket address to scanner identity, one entry per
/// scanner.
pub struct ScannerMap {
    pub inner: Vec<(Uuid, HostPort)>,
}

impl ScannerMap {
    pub open spec fn entries(&self) -> Seq<(Uuid, HostPortView)> {
        Seq::new(self.inner@.len(), |i: int| (self.inner@[i].0, self.inner@[i].1@))
    }

    /// The address recorded for a scanner, if any.
    pub open spec fn lookup_addr(&self, uuid: Uuid) -> Option<HostPortView> {
        let i = uuid_index(cache_ids(self.inner@), uuid);
        if i == -1 {
            Option::None
        } else {
            Option::Some(self.inner@[i].1@)
        }
    }

    pub fn new() -> (r: ScannerMap)
        ensures
            r.entries().len() == 0,
    {
        ScannerMap { inner: Vec::new() }
    }

    /// The identity recorded for an address: the first entry with that host
    /// and port.
    pub fn get_uuid(&self, addr: &HostPort) -> (r: Option<Uuid>)
        ensures
            match r {
                Option::Some(u) => exists|i: int|
                    {
                        &&& 0 <= i < self.entries().len()
                        &&& (#[trigger] self.entries()[i]).0 == u
                        &&& addr_eq(self.entries()[i].1, addr@)
                        &&& forall|j: int| 0 <= j < i ==> !addr_eq((#[trigger] self.entries()[j]).1, addr@)
                    },
                Option::None => forall|j: int|
                    0 <= j < self.entries().len() ==> !addr_eq((#[trigger] self.entries()[j]).1, addr@),
            },
    {
        let mut i: usize = 0;
        while i < self.inner.len()
            invariant
                i <= self.inner@.len(),
                forall|j: int| 0 <= j < i ==> !addr_eq((#[trigger] self.entries()[j]).1, addr@),
            decreases self.inner@.len() - i,
        {
            let entry = &self.inner[i];
            if entry.1.ip == addr.ip && entry.1.port == addr.port {
                proof {
                    assert(addr_eq(self.entries()[i as int].1, addr@));
                }
                return Some(entry.0);
            }
            proof {
                assert(!addr_eq(self.entries()[i as int].1, addr@));
            }
            i += 1;
        }
        None
    }

    /// The address recorded for an identity.
    pub fn get_addr(&self, uuid: &Uuid) -> (r: Option<HostPort>)
        ensures
            match r {
                Option::Some(a) => self.lookup_addr(*uuid) == Option::Some(a@),
                Option::None => self.lookup_addr(*uuid) is None,
            },
    {
        proof {
            lemma_uuid_index(cache_ids(self.inner@), *uuid);
        }
        let mut i: usize = 0;
        while i < self.inner.len()
            invariant
                i <= self.inner@.len(),
                forall|j: int| 0 <= j < i ==> cache_ids(self.inner@)[j] != *uuid,
            decreases self.inner@.len() - i,
        {
            let entry = &self.inner[i];
            if entry.0 == *uuid {
                proof {
                    lemma_uuid_index(cache_ids(self.inner@), *uuid);
                    assert(cache_ids(self.inner@)[i as int] == *uuid);
                }
                return Some(entry.1.clone());
            }
            proof {
                assert(cache_ids(self.inner@)[i as int] != *uuid);
            }
            i += 1;
        }
        None
    }

    /// Whether the cache holds an entry for the address.
    pub fn has_addr(&self, addr: &HostPort) -> (r: bool)
        ensures
            r == exists|i: int|
                0 <= i < self.entries().len() && addr_eq((#[trigger] self.entries()[i]).1, addr@),
    {
        let found = self.get_uuid(addr);
        found.is_some()
    }

    /// Whether the cache holds an entry for the identity.
    pub fn has_uuid(&self, uuid: &Uuid) -> (r: bool)
        ensures
            r == (self.lookup_addr(*uuid) is Some),
    {
        let found = self.get_addr(uuid);
        found.is_some()
    }

    /// Records that a scanner answers at an address: overwrites the first
    /// entry that carries the same identity or the same address, or appends
    /// a new entry.
    pub fn set(&mut self, uuid: Uuid, addr: HostPort)
        ensures
            ({
                let es = old(self).entries();
                let new_entry = (uuid, addr@);
                if exists|i: int|
                    0 <= i < es.len() && ((#[trigger] es[i]).0 == uuid || addr_eq(es[i].1, addr@)) {
                    exists|i: int|
                        {
                            &&& 0 <= i < es.len()
                            &&& ((#[trigger] es[i]).0 == uuid || addr_eq(es[i].1, addr@))
                            &&& forall|j: int|
                                0 <= j < i ==> !((#[trigger] es[j]).0 == uuid || addr_eq(
                                    es[j].1,
                                    addr@,
                                ))
                            &&& final(self).entries() == es.update(i, new_entry)
                        }
                } else {
                    final(self).entries() == es.push(new_entry)
                }
            }),
            final(self).lookup_addr(uuid) == Option::Some(addr@),
    {
        let ghost es = self.entries();
        let mut i: usize = 0;
        while i < self.inner.len()
            invariant
                *self == *old(self),
                es == self.entries(),
                i <= self.inner@.len(),
                forall|j: int|
                    0 <= j < i ==> !((#[trigger] es[j]).0 == uuid || addr_eq(es[j].1, addr@)),
            decreases self.inner@.len() - i,
        {
            let hit: bool = {
                let entry = &self.inner[i];
                entry.0 == uuid || (entry.1.ip == addr.ip && entry.1.port == addr.port)
            };
            if hit {
                proof {
                    assert((es[i as int].0 == uuid || addr_eq(es[i as int].1, addr@)));
                }
                self.inner.set(i, (uuid, addr));
                proof {
                    assert(self.entries() =~= es.update(i as int, (uuid, addr@)));
                    lemma_uuid_index(cache_ids(self.inner@), uuid);
                    assert(cache_ids(self.inner@)[i as int] == uuid);
                    assert(forall|j: int|
                        0 <= j < i ==> #[trigger] cache_ids(self.inner@)[j] == es[j].0);
                    assert(uuid_index(cache_ids(self.inner@), uuid) == i);
                }
                return ;
            }
            proof {
                assert(!(es[i as int].0 == uuid || addr_eq(es[i as int].1, addr@)));
            }
            i += 1;
        }
        self.inner.push((uuid, addr));
        proof {
            assert(self.entries() =~= es.push((uuid, addr@)));
            lemma_uuid_index(cache_ids(self.inner@), uuid);
            assert(cache_ids(self.inner@)[es.len() as int] == uuid);
            assert(forall|j: int|
                0 <= j < es.len() ==> #[trigger] cache_ids(self.inner@)[j] == es[j].0);
            assert(uuid_index(cache_ids(self.inner@), uuid) == es.len());
        }
    }
}


// ---------------------------------------------------------------------------
// Protocol dispatch.
// ---------------------------------------------------------------------------

/// Where an outbound scanner message must go.
#[derive(Debug)]
pub enum SendTarget {
    /// The resolved address of the targeted scanner.
    Address(HostPort),
    /// No specific scanner: the broadcast address.
    Broadcast,
    /// The targeted scanner has no known address; nothing can be sent.
    Unknown,
}

/// The scanner-facing side of the server: the fast-path cache plus the
/// dispatch logic over the shared database.
pub struct Scanner {
    pub scanners: ScannerMap,
}

impl Scanner {
    pub fn new() -> (r: Scanner)
        ensures
            r.scanners.entries().len() == 0,
    {
        Scanner { scanners: ScannerMap::new() }
    }

    /// Resolves the target of an outbound message: the recorded address of
    /// the targeted scanner, the broadcast address when no scanner is named,
    /// or nothing when the scanner is unknown.
    pub fn send(&self, event: &ScannerEvent) -> (r: SendTarget)
        ensures
            match event.scanner {
                Option::Some(u) => match self.scanners.lookup_addr(u) {
                    Option::Some(a) => r matches SendTarget::Address(hp) && hp@ == a,
                    Option::None => r is Unknown,
                },
                Option::None => r is Broadcast,
            },
    {
        match &event.scanner {
            Option::Some(u) => {
                match self.scanners.get_addr(u) {
                    Option::Some(addr) => SendTarget::Address(addr),
                    Option::None => SendTarget::Unknown,
                }
            },
            Option::None => SendTarget::Broadcast,
        }
    }

    /// Resolves an inbound packet to a scanner identity. A registration is
    /// matched by hardware address: a known scanner gets its address and
    /// last-activity refreshed, an unknown one is created with a fresh
    /// identity and default actuator state. Any other message is matched by
    /// source address, through the cache with the registry scan as
    /// fallback, and refreshes last-activity. In every resolved case the
    /// cache is updated and the message is attributed to the scanner;
    /// an unresolved non-registration yields nothing and changes nothing.
    pub fn get_event(
        &mut self,
        db: &mut Database,
        socket: &HostPort,
        msg: ScannerMessage,
        now: u64,
    ) -> (r: Option<ScannerEvent>)
        requires
            old(db).data.wf(),
        ensures
            final(db).data.wf(),
            final(db).config == old(db).config,
            final(db).version == old(db).version,
            final(db).auth == old(db).auth,
            final(db).events == old(db).events,
            final(db).activities == old(db).activities,
            final(db).data.devices == old(db).data.devices,
            final(db).data.locations == old(db).data.locations,
            final(db).data.rooms == old(db).data.rooms,
            final(db).data.alarms == old(db).data.alarms,
            final(db).data.notifications == old(db).data.notifications,
            final(db).data.contacts == old(db).data.contacts,
            final(db).data.contact_group == old(db).data.contact_group,
            final(db).data.backups == old(db).data.backups,
            ({
                let ss = old(db).data.scanners;
                match msg@.content {
                    crate::messages::ScannerContentView::Register { mac } => {
                        if exists|i: int| 0 <= i < ss@.len() && (#[trigger] ss@[i])@.mac == mac {
                            exists|i: int|
                                {
                                    &&& 0 <= i < ss@.len()
                                    &&& (#[trigger] ss@[i])@.mac == mac
                                    &&& final(db).data.scanners@.len() == ss@.len()
                                    &&& final(db).data.scanners@[i]@ == (crate::entities::ScannerView {
                                        ip: socket@.ip,
                                        port: socket@.port,
                                        last_activity: now,
                                        ..ss@[i]@
                                    })
                                    &&& forall|j: int|
                                        0 <= j < ss@.len() && j != i
                                            ==> (#[trigger] final(db).data.scanners@[j])@ == ss@[j]@
                                    &&& r matches Option::Some(ev) && ev.scanner == Option::Some(
                                        ss@[i]@.uuid,
                                    ) && ev.message@ == msg@
                                    &&& final(self).scanners.lookup_addr(ss@[i]@.uuid)
                                        == Option::Some(socket@)
                                }
                        } else {
                            &&& final(db).data.scanners@.len() == ss@.len() + 1
                            &&& forall|j: int|
                                0 <= j < ss@.len()
                                    ==> (#[trigger] final(db).data.scanners@[j]) == ss@[j]
                            &&& ({
                                let nv = final(db).data.scanners@[ss@.len() as int]@;
                                &&& nv.mac == mac
                                &&& nv.ip == socket@.ip
                                &&& nv.port == socket@.port
                                &&& nv.room is None
                                &&& nv.name == "Scanner: "@ + crate::util::hex_chars_of(mac)
                                &&& nv.last_activity == now
                                &&& !nv.led
                                &&& !nv.buzzer
                                &&& !nv.scan
                                &&& r matches Option::Some(ev) && ev.scanner == Option::Some(
                                    nv.uuid,
                                ) && ev.message@ == msg@
                                &&& final(self).scanners.lookup_addr(nv.uuid) == Option::Some(
                                    socket@,
                                )
                            })
                        }
                    },
                    _ => {
                        match r {
                            Option::Some(ev) => exists|i: int|
                                {
                                    &&& 0 <= i < ss@.len()
                                    &&& final(db).data.scanners@.len() == ss@.len()
                                    &&& (#[trigger] final(db).data.scanners@[i])@
                                        == (crate::entities::ScannerView {
                                        last_activity: now,
                                        ..ss@[i]@
                                    })
                                    &&& forall|j: int|
                                        0 <= j < ss@.len() && j != i
                                            ==> (#[trigger] final(db).data.scanners@[j])@ == ss@[j]@
                                    &&& ev.scanner == Option::Some(ss@[i]@.uuid)
                                    &&& ev.message@ == msg@
                                    &&& final(self).scanners.lookup_addr(ss@[i]@.uuid)
                                        == Option::Some(socket@)
                                },
                            Option::None => {
                                &&& final(db).data.scanners == ss
                                &&& *final(self) == *old(self)
                                &&& forall|j: int|
                                    0 <= j < ss@.len() ==> !((#[trigger] ss@[j])@.ip == socket@.ip
                                        && ss@[j]@.port == socket@.port)
                            },
                        }
                    },
                }
            }),
    {
        let is_register: bool = match &msg.content {
            crate::messages::ScannerContent::Register { .. } => true,
            _ => false,
        };
        if is_register {
            let mac_copy: Vec<u8> = match &msg.content {
                crate::messages::ScannerContent::Register { mac } => crate::util::copy_vec(mac),
                _ => Vec::new(),
            };
            let found = db.data.find_scanner_by_mac(&mac_copy);
            match found {
                Option::Some(i) => {
                    let mut rec = db.data.scanners[i].clone();
                    let uuid = rec.uuid;
                    rec.ip = socket.ip.clone();
                    rec.port = socket.port;
                    rec.last_activity = now;
                    let ghost oldss = db.data.scanners@;
                    db.data.scanners.set(i, rec);
                    self.scanners.set(uuid, socket.clone());
                    proof {
                        assert forall|a: int, b: int|
                            0 <= a < b < db.data.scanners@.len() implies (
                        #[trigger] db.data.scanners@[a])@.mac != (
                        #[trigger] db.data.scanners@[b])@.mac by {
                            assert(db.data.scanners@[a]@.mac == oldss[a]@.mac);
                            assert(db.data.scanners@[b]@.mac == oldss[b]@.mac);
                        }
                    }
                    Some(ScannerEvent { scanner: Some(uuid), message: msg })
                },
                Option::None => {
                    let uuid = fresh_uuid();
                    let hex = hex_encode(&mac_copy);
                    let name = concat_str("Scanner: ", hex.as_str());
                    let rec = ScannerRecord {
                        uuid,
                        name,
                        ip: socket.ip.clone(),
                        port: socket.port,
                        mac: mac_copy,
                        room: None,
                        last_activity: now,
                        led: false,
                        buzzer: false,
                        scan: false,
                    };
                    let ghost oldss = db.data.scanners@;
                    db.data.scanners.push(rec);
                    self.scanners.set(uuid, socket.clone());
                    proof {
                        assert forall|a: int, b: int|
                            0 <= a < b < db.data.scanners@.len() implies (
                        #[trigger] db.data.scanners@[a])@.mac != (
                        #[trigger] db.data.scanners@[b])@.mac by {
                            if b < oldss.len() {
                                assert(db.data.scanners@[a]@.mac == oldss[a]@.mac);
                                assert(db.data.scanners@[b]@.mac == oldss[b]@.mac);
                            } else {
                                assert(db.data.scanners@[a]@.mac == oldss[a]@.mac);
                                assert(db.data.scanners@[b]@.mac == mac_copy@);
                                assert(oldss[a]@.mac != mac_copy@);
                            }
                        }
                    }
                    Some(ScannerEvent { scanner: Some(uuid), message: msg })
                },
            }
        } else {
            let mut resolved: Option<usize> = None;
            let cached = self.scanners.get_uuid(socket);
            match cached {
                Option::Some(u) => {
                    let by_uuid = crate::util::find_by_uuid(&db.data.scanners, u);
                    proof {
                        crate::util::lemma_uuid_index(
                            crate::util::ids_of(db.data.scanners@),
                            u,
                        );
                    }
                    resolved = by_uuid;
                },
                Option::None => {
                },
            }
            if resolved.is_none() {
                resolved = db.data.find_scanner_by_socket(socket);
            }
            match resolved {
                Option::Some(i) => {
                    let mut rec = db.data.scanners[i].clone();
                    let uuid = rec.uuid;
                    rec.last_activity = now;
                    let ghost oldss = db.data.scanners@;
                    db.data.scanners.set(i, rec);
                    self.scanners.set(uuid, socket.clone());
                    proof {
                        assert forall|a: int, b: int|
                            0 <= a < b < db.data.scanners@.len() implies (
                        #[trigger] db.data.scanners@[a])@.mac != (
                        #[trigger] db.data.scanners@[b])@.mac by {
                            assert(db.data.scanners@[a]@.mac == oldss[a]@.mac);
                            assert(db.data.scanners@[b]@.mac == oldss[b]@.mac);
                        }
                    }
                    let ev = ScannerEvent { scanner: Some(uuid), message: msg };
                    proof {
                        assert(db.data.scanners@[i as int]@ == (crate::entities::ScannerView {
                            last_activity: now,
                            ..oldss[i as int]@
                        }));
                        assert(ev.scanner == Option::Some(oldss[i as int]@.uuid));
                        assert(self.scanners.lookup_addr(oldss[i as int]@.uuid)
                            == Option::Some(socket@));
                        assert(forall|j: int|
                            0 <= j < oldss.len() && j != i ==> (#[trigger] db.data.scanners@[j])@
                                == oldss[j]@);
                    }
                    Some(ev)
                },
                Option::None => None,
            }
        }
    }
}


// ---------------------------------------------------------------------------
// Payload interpretation.
// ---------------------------------------------------------------------------

/// Whether a service-data payload carries the known vendor signature and is
/// long enough to read the battery and button bytes.
pub open spec fn vendor_sig_ok(p: Seq<u8>) -> bool {
    p.len() >= 9 && p[0] == 210 && p[1] == 252
}

/// The event kind encoded by a button code; codes outside the known set
/// yield no event.
pub open spec fn button_kind(code: u8) -> Option<EventKind> {
    if code == 1 {
        Option::Some(EventKind::ButtonPressed)
    } else if code == 2 {
        Option::Some(EventKind::ButtonDoublePressed)
    } else if code == 3 {
        Option::Some(EventKind::ButtonTriplePressed)
    } else if code == 4 {
        Option::Some(EventKind::ButtonLongPressed)
    } else if code == 254 {
        Option::Some(EventKind::ButtonHold)
    } else {
        Option::None
    }
}

fn button_kind_exec(code: u8) -> (r: Option<EventKind>)
    ensures
        r == button_kind(code),
{
    if code == 1 {
        Some(EventKind::ButtonPressed)
    } else if code == 2 {
        Some(EventKind::ButtonDoublePressed)
    } else if code == 3 {
        Some(EventKind::ButtonTriplePressed)
    } else if code == 4 {
        Some(EventKind::ButtonLongPressed)
    } else if code == 254 {
        Some(EventKind::ButtonHold)
    } else {
        None
    }
}

/// One advertisement record applied to the interpretation state: the device
/// as updated so far, whether anything changed, and the button events found.
/// A name record fills a missing device name; a vendor service record
/// refreshes the battery level and, for an enabled device, yields a button
/// event.
pub open spec fn step_record(
    st: (DeviceView, bool, Seq<EventKind>),
    rec: (u8, Seq<u8>),
) -> (DeviceView, bool, Seq<EventKind>) {
    if rec.0 == 8 || rec.0 == 9 {
        if st.0.name is None && vstd::utf8::valid_utf8(rec.1) {
            ((DeviceView { name: Option::Some(vstd::utf8::decode_utf8(rec.1)), ..st.0 }), true, st.2)
        } else {
            st
        }
    } else if rec.0 == 22 {
        if vendor_sig_ok(rec.1) {
            let battery_changed = st.0.battery != Option::Some(rec.1[6]);
            let d2 = if battery_changed {
                DeviceView { battery: Option::Some(rec.1[6]), ..st.0 }
            } else {
                st.0
            };
            let ch2 = st.1 || battery_changed;
            let ev2 = if rec.1[8] > 0 && st.0.enabled {
                match button_kind(rec.1[8]) {
                    Option::Some(k) => st.2.push(k),
                    Option::None => st.2,
                }
            } else {
                st.2
            };
            (d2, ch2, ev2)
        } else {
            st
        }
    } else {
        st
    }
}

/// The interpretation of a whole advertisement: every record applied in
/// order.
pub open spec fn interpret(
    recs: Seq<(u8, Seq<u8>)>,
    st: (DeviceView, bool, Seq<EventKind>),
) -> (DeviceView, bool, Seq<EventKind>)
    decreases recs.len(),
{
    if recs.len() == 0 {
        st
    } else {
        step_record(interpret(recs.drop_last(), st), recs.last())
    }
}

/// The interpretation of an advertisement payload for a stored device.
pub open spec fn interpret_data(data: Seq<u8>, device: DeviceView) -> (DeviceView, bool, Seq<
    EventKind,
>) {
    interpret(spec_records(data, 0), (device, false, Seq::empty()))
}

/// Interpretation never changes a device's identity, address, enablement or
/// last-activity.
pub proof fn lemma_interpret_preserves(
    recs: Seq<(u8, Seq<u8>)>,
    st: (DeviceView, bool, Seq<EventKind>),
)
    ensures
        interpret(recs, st).0.uuid == st.0.uuid,
        interpret(recs, st).0.mac == st.0.mac,
        interpret(recs, st).0.enabled == st.0.enabled,
        interpret(recs, st).0.last_activity == st.0.last_activity,
    decreases recs.len(),
{
    if recs.len() > 0 {
        lemma_interpret_preserves(recs.drop_last(), st);
    }
}

/// Decodes one advertisement for a stored device: fills a missing name,
/// refreshes the battery level, and records one deduplicated event per
/// button code, attributed to the device's current best scanner and
/// published. Returns whether the device record changed.
pub fn process_service(
    db: &mut Database,
    di: usize,
    data: Vec<u8>,
    now: u64,
    effects: &mut Vec<Effect>,
) -> (changed: bool)
    requires
        old(db).data.wf(),
        old(db).events_wf(),
        di < old(db).data.devices@.len(),
    ensures
        final(db).data.wf(),
        final(db).events_wf(),
        final(db).config == old(db).config,
        final(db).version == old(db).version,
        final(db).auth == old(db).auth,
        final(db).activities == old(db).activities,
        final(db).data.scanners == old(db).data.scanners,
        final(db).data.locations == old(db).data.locations,
        final(db).data.rooms == old(db).data.rooms,
        final(db).data.alarms == old(db).data.alarms,
        final(db).data.notifications == old(db).data.notifications,
        final(db).data.contacts == old(db).data.contacts,
        final(db).data.contact_group == old(db).data.contact_group,
        final(db).data.backups == old(db).data.backups,
        ({
            let ds = old(db).data.devices;
            let device_uuid = ds@[di as int]@.uuid;
            let st = interpret_data(data@, ds@[di as int]@);
            let best = crate::activity::best_of(old(db).activities.activities_of(device_uuid));
            &&& final(db).data.devices@.len() == ds@.len()
            &&& final(db).data.devices@[di as int]@ == st.0
            &&& forall|j: int|
                0 <= j < ds@.len() && j != di ==> (#[trigger] final(db).data.devices@[j]) == ds@[j]
            &&& changed == st.1
            &&& (if best is None || st.2.len() == 0 {
                final(db).events == old(db).events && final(effects)@ == old(effects)@
            } else {
                &&& final(effects)@.len() == old(effects)@.len() + st.2.len()
                &&& forall|k: int|
                    0 <= k < old(effects)@.len() ==> (#[trigger] final(effects)@[k]) == old(
                        effects,
                    )@[k]
                &&& forall|k: int|
                    0 <= k < st.2.len() ==> (#[trigger] final(effects)@[old(effects)@.len() + k]
                        matches Effect::Broadcast(m) && m matches WebMessage::Event(e)
                        && e.kind == st.2[k] && e.scanner == best->Some_0.scanner_uuid
                        && e.device == Option::Some(device_uuid) && e.timestamp == now)
            })
        }),
{
    {
        {
            let device_uuid = db.data.devices[di].uuid;
            let ghost ds = db.data.devices@;
            let ghost full = spec_records(data@, 0);
            let ghost st0 = (ds[di as int]@, false, Seq::<EventKind>::empty());
            let mut dev = db.data.devices[di].clone();
            let mut changed = false;
            let mut kinds: Vec<EventKind> = Vec::new();
            let mut parser = Parser::new(data);
            let ghost processed = Seq::<(u8, Seq<u8>)>::empty();
            let mut done = false;
            proof {
                assert(full =~= processed + parser.remaining());
            }
            while !done
                invariant
                    full == processed + parser.remaining(),
                    (dev@, changed, kinds@) == interpret(processed, st0),
                    done ==> parser.remaining().len() == 0,
                    dev@.uuid == st0.0.uuid,
                    dev@.mac == st0.0.mac,
                    dev@.enabled == st0.0.enabled,
                    dev@.last_activity == st0.0.last_activity,
                decreases parser.remaining().len(), (if done { 0int } else { 1int }),
            {
                let ghost pre_remaining = parser.remaining();
                let next = parser.next();
                match next {
                    Option::None => {
                        done = true;
                    },
                    Option::Some(pd) => {
                        let ghost rec = (pd.tag, pd.data@);
                        let ghost prev_st = (dev@, changed, kinds@);
                        proof {
                            assert(pre_remaining[0] == rec);
                            assert(full =~= processed.push(rec) + parser.remaining());
                        }
                        if pd.tag == 8 || pd.tag == 9 {
                            if dev.name.is_none() {
                                match utf8_to_string(pd.data) {
                                    Option::Some(name) => {
                                        dev.name = Some(name);
                                        changed = true;
                                    },
                                    Option::None => {},
                                }
                            }
                        } else if pd.tag == 22 {
                            if pd.data.len() >= 9 && pd.data[0] == 210 && pd.data[1] == 252 {
                                let battery = pd.data[6];
                                let battery_differs: bool = match dev.battery {
                                    Option::Some(b) => b != battery,
                                    Option::None => true,
                                };
                                if battery_differs {
                                    dev.battery = Some(battery);
                                    changed = true;
                                }
                                let code = pd.data[8];
                                if code > 0 && dev.enabled {
                                    match button_kind_exec(code) {
                                        Option::Some(k) => {
                                            kinds.push(k);
                                        },
                                        Option::None => {},
                                    }
                                }
                            }
                        }
                        proof {
                            assert((dev@, changed, kinds@) == step_record(prev_st, rec));
                            let old_processed = processed;
                            processed = processed.push(rec);
                            assert(processed.drop_last() =~= old_processed);
                            assert(processed.last() == rec);
                            assert(interpret(processed, st0) == step_record(
                                interpret(old_processed, st0),
                                rec,
                            ));
                        }
                    },
                }
            }
            proof {
                assert(processed =~= full);
            }
            let ghost st = interpret_data(data@, ds[di as int]@);
            db.data.devices.set(di, dev);
            proof {
                assert(db.data.devices@[di as int]@ == st.0);
                assert forall|a: int, b: int|
                    0 <= a < b < db.data.devices@.len() implies (
                #[trigger] db.data.devices@[a])@.mac != (#[trigger] db.data.devices@[b])@.mac by {
                    assert(db.data.devices@[a]@.mac == ds[a]@.mac);
                    assert(db.data.devices@[b]@.mac == ds[b]@.mac);
                }
            }
            let best = db.activities.best(device_uuid);
            match best {
                Option::None => {},
                Option::Some(b) => {
                    let ghost base_effects = effects@;
                    let ghost base_kinds = kinds@;
                    let mut k: usize = 0;
                    while k < kinds.len()
                        invariant
                            k <= kinds@.len(),
                            kinds@ == base_kinds,
                            0 <= di < ds.len(),
                            kinds@.len() == 0 ==> db.events == old(db).events,
                            db.events_wf(),
                            db.data.wf(),
                            db.config == old(db).config,
                            db.version == old(db).version,
                            db.auth == old(db).auth,
                            db.activities == old(db).activities,
                            db.data == final_data_frame(old(db).data, db.data.devices),
                            db.data.devices@.len() == ds.len(),
                            db.data.devices@[di as int]@ == st.0,
                            forall|j: int|
                                0 <= j < ds.len() && j != di ==> (
                                #[trigger] db.data.devices@[j]) == ds[j],
                            effects@.len() == base_effects.len() + k,
                            forall|j: int|
                                0 <= j < base_effects.len() ==> (#[trigger] effects@[j])
                                    == base_effects[j],
                            forall|j: int|
                                0 <= j < k ==> (#[trigger] effects@[base_effects.len() + j]
                                    matches Effect::Broadcast(m) && m matches WebMessage::Event(e)
                                    && e.kind == base_kinds[j] && e.scanner == b.scanner_uuid
                                    && e.device == Option::Some(device_uuid) && e.timestamp == now),
                        decreases kinds@.len() - k,
                    {
                        let kind = kinds[k];
                        let evt = Event {
                            uuid: fresh_uuid(),
                            timestamp: now,
                            scanner: b.scanner_uuid,
                            device: Some(device_uuid),
                            kind,
                        };
                        let stored = db.record(evt);
                        effects.push(Effect::Broadcast(WebMessage::Event(stored)));
                        k += 1;
                    }
                },
            }
            changed
        }
    }
}

/// A copy of the registries with only the device table replaced; used to
/// frame what the event-recording loop may touch.
pub open spec fn final_data_frame(
    base: crate::database::Data,
    devices: Vec<Device>,
) -> crate::database::Data {
    crate::database::Data { devices, ..base }
}


// ---------------------------------------------------------------------------
// Packet dispatch.
// ---------------------------------------------------------------------------

/// The observation-recording result, as `Activities::push` defines it: true
/// on a first observation, a best-scanner change, or a best-timestamp jump
/// of more than one second.
pub open spec fn push_result(a_old: Activities, a_new: Activities, du: Uuid) -> bool {
    match (
        crate::activity::best_of(a_old.activities_of(du)),
        crate::activity::best_of(a_new.activities_of(du)),
    ) {
        (Option::Some(b1), Option::Some(b2)) => b1.scanner_uuid != b2.scanner_uuid
            || crate::util::spec_elapsed_secs(b2.timestamp, b1.timestamp) > 1,
        _ => true,
    }
}

/// The observation upsert, as `Activities::push` performs it.
pub open spec fn push_applied(
    a_old: Activities,
    a_new: Activities,
    du: Uuid,
    su: Uuid,
    ts: u64,
    rssi: i64,
) -> bool {
    let oldacts = a_old.activities_of(du);
    let newacts = a_new.activities_of(du);
    let entry = crate::entities::DeviceActivity { scanner_uuid: su, timestamp: ts, irssi: rssi };
    &&& (if exists|k: int|
        0 <= k < oldacts.len() && (#[trigger] oldacts[k]).scanner_uuid == su {
        exists|k: int|
            {
                &&& 0 <= k < oldacts.len()
                &&& (#[trigger] oldacts[k]).scanner_uuid == su
                &&& newacts == oldacts.update(k, entry)
            }
    } else {
        newacts == oldacts.push(entry)
    })
    &&& forall|d: Uuid| d != du ==> #[trigger] a_new.activities_of(d) == a_old.activities_of(d)
}

/// The tail of a handled scan result: the interpretation outcome applied to
/// the tracker, and the produced effect list. `st` is the interpretation of
/// the advertisement for the device, `du` the device, `su` the reporting
/// scanner.
pub open spec fn scan_tail_ok(
    a_old: Activities,
    a_new: Activities,
    du: Uuid,
    su: Uuid,
    result: crate::messages::ScanDeviceView,
    now: u64,
    st: (DeviceView, bool, Seq<EventKind>),
    created: bool,
    effects: Seq<Effect>,
) -> bool {
    let enabled = st.0.enabled;
    let best0 = crate::activity::best_of(a_old.activities_of(du));
    let n_events: int = if best0 is None { 0 } else { st.2.len() as int };
    let detail = created || st.1;
    let pushed = if enabled {
        push_result(a_old, a_new, du)
    } else {
        false
    };
    &&& (if enabled {
        push_applied(a_old, a_new, du, su, now, result.rssi as i64)
    } else {
        a_new == a_old
    })
    &&& effects.len() == n_events + (if detail { 1int } else { 0 }) + (if enabled && pushed {
        1int
    } else {
        0
    })
    &&& forall|k: int|
        0 <= k < n_events ==> (#[trigger] effects[k] matches Effect::Broadcast(m)
            && m matches WebMessage::Event(e) && e.device == Option::Some(du) && e.timestamp == now
            && e.scanner == best0->Some_0.scanner_uuid && e.kind == st.2[k])
    &&& (detail ==> (effects[n_events] matches Effect::Broadcast(m)
        && m matches WebMessage::DeviceDetail(d) && d@ == st.0))
    &&& ((enabled && pushed) ==> (effects[effects.len() - 1] matches Effect::Broadcast(m)
        && m matches WebMessage::Activity(a) && a.device == du && a.scanner == su && a.rssi
        == result.rssi as i64 && a.timestamp == now))
}

/// The record a freshly sighted device starts from.
pub open spec fn new_device_base(du: Uuid, mac: Seq<u8>, now: u64) -> DeviceView {
    DeviceView {
        uuid: du,
        name: Option::None,
        mac,
        enabled: false,
        battery: Option::None,
        last_activity: now,
    }
}

/// The device-and-tracker half of a handled scan result: the device is
/// resolved by hardware address or created, the advertisement interpreted,
/// and the effects produced.
pub open spec fn scan_device_part(
    ds: Seq<Device>,
    ds_new: Seq<Device>,
    a_old: Activities,
    a_new: Activities,
    su: Uuid,
    result: crate::messages::ScanDeviceView,
    now: u64,
    effects: Seq<Effect>,
) -> bool {
    if exists|i: int| 0 <= i < ds.len() && (#[trigger] ds[i])@.mac == result.mac {
        exists|di: int|
            {
                &&& 0 <= di < ds.len()
                &&& (#[trigger] ds[di])@.mac == result.mac
                &&& forall|j: int| 0 <= j < di ==> (#[trigger] ds[j])@.mac != result.mac
                &&& ({
                    let base = DeviceView { last_activity: now, ..ds[di]@ };
                    let st = interpret_data(result.data, base);
                    &&& ds_new.len() == ds.len()
                    &&& ds_new[di]@ == st.0
                    &&& forall|j: int|
                        0 <= j < ds.len() && j != di ==> (#[trigger] ds_new[j]) == ds[j]
                    &&& scan_tail_ok(a_old, a_new, base.uuid, su, result, now, st, false, effects)
                })
            }
    } else {
        exists|du: Uuid|
            #![trigger new_device_base(du, result.mac, now)]
            {
                let st = interpret_data(result.data, new_device_base(du, result.mac, now));
                &&& ds_new.len() == ds.len() + 1
                &&& forall|j: int| 0 <= j < ds.len() ==> (#[trigger] ds_new[j]) == ds[j]
                &&& ds_new[ds.len() as int]@ == st.0
                &&& scan_tail_ok(a_old, a_new, du, su, result, now, st, true, effects)
            }
    }
}

/// A handled scan result: the reporting scanner's last-activity refreshed,
/// and the device half applied.
pub open spec fn scan_handled(
    o: Database,
    n: Database,
    result: crate::messages::ScanDeviceView,
    now: u64,
    effects: Seq<Effect>,
) -> bool {
    exists|si: int|
        {
            &&& 0 <= si < o.data.scanners@.len()
            &&& n.data.scanners@.len() == o.data.scanners@.len()
            &&& (#[trigger] n.data.scanners@[si])@ == (crate::entities::ScannerView {
                last_activity: now,
                ..o.data.scanners@[si]@
            })
            &&& forall|j: int|
                0 <= j < o.data.scanners@.len() && j != si ==> (#[trigger] n.data.scanners@[j])@
                    == o.data.scanners@[j]@
            &&& scan_device_part(
                o.data.devices@,
                n.data.devices@,
                o.activities,
                n.activities,
                o.data.scanners@[si]@.uuid,
                result,
                now,
                effects,
            )
        }
}

impl Scanner {
    /// Handles one inbound datagram: resolves the sender, applies a
    /// registration or a scan result to the registries, the tracker and the
    /// event log, and returns the messages to publish and send. A packet
    /// from an unresolved sender that is not a registration is dropped.
    #[verifier::rlimit(100)]
    pub fn process_socket(
        &mut self,
        db: &mut Database,
        socket: &HostPort,
        msg: ScannerMessage,
        now: u64,
    ) -> (effects: Vec<Effect>)
        requires
            old(db).data.wf(),
            old(db).events_wf(),
            old(db).activities.wf(),
        ensures
            final(db).data.wf(),
            final(db).events_wf(),
            final(db).activities.wf(),
            final(db).config == old(db).config,
            final(db).version == old(db).version,
            final(db).auth == old(db).auth,
            final(db).data.locations == old(db).data.locations,
            final(db).data.rooms == old(db).data.rooms,
            final(db).data.alarms == old(db).data.alarms,
            final(db).data.notifications == old(db).data.notifications,
            final(db).data.contacts == old(db).data.contacts,
            final(db).data.contact_group == old(db).data.contact_group,
            final(db).data.backups == old(db).data.backups,
            ({
                match msg@.content {
                    crate::messages::ScannerContentView::Register { mac } => {
                        &&& final(db).data.devices == old(db).data.devices
                        &&& final(db).events == old(db).events
                        &&& final(db).activities == old(db).activities
                        &&& (if exists|i: int|
                            0 <= i < old(db).data.scanners@.len() && (
                            #[trigger] old(db).data.scanners@[i])@.mac == mac {
                            final(db).data.scanners@.len() == old(db).data.scanners@.len()
                        } else {
                            final(db).data.scanners@.len() == old(db).data.scanners@.len() + 1
                        })
                        &&& exists|i: int|
                            {
                                &&& 0 <= i < final(db).data.scanners@.len()
                                &&& (#[trigger] final(db).data.scanners@[i])@.mac == mac
                                &&& final(db).data.scanners@[i]@.ip == socket@.ip
                                &&& final(db).data.scanners@[i]@.port == socket@.port
                                &&& final(db).data.scanners@[i]@.last_activity == now
                                &&& effects@.len() == 2
                                &&& (effects@[0] matches Effect::Broadcast(m0)
                                    && m0 matches WebMessage::ScannerDetail(sc)
                                    && sc@ == final(db).data.scanners@[i]@)
                                &&& (effects@[1] matches Effect::ToScanner(ev) && ev.scanner
                                    == Option::Some(final(db).data.scanners@[i]@.uuid)
                                    && (ev.message.content matches crate::messages::ScannerContent::SetState(st)
                                    && st.scan == Option::Some(final(db).data.scanners@[i]@.scan)
                                    && st.led == Option::Some(final(db).data.scanners@[i]@.led)
                                    && st.buzzer == Option::Some(
                                    final(db).data.scanners@[i]@.buzzer,
                                )))
                            }
                    },
                    crate::messages::ScannerContentView::ScanResult(result) => {
                        ||| {
                            &&& *final(db) == *old(db)
                            &&& *final(self) == *old(self)
                            &&& effects@.len() == 0
                        }
                        ||| scan_handled(*old(db), *final(db), result, now, effects@)
                    },
                    _ => {
                        &&& final(db).data.devices == old(db).data.devices
                        &&& final(db).events == old(db).events
                        &&& final(db).activities == old(db).activities
                        &&& effects@.len() == 0
                        &&& {
                            ||| final(db).data.scanners == old(db).data.scanners
                            ||| exists|i: int|
                                {
                                    &&& 0 <= i < old(db).data.scanners@.len()
                                    &&& final(db).data.scanners@.len() == old(
                                        db,
                                    ).data.scanners@.len()
                                    &&& (#[trigger] final(db).data.scanners@[i])@
                                        == (crate::entities::ScannerView {
                                        last_activity: now,
                                        ..old(db).data.scanners@[i]@
                                    })
                                    &&& forall|j: int|
                                        0 <= j < old(db).data.scanners@.len() && j != i
                                            ==> (#[trigger] final(db).data.scanners@[j])@ == old(
                                            db,
                                        ).data.scanners@[j]@
                                }
                        }
                    },
                }
            }),
    {
        let mut effects: Vec<Effect> = Vec::new();
        let ghost db0 = *db;
        let event = self.get_event(db, socket, msg, now);
        match event {
            Option::None => {
                proof {
                    match msg@.content {
                        crate::messages::ScannerContentView::Register { mac } => {
                            assert(false);
                        },
                        _ => {},
                    }
                }
                effects
            },
            Option::Some(ev) => {
                let is_register: bool = match &ev.message.content {
                    crate::messages::ScannerContent::Register { .. } => true,
                    _ => false,
                };
                if is_register {
                    let mac_copy: Vec<u8> = match &ev.message.content {
                        crate::messages::ScannerContent::Register { mac } => crate::util::copy_vec(
                            mac,
                        ),
                        _ => Vec::new(),
                    };
                    let si = db.data.find_scanner_by_mac(&mac_copy);
                    match si {
                        Option::Some(i) => {
                            let sc = db.data.scanners[i].clone();
                            let state = crate::messages::State {
                                scan: Some(sc.scan),
                                led: Some(sc.led),
                                buzzer: Some(sc.buzzer),
                            };
                            let target = sc.uuid;
                            effects.push(Effect::Broadcast(WebMessage::ScannerDetail(sc)));
                            effects.push(
                                Effect::ToScanner(
                                    ScannerEvent {
                                        scanner: Some(target),
                                        message: ScannerMessage {
                                            uuid: fresh_uuid(),
                                            content: crate::messages::ScannerContent::SetState(
                                                state,
                                            ),
                                        },
                                    },
                                ),
                            );
                            effects
                        },
                        Option::None => {
                            proof {
                                assert(false);
                            }
                            effects
                        },
                    }
                } else {
                    let scanner_uuid: Uuid = match &ev.scanner {
                        Option::Some(u) => *u,
                        Option::None => {
                            proof {
                                assert(false);
                            }
                            Uuid { value: 0 }
                        },
                    };
                    match ev.message.content {
                        crate::messages::ScannerContent::ScanResult(result) => {
                            let effects = handle_scan_result(db, scanner_uuid, result, now);
                            effects
                        },
                        _ => effects,
                    }
                }
            },
        }
    }
}


/// Applies one scan result for an already resolved scanner: resolves or
/// creates the device, interprets the advertisement, records events, feeds
/// the activity tracker, and produces the effects, in the order events,
/// device detail, activity.
fn handle_scan_result(
    db: &mut Database,
    scanner_uuid: Uuid,
    result: crate::messages::ScanDevice,
    now: u64,
) -> (effects: Vec<Effect>)
    requires
        old(db).data.wf(),
        old(db).events_wf(),
        old(db).activities.wf(),
    ensures
        final(db).data.wf(),
        final(db).events_wf(),
        final(db).activities.wf(),
        final(db).config == old(db).config,
        final(db).version == old(db).version,
        final(db).auth == old(db).auth,
        final(db).data.scanners == old(db).data.scanners,
        final(db).data.locations == old(db).data.locations,
        final(db).data.rooms == old(db).data.rooms,
        final(db).data.alarms == old(db).data.alarms,
        final(db).data.notifications == old(db).data.notifications,
        final(db).data.contacts == old(db).data.contacts,
        final(db).data.contact_group == old(db).data.contact_group,
        final(db).data.backups == old(db).data.backups,
        scan_device_part(
            old(db).data.devices@,
            final(db).data.devices@,
            old(db).activities,
            final(db).activities,
            scanner_uuid,
            result@,
            now,
            effects@,
        ),
{
    let ghost ds0 = db.data.devices@;
    let ghost a0 = db.activities;
    let ghost resultv = result@;
    let mut effects: Vec<Effect> = Vec::new();
    let di_found = db.data.find_device_by_mac(&result.mac);
    let (di, created): (usize, bool) = match di_found {
        Option::Some(i) => {
            let mut rec = db.data.devices[i].clone();
            rec.last_activity = now;
            let ghost dsold = db.data.devices@;
            db.data.devices.set(i, rec);
            proof {
                assert forall|a: int, b: int|
                    0 <= a < b < db.data.devices@.len() implies (
                #[trigger] db.data.devices@[a])@.mac != (#[trigger] db.data.devices@[b])@.mac by {
                    assert(db.data.devices@[a]@.mac == dsold[a]@.mac);
                    assert(db.data.devices@[b]@.mac == dsold[b]@.mac);
                }
            }
            (i, false)
        },
        Option::None => {
            let du = fresh_uuid();
            let rec = Device {
                uuid: du,
                name: None,
                mac: crate::util::copy_vec(&result.mac),
                enabled: false,
                battery: None,
                last_activity: now,
            };
            let ghost dsold = db.data.devices@;
            let idx = db.data.devices.len();
            db.data.devices.push(rec);
            proof {
                assert forall|a: int, b: int|
                    0 <= a < b < db.data.devices@.len() implies (
                #[trigger] db.data.devices@[a])@.mac != (#[trigger] db.data.devices@[b])@.mac by {
                    if b < dsold.len() {
                        assert(db.data.devices@[a]@.mac == dsold[a]@.mac);
                        assert(db.data.devices@[b]@.mac == dsold[b]@.mac);
                    } else {
                        assert(db.data.devices@[a]@.mac == dsold[a]@.mac);
                        assert(db.data.devices@[b]@.mac == result.mac@);
                        assert(dsold[a]@.mac != result.mac@);
                    }
                }
            }
            (idx, true)
        },
    };
    let ghost base = db.data.devices@[di as int]@;
    let ghost st = interpret_data(resultv.data, base);
    proof {
        lemma_interpret_preserves(spec_records(resultv.data, 0), (base, false, Seq::empty()));
        if created {
            assert(base == new_device_base(base.uuid, resultv.mac, now));
        } else {
            assert(base == (DeviceView { last_activity: now, ..ds0[di as int]@ }));
        }
    }
    let du = db.data.devices[di].uuid;
    let enabled0 = db.data.devices[di].enabled;
    let changed = process_service(db, di, result.data, now, &mut effects);
    let ghost n_ev = effects@.len() as int;
    let ghost effects_after_service = effects@;
    proof {
        assert(db.data.devices@[di as int]@ == st.0);
        assert(enabled0 == st.0.enabled);
        assert(changed == st.1);
        assert(du == base.uuid);
        let best0 = crate::activity::best_of(a0.activities_of(du));
        if best0 is None || st.2.len() == 0 {
            assert(n_ev == 0);
        } else {
            assert(n_ev == st.2.len());
        }
    }
    if created || changed {
        let d = db.data.devices[di].clone();
        effects.push(Effect::Broadcast(WebMessage::DeviceDetail(d)));
    }
    let ghost effects_before_push = effects@;
    let mut pushed = false;
    if enabled0 {
        pushed = db.activities.push(du, scanner_uuid, now, result.rssi as i64);
        if pushed {
            effects.push(
                Effect::Broadcast(
                    WebMessage::Activity(
                        crate::messages::Activity {
                            device: du,
                            scanner: scanner_uuid,
                            rssi: result.rssi as i64,
                            timestamp: now,
                        },
                    ),
                ),
            );
        }
    }
    proof {
        let best0 = crate::activity::best_of(a0.activities_of(du));
        let n_events: int = if best0 is None { 0 } else { st.2.len() as int };
        assert(n_ev == n_events);
        if enabled0 {
            assert(push_applied(a0, db.activities, du, scanner_uuid, now, resultv.rssi as i64));
            assert(pushed == push_result(a0, db.activities, du));
        } else {
            assert(db.activities == a0);
        }
        let detail = created || st.1;
        let pushed_spec = if st.0.enabled {
            push_result(a0, db.activities, du)
        } else {
            false
        };
        assert(effects@.len() == n_events + (if detail { 1int } else { 0 }) + (
        if st.0.enabled && pushed_spec {
            1int
        } else {
            0
        }));
        assert forall|k: int|
            0 <= k < n_events implies (#[trigger] effects@[k] matches Effect::Broadcast(m)
                && m matches WebMessage::Event(e) && e.device == Option::Some(du) && e.timestamp
                == now && e.scanner == best0->Some_0.scanner_uuid && e.kind == st.2[k]) by {
            assert(effects_after_service[0 + k] == effects_after_service[k]);
            assert(effects@[k] == effects_after_service[k]);
        }
        if detail {
            assert(effects@[n_events] == effects_before_push[n_events]);
        }
        assert(scan_tail_ok(
            a0,
            db.activities,
            du,
            scanner_uuid,
            resultv,
            now,
            st,
            created,
            effects@,
        ));
        if created {
            assert(base == new_device_base(du, resultv.mac, now));
            assert(forall|i: int| 0 <= i < ds0.len() ==> (#[trigger] ds0[i])@.mac != resultv.mac);
            assert(db.data.devices@.len() == ds0.len() + 1);
            assert(db.data.devices@[ds0.len() as int]@ == st.0);
            assert(scan_device_part(
                ds0,
                db.data.devices@,
                a0,
                db.activities,
                scanner_uuid,
                resultv,
                now,
                effects@,
            ));
        } else {
            assert(ds0[di as int]@.mac == resultv.mac);
            assert(scan_device_part(
                ds0,
                db.data.devices@,
                a0,
                db.activities,
                scanner_uuid,
                resultv,
                now,
                effects@,
            ));
        }
    }
    effects
}

} // verus!
