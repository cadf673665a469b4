use vstd::prelude::*;

use crate::database::Database;
use crate::entities::{Device, DeviceView};
use crate::ids::{fresh_uuid, Uuid};
use crate::messages::{Effect, ScannerContent, ScannerEvent, ScannerMessage, WebMessage};
use crate::util::{elapsed_secs, spec_elapsed_secs};

verus! {

// ---------------------------------------------------------------------------
// The periodic routines of the server loop: the discovery beacon, and the
// eviction of stale, disabled devices together with the tracker's decay.
// ---------------------------------------------------------------------------

/// The discovery beacon: a `Hello` for the broadcast address, so that
/// unregistered or rebooted scanners can register themselves.
pub fn scanner_routine() -> (r: ScannerEvent)
    ensures
        r.scanner is None,
        r.message.content is Hello,
{
    ScannerEvent {
        scanner: None,
        message: ScannerMessage { uuid: fresh_uuid(), content: ScannerContent::Hello },
    }
}

/// Whether a device survives an eviction pass: enabled devices always do,
/// others only while their last activity is recent enough.
pub open spec fn keep_device(d: DeviceView, now: u64, activity_diff: u64) -> bool {
    d.enabled || spec_elapsed_secs(now, d.last_activity) <= activity_diff
}

/// The devices that survive an eviction pass, in order.
pub open spec fn kept_devices(s: Seq<DeviceView>, now: u64, activity_diff: u64) -> Seq<DeviceView>
    decreases s.len(),
{
    if s.len() == 0 {
        Seq::empty()
    } else {
        let rest = kept_devices(s.drop_last(), now, activity_diff);
        if keep_device(s.last(), now, activity_diff) {
            rest.push(s.last())
        } else {
            rest
        }
    }
}

/// The keys of the devices an eviction pass removes, in order.
pub open spec fn evicted_ids(s: Seq<DeviceView>, now: u64, activity_diff: u64) -> Seq<Uuid>
    decreases s.len(),
{
    if s.len() == 0 {
        Seq::empty()
    } else {
        let rest = evicted_ids(s.drop_last(), now, activity_diff);
        if keep_device(s.last(), now, activity_diff) {
            rest
        } else {
            rest.push(s.last().uuid)
        }
    }
}

/// Everything a surviving device list holds was in the original list.
proof fn lemma_kept_devices_member(s: Seq<DeviceView>, now: u64, activity_diff: u64)
    ensures
        forall|i: int|
            0 <= i < kept_devices(s, now, activity_diff).len() ==> s.contains(
                #[trigger] kept_devices(s, now, activity_diff)[i],
            ),
    decreases s.len(),
{
    if s.len() > 0 {
        lemma_kept_devices_member(s.drop_last(), now, activity_diff);
        assert(forall|i: int| 0 <= i < s.len() - 1 ==> #[trigger] s.drop_last()[i] == s[i]);
        assert forall|i: int|
            0 <= i < kept_devices(s, now, activity_diff).len() implies s.contains(
            #[trigger] kept_devices(s, now, activity_diff)[i],
        ) by {
            let k = kept_devices(s, now, activity_diff);
            let rest = kept_devices(s.drop_last(), now, activity_diff);
            if i < rest.len() {
                assert(s.drop_last().contains(rest[i]));
                let w = choose|w: int| 0 <= w < s.drop_last().len() && s.drop_last()[w] == rest[i];
                assert(s[w] == rest[i]);
            } else {
                assert(k[i] == s.last());
                assert(s[s.len() - 1] == s.last());
            }
        }
    }
}

/// An eviction pass keeps the hardware addresses of the surviving devices
/// unique.
proof fn lemma_kept_devices_distinct(s: Seq<DeviceView>, now: u64, activity_diff: u64)
    requires
        forall|a: int, b: int|
            0 <= a < b < s.len() ==> (#[trigger] s[a]).mac != (#[trigger] s[b]).mac,
    ensures
        forall|i: int, j: int|
            0 <= i < j < kept_devices(s, now, activity_diff).len() ==> kept_devices(
                s,
                now,
                activity_diff,
            )[i].mac != kept_devices(s, now, activity_diff)[j].mac,
    decreases s.len(),
{
    if s.len() > 0 {
        assert(forall|i: int| 0 <= i < s.len() - 1 ==> #[trigger] s.drop_last()[i] == s[i]);
        lemma_kept_devices_distinct(s.drop_last(), now, activity_diff);
        lemma_kept_devices_member(s.drop_last(), now, activity_diff);
        let k = kept_devices(s, now, activity_diff);
        let rest = kept_devices(s.drop_last(), now, activity_diff);
        assert forall|i: int, j: int| 0 <= i < j < k.len() implies k[i].mac != k[j].mac by {
            if j < rest.len() {
            } else if keep_device(s.last(), now, activity_diff) && j == rest.len() {
                assert(k[j] == s.last());
                assert(s.drop_last().contains(rest[i]));
                let w = choose|w: int| 0 <= w < s.drop_last().len() && s.drop_last()[w] == rest[i];
                assert(s[w].mac != s[s.len() - 1].mac);
            }
        }
    }
}

/// The periodic eviction: removes every disabled device whose last activity
/// is older than the configured threshold, announcing each removal, and
/// ages the activity tracker by the same threshold.
pub fn web_routine(db: &mut Database, now: u64) -> (effects: Vec<Effect>)
    requires
        old(db).data.wf(),
        old(db).activities.wf(),
    ensures
        final(db).data.wf(),
        final(db).activities.wf(),
        final(db).config == old(db).config,
        final(db).version == old(db).version,
        final(db).auth == old(db).auth,
        final(db).events == old(db).events,
        final(db).data.scanners == old(db).data.scanners,
        final(db).data.locations == old(db).data.locations,
        final(db).data.rooms == old(db).data.rooms,
        final(db).data.alarms == old(db).data.alarms,
        final(db).data.notifications == old(db).data.notifications,
        final(db).data.contacts == old(db).data.contacts,
        final(db).data.contact_group == old(db).data.contact_group,
        final(db).data.backups == old(db).data.backups,
        ({
            let diff = old(db).config.base.activity_diff;
            let ds = old(db).data.devices.deep_view();
            &&& final(db).data.devices.deep_view() == kept_devices(ds, now, diff)
            &&& effects@.len() == evicted_ids(ds, now, diff).len()
            &&& forall|k: int|
                0 <= k < effects@.len() ==> (#[trigger] effects@[k] matches Effect::Broadcast(m)
                    && m matches WebMessage::DeviceRemoved(u) && u == evicted_ids(ds, now, diff)[k])
            &&& crate::activity::map_view(final(db).activities.map@) == crate::activity::kept_map(
                crate::activity::map_view(old(db).activities.map@),
                now,
                diff,
            )
        }),
{
    let diff = db.config.base.activity_diff;
    let ghost ds = db.data.devices.deep_view();
    let mut kept: Vec<Device> = Vec::new();
    let mut effects: Vec<Effect> = Vec::new();
    let mut i: usize = 0;
    while i < db.data.devices.len()
        invariant
            i <= ds.len(),
            db.data.devices.deep_view() == ds,
            ds.len() == db.data.devices@.len(),
            diff == db.config.base.activity_diff,
            kept.deep_view() == kept_devices(ds.subrange(0, i as int), now, diff),
            effects@.len() == evicted_ids(ds.subrange(0, i as int), now, diff).len(),
            forall|k: int|
                0 <= k < effects@.len() ==> (#[trigger] effects@[k] matches Effect::Broadcast(m)
                    && m matches WebMessage::DeviceRemoved(u) && u == evicted_ids(
                    ds.subrange(0, i as int),
                    now,
                    diff,
                )[k]),
        decreases ds.len() - i,
    {
        let d = db.data.devices[i].clone();
        proof {
            assert(ds.subrange(0, i as int + 1).drop_last() =~= ds.subrange(0, i as int));
            assert(ds.subrange(0, i as int + 1).last() == ds[i as int]);
            assert(d@ == ds[i as int]);
        }
        if !d.enabled && elapsed_secs(now, d.last_activity) > diff {
            proof {
                assert(!keep_device(ds[i as int], now, diff));
            }
            effects.push(Effect::Broadcast(WebMessage::DeviceRemoved(d.uuid)));
        } else {
            proof {
                assert(keep_device(ds[i as int], now, diff));
            }
            let ghost prev = kept.deep_view();
            let ghost prev_elems = kept@;
            kept.push(d);
            proof {
                assert forall|t: int|
                    0 <= t < kept.deep_view().len() implies kept.deep_view()[t] == prev.push(
                    ds[i as int],
                )[t] by {
                    if t < prev_elems.len() {
                        assert(kept@[t] == prev_elems[t]);
                    } else {
                        assert(kept@[t] == d);
                    }
                }
                assert(kept.deep_view() =~= prev.push(ds[i as int]));
            }
        }
        i += 1;
    }
    proof {
        assert(ds.subrange(0, ds.len() as int) =~= ds);
        lemma_kept_devices_distinct(ds, now, diff);
    }
    db.data.devices = kept;
    proof {
        assert forall|a: int, b: int|
            0 <= a < b < db.data.devices@.len() implies (#[trigger] db.data.devices@[a])@.mac != (
        #[trigger] db.data.devices@[b])@.mac by {
            assert(db.data.devices@[a]@ == db.data.devices.deep_view()[a]);
            assert(db.data.devices@[b]@ == db.data.devices.deep_view()[b]);
            assert(kept_devices(ds, now, diff)[a].mac != kept_devices(ds, now, diff)[b].mac);
        }
    }
    db.activities.clear(now, diff);
    effects
}

} // verus!
