use vstd::prelude::*;
use vstd::pervasive::VecAdditionalExecFns;

use crate::entities::DeviceActivity;
use crate::ids::Uuid;
use crate::util::{copy_vec, elapsed_secs, spec_elapsed_secs};

verus! {

// ---------------------------------------------------------------------------
// Activity tracker: per device, the most recent observation from each
// scanner, in insertion order. The best scanner for a device is the one with
// the strongest signal, first-seen winning ties.
// ---------------------------------------------------------------------------

/// Per-device observation lists, keyed by device identifier.
pub struct Activities {
    pub map: Vec<(Uuid, Vec<DeviceActivity>)>,
}

/// The strongest observation of a left-to-right fold that replaces the
/// candidate only on a strictly stronger signal: first-seen wins ties.
pub open spec fn best_of(s: Seq<DeviceActivity>) -> Option<DeviceActivity>
    decreases s.len(),
{
    if s.len() == 0 {
        Option::None
    } else {
        match best_of(s.drop_last()) {
            Option::None => Option::Some(s.last()),
            Option::Some(prev) => if prev.irssi < s.last().irssi {
                Option::Some(s.last())
            } else {
                Option::Some(prev)
            },
        }
    }
}

/// First index whose key is the given device, or -1.
pub open spec fn device_index(m: Seq<(Uuid, Vec<DeviceActivity>)>, device: Uuid) -> int
    decreases m.len(),
{
    if m.len() == 0 {
        -1
    } else if m[0].0 == device {
        0
    } else {
        let r = device_index(m.drop_first(), device);
        if r == -1 {
            -1
        } else {
            r + 1
        }
    }
}

pub proof fn lemma_device_index(m: Seq<(Uuid, Vec<DeviceActivity>)>, device: Uuid)
    ensures
        device_index(m, device) == -1 ==> forall|i: int|
            0 <= i < m.len() ==> (#[trigger] m[i]).0 != device,
        device_index(m, device) != -1 ==> {
            &&& 0 <= device_index(m, device) < m.len()
            &&& m[device_index(m, device)].0 == device
            &&& forall|i: int| 0 <= i < device_index(m, device) ==> (#[trigger] m[i]).0 != device
        },
    decreases m.len(),
{
    if m.len() > 0 && m[0].0 != device {
        lemma_device_index(m.drop_first(), device);
        assert(forall|i: int| 0 < i < m.len() ==> #[trigger] m[i] == m.drop_first()[i - 1]);
    }
}

/// Whether a record is young enough to survive an eviction pass.
pub open spec fn keep_activity(a: DeviceActivity, now: u64, activity_diff: u64) -> bool {
    spec_elapsed_secs(now, a.timestamp) < activity_diff
}

/// The observations that survive an eviction pass, in order.
pub open spec fn kept_list(s: Seq<DeviceActivity>, now: u64, activity_diff: u64) -> Seq<
    DeviceActivity,
>
    decreases s.len(),
{
    if s.len() == 0 {
        Seq::empty()
    } else {
        let rest = kept_list(s.drop_last(), now, activity_diff);
        if keep_activity(s.last(), now, activity_diff) {
            rest.push(s.last())
        } else {
            rest
        }
    }
}

/// The per-device lists after an eviction pass, devices left empty removed,
/// order kept.
pub open spec fn kept_map(
    m: Seq<(Uuid, Seq<DeviceActivity>)>,
    now: u64,
    activity_diff: u64,
) -> Seq<(Uuid, Seq<DeviceActivity>)>
    decreases m.len(),
{
    if m.len() == 0 {
        Seq::empty()
    } else {
        let rest = kept_map(m.drop_last(), now, activity_diff);
        let filtered = kept_list(m.last().1, now, activity_diff);
        if filtered.len() > 0 {
            rest.push((m.last().0, filtered))
        } else {
            rest
        }
    }
}

/// The mathematical form of the tracker's table.
pub open spec fn map_view(m: Seq<(Uuid, Vec<DeviceActivity>)>) -> Seq<(Uuid, Seq<DeviceActivity>)> {
    Seq::new(m.len(), |i: int| (m[i].0, m[i].1@))
}

impl Activities {
    /// Device keys are unique, and no device holds two observations from the
    /// same scanner.
    pub open spec fn wf(&self) -> bool {
        &&& forall|i: int, j: int|
            0 <= i < j < self.map@.len() ==> (#[trigger] self.map@[i]).0 != (
            #[trigger] self.map@[j]).0
        &&& forall|k: int, i: int, j: int|
            #![trigger self.map@[k].1@[i], self.map@[k].1@[j]]
            0 <= k < self.map@.len() && 0 <= i < j < self.map@[k].1@.len()
                ==> self.map@[k].1@[i].scanner_uuid != self.map@[k].1@[j].scanner_uuid
    }

    /// The observations stored for a device, empty when it has none.
    pub open spec fn activities_of(&self, device: Uuid) -> Seq<DeviceActivity> {
        let i = device_index(self.map@, device);
        if i == -1 {
            Seq::empty()
        } else {
            self.map@[i].1@
        }
    }

    pub fn new() -> (r: Activities)
        ensures
            r.map@.len() == 0,
            r.wf(),
    {
        Activities { map: Vec::new() }
    }

    /// First position of the device in the table.
    fn find_device(&self, device: Uuid) -> (r: Option<usize>)
        ensures
            match r {
                Option::Some(i) => i == device_index(self.map@, device),
                Option::None => device_index(self.map@, device) == -1,
            },
    {
        proof {
            lemma_device_index(self.map@, device);
        }
        let mut i: usize = 0;
        while i < self.map.len()
            invariant
                i <= self.map@.len(),
                forall|j: int| 0 <= j < i ==> (#[trigger] self.map@[j]).0 != device,
            decreases self.map@.len() - i,
        {
            if self.map[i].0 == device {
                proof {
                    lemma_device_index(self.map@, device);
                    if device_index(self.map@, device) == -1 {
                        assert(self.map@[i as int].0 != device);
                    }
                    assert(device_index(self.map@, device) == i);
                }
                return Some(i);
            }
            i += 1;
        }
        None
    }

    /// First position of a scanner inside one device's list.
    fn find_scanner(list: &Vec<DeviceActivity>, scanner: Uuid) -> (r: Option<usize>)
        ensures
            match r {
                Option::Some(i) => 0 <= i < list@.len() && list@[i as int].scanner_uuid == scanner,
                Option::None => forall|j: int|
                    0 <= j < list@.len() ==> (#[trigger] list@[j]).scanner_uuid != scanner,
            },
    {
        let mut i: usize = 0;
        while i < list.len()
            invariant
                i <= list@.len(),
                forall|j: int| 0 <= j < i ==> (#[trigger] list@[j]).scanner_uuid != scanner,
            decreases list@.len() - i,
        {
            if list[i].scanner_uuid == scanner {
                return Some(i);
            }
            i += 1;
        }
        None
    }

    /// The best observation for a device: the one with the strongest signal,
    /// the earliest-inserted winning ties; nothing when the device has no
    /// observations.
    pub fn best(&self, device_uuid: Uuid) -> (r: Option<DeviceActivity>)
        ensures
            r == best_of(self.activities_of(device_uuid)),
    {
        let entry = self.find_device(device_uuid);
        match entry {
            Option::None => None,
            Option::Some(i) => {
                proof {
                    lemma_device_index(self.map@, device_uuid);
                }
                let list = &self.map[i].1;
                let ghost s = list@;
                let mut acc: Option<DeviceActivity> = None;
                let mut j: usize = 0;
                while j < list.len()
                    invariant
                        j <= s.len(),
                        list@ == s,
                        acc == best_of(s.subrange(0, j as int)),
                    decreases s.len() - j,
                {
                    let item = list[j];
                    let replace: bool = match &acc {
                        Option::None => true,
                        Option::Some(prev) => prev.irssi < item.irssi,
                    };
                    if replace {
                        acc = Some(item);
                    }
                    proof {
                        assert(s.subrange(0, j as int + 1).drop_last() =~= s.subrange(0, j as int));
                        assert(s.subrange(0, j as int + 1).last() == item);
                    }
                    j += 1;
                }
                proof {
                    assert(s.subrange(0, s.len() as int) =~= s);
                }
                acc
            },
        }
    }

    /// Records one observation: overwrites the entry this scanner already
    /// has for the device, or appends a new one. Returns true exactly when
    /// the device had no best scanner before, the best scanner changed, or
    /// the best observation's timestamp jumped by more than one second.
    pub fn push(
        &mut self,
        device_uuid: Uuid,
        scanner_uuid: Uuid,
        timestamp: u64,
        irssi: i64,
    ) -> (r: bool)
        requires
            old(self).wf(),
        ensures
            final(self).wf(),
            ({
                let oldacts = old(self).activities_of(device_uuid);
                let newacts = final(self).activities_of(device_uuid);
                let entry = DeviceActivity { scanner_uuid, timestamp, irssi };
                &&& (if exists|k: int|
                    0 <= k < oldacts.len() && (#[trigger] oldacts[k]).scanner_uuid == scanner_uuid {
                    exists|k: int|
                        {
                            &&& 0 <= k < oldacts.len()
                            &&& (#[trigger] oldacts[k]).scanner_uuid == scanner_uuid
                            &&& newacts == oldacts.update(k, entry)
                        }
                } else {
                    newacts == oldacts.push(entry)
                })
                &&& forall|d: Uuid|
                    d != device_uuid ==> #[trigger] final(self).activities_of(d) == old(
                        self,
                    ).activities_of(d)
                &&& r == match (best_of(oldacts), best_of(newacts)) {
                    (Option::Some(b1), Option::Some(b2)) => b1.scanner_uuid != b2.scanner_uuid
                        || spec_elapsed_secs(b2.timestamp, b1.timestamp) > 1,
                    _ => true,
                }
            }),
    {
        let entry = DeviceActivity { scanner_uuid, timestamp, irssi };
        let best1 = self.best(device_uuid);
        let ghost oldmap = self.map@;
        let ghost oldacts = old(self).activities_of(device_uuid);
        let found = self.find_device(device_uuid);
        proof {
            lemma_device_index(oldmap, device_uuid);
        }
        match found {
            Option::None => {
                let mut list: Vec<DeviceActivity> = Vec::new();
                list.push(entry);
                self.map.push((device_uuid, list));
                proof {
                    lemma_index_of_push(oldmap, device_uuid, list);
                    assert(self.map@[oldmap.len() as int].1@ =~= oldacts.push(entry));
                    assert(self.activities_of(device_uuid) =~= oldacts.push(entry));
                    assert forall|d: Uuid| d != device_uuid implies #[trigger] self
                        .activities_of(d) == old(self).activities_of(d) by {
                        lemma_index_of_push_other(oldmap, device_uuid, list, d);
                        lemma_device_index(oldmap, d);
                        if device_index(oldmap, d) != -1 {
                            assert(self.map@[device_index(oldmap, d)] == oldmap[device_index(
                                oldmap,
                                d,
                            )]);
                        }
                    }
                    assert(forall|k: int|
                        0 <= k < oldacts.len() ==> (#[trigger] oldacts[k]).scanner_uuid
                            != scanner_uuid);
                    assert forall|i2: int, j2: int|
                        0 <= i2 < j2 < self.map@.len() implies (#[trigger] self.map@[i2]).0 != (
                    #[trigger] self.map@[j2]).0 by {
                        if j2 < oldmap.len() {
                            assert(oldmap[i2].0 != oldmap[j2].0);
                        } else {
                            assert(self.map@[j2].0 == device_uuid);
                            assert(oldmap[i2].0 != device_uuid);
                        }
                    }
                    assert forall|k: int, a: int, b: int|
                        #![trigger self.map@[k].1@[a], self.map@[k].1@[b]]
                        0 <= k < self.map@.len() && 0 <= a < b
                            < self.map@[k].1@.len() implies self.map@[k].1@[a].scanner_uuid
                        != self.map@[k].1@[b].scanner_uuid by {
                        if k < oldmap.len() {
                            assert(self.map@[k] == oldmap[k]);
                        }
                    }
                }
            },
            Option::Some(i) => {
                let ghost oldlist = oldmap[i as int].1@;
                let scanner_pos = Self::find_scanner(&self.map[i].1, scanner_uuid);
                let mut list = copy_vec(&self.map[i].1);
                match scanner_pos {
                    Option::Some(k) => {
                        list.set(k, entry);
                    },
                    Option::None => {
                        list.push(entry);
                    },
                }
                self.map.set(i, (device_uuid, list));
                proof {
                    assert(oldmap[i as int].0 == device_uuid);
                    assert(oldacts == oldlist);
                    assert(forall|j: int|
                        0 <= j < oldmap.len() ==> (#[trigger] self.map@[j]).0 == oldmap[j].0);
                    lemma_index_update_stable(oldmap, self.map@, device_uuid, i as int);
                    assert(self.activities_of(device_uuid) == list@);
                    assert forall|d: Uuid| d != device_uuid implies #[trigger] self
                        .activities_of(d) == old(self).activities_of(d) by {
                        lemma_index_update_other(oldmap, self.map@, i as int, d);
                    }
                    match scanner_pos {
                        Option::Some(k) => {
                            assert(list@ =~= oldacts.update(k as int, entry));
                            assert forall|a: int, b: int|
                                0 <= a < b < list@.len() implies list@[a].scanner_uuid
                                != list@[b].scanner_uuid by {
                                assert(oldlist[a].scanner_uuid != oldlist[b].scanner_uuid);
                                if a == k as int {
                                    assert(oldlist[k as int].scanner_uuid == scanner_uuid);
                                } else if b == k as int {
                                    assert(oldlist[k as int].scanner_uuid == scanner_uuid);
                                }
                            }
                        },
                        Option::None => {
                            assert(list@ =~= oldacts.push(entry));
                            assert forall|a: int, b: int|
                                0 <= a < b < list@.len() implies list@[a].scanner_uuid
                                != list@[b].scanner_uuid by {
                                if b < oldlist.len() {
                                    assert(oldlist[a].scanner_uuid != oldlist[b].scanner_uuid);
                                } else {
                                    assert(list@[b] == entry);
                                    assert(oldlist[a].scanner_uuid != scanner_uuid);
                                }
                            }
                        },
                    }
                    assert forall|k2: int, a: int, b: int|
                        #![trigger self.map@[k2].1@[a], self.map@[k2].1@[b]]
                        0 <= k2 < self.map@.len() && 0 <= a < b
                            < self.map@[k2].1@.len() implies self.map@[k2].1@[a].scanner_uuid
                        != self.map@[k2].1@[b].scanner_uuid by {
                        if k2 != i as int {
                            assert(self.map@[k2] == oldmap[k2]);
                        }
                    }
                }
            },
        }
        let best2 = self.best(device_uuid);
        let r = match (&best1, &best2) {
            (Some(b1), Some(b2)) => {
                b1.scanner_uuid != b2.scanner_uuid || elapsed_secs(b2.timestamp, b1.timestamp) > 1
            },
            _ => true,
        };
        r
    }

    /// Drops every observation older than the threshold, and every device
    /// entry left without observations; the surviving entries keep their
    /// order.
    pub fn clear(&mut self, now: u64, activity_diff: u64)
        requires
            old(self).wf(),
        ensures
            final(self).wf(),
            map_view(final(self).map@) == kept_map(map_view(old(self).map@), now, activity_diff),
    {
        let ghost oldmap = map_view(self.map@);
        let mut result: Vec<(Uuid, Vec<DeviceActivity>)> = Vec::new();
        let mut i: usize = 0;
        while i < self.map.len()
            invariant
                i <= self.map@.len(),
                old(self).wf(),
                self.map@ == old(self).map@,
                map_view(result@) == kept_map(
                    map_view(self.map@).subrange(0, i as int),
                    now,
                    activity_diff,
                ),
                forall|a: int, b: int|
                    0 <= a < b < result@.len() ==> (#[trigger] result@[a]).0 != (
                    #[trigger] result@[b]).0,
                forall|a: int|
                    0 <= a < result@.len() ==> exists|b: int|
                        0 <= b < i && (#[trigger] result@[a]).0 == self.map@[b].0,
                forall|k: int, a: int, b: int|
                    #![trigger result@[k].1@[a], result@[k].1@[b]]
                    0 <= k < result@.len() && 0 <= a < b < result@[k].1@.len()
                        ==> result@[k].1@[a].scanner_uuid != result@[k].1@[b].scanner_uuid,
            decreases self.map@.len() - i,
        {
            let device = self.map[i].0;
            let ghost oldlist = self.map@[i as int].1@;
            let list = &self.map[i].1;
            let mut filtered: Vec<DeviceActivity> = Vec::new();
            let mut j: usize = 0;
            while j < list.len()
                invariant
                    j <= oldlist.len(),
                    list@ == oldlist,
                    filtered@ == kept_list(oldlist.subrange(0, j as int), now, activity_diff),
                decreases oldlist.len() - j,
            {
                let a = list[j];
                proof {
                    assert(oldlist.subrange(0, j as int + 1).drop_last() =~= oldlist.subrange(
                        0,
                        j as int,
                    ));
                    assert(oldlist.subrange(0, j as int + 1).last() == a);
                }
                if elapsed_secs(now, a.timestamp) < activity_diff {
                    filtered.push(a);
                }
                j += 1;
            }
            proof {
                assert(oldlist.subrange(0, oldlist.len() as int) =~= oldlist);
                assert(forall|a: int, b: int|
                    0 <= a < b < oldlist.len() ==> (#[trigger] oldlist[a]).scanner_uuid != (
                    #[trigger] oldlist[b]).scanner_uuid);
                lemma_kept_list_distinct(oldlist, now, activity_diff);
            }
            let ghost prev_result = result@;
            if filtered.len() > 0 {
                result.push((device, filtered));
            }
            proof {
                assert(map_view(self.map@).subrange(0, i as int + 1).drop_last() =~= map_view(
                    self.map@,
                ).subrange(0, i as int));
                assert(map_view(self.map@).subrange(0, i as int + 1).last() == (device, oldlist));
                if filtered@.len() > 0 {
                    assert(map_view(result@) =~= map_view(prev_result).push((device, filtered@)));
                }
            }
            i += 1;
        }
        proof {
            assert(map_view(self.map@).subrange(0, self.map@.len() as int) =~= map_view(self.map@));
        }
        self.map = result;
    }
}

/// Everything a surviving list holds was in the original list.
proof fn lemma_kept_list_member(s: Seq<DeviceActivity>, now: u64, activity_diff: u64)
    ensures
        forall|i: int|
            0 <= i < kept_list(s, now, activity_diff).len() ==> s.contains(
                #[trigger] kept_list(s, now, activity_diff)[i],
            ),
    decreases s.len(),
{
    if s.len() > 0 {
        lemma_kept_list_member(s.drop_last(), now, activity_diff);
        assert(forall|i: int| 0 <= i < s.len() - 1 ==> #[trigger] s.drop_last()[i] == s[i]);
        assert forall|i: int|
            0 <= i < kept_list(s, now, activity_diff).len() implies s.contains(
            #[trigger] kept_list(s, now, activity_diff)[i],
        ) by {
            let k = kept_list(s, now, activity_diff);
            let rest = kept_list(s.drop_last(), now, activity_diff);
            if i < rest.len() {
                assert(s.drop_last().contains(rest[i]));
                let w = choose|w: int| 0 <= w < s.drop_last().len() && s.drop_last()[w] == rest[i];
                assert(s[w] == rest[i]);
            } else {
                assert(k[i] == s.last());
                assert(s[s.len() - 1] == s.last());
            }
        }
    }
}

/// An eviction pass keeps the per-scanner uniqueness of a list.
proof fn lemma_kept_list_distinct(s: Seq<DeviceActivity>, now: u64, activity_diff: u64)
    requires
        forall|a: int, b: int|
            0 <= a < b < s.len() ==> (#[trigger] s[a]).scanner_uuid != (#[trigger] s[b]).scanner_uuid,
    ensures
        forall|i: int, j: int|
            0 <= i < j < kept_list(s, now, activity_diff).len() ==> kept_list(s, now, activity_diff)[i].scanner_uuid
                != kept_list(s, now, activity_diff)[j].scanner_uuid,
    decreases s.len(),
{
    if s.len() > 0 {
        assert(forall|i: int| 0 <= i < s.len() - 1 ==> #[trigger] s.drop_last()[i] == s[i]);
        lemma_kept_list_distinct(s.drop_last(), now, activity_diff);
        lemma_kept_list_member(s.drop_last(), now, activity_diff);
        let k = kept_list(s, now, activity_diff);
        let rest = kept_list(s.drop_last(), now, activity_diff);
        assert forall|i: int, j: int| 0 <= i < j < k.len() implies k[i].scanner_uuid != k[j]
            .scanner_uuid by {
            if j < rest.len() {
            } else if keep_activity(s.last(), now, activity_diff) && j == rest.len() {
                assert(k[j] == s.last());
                assert(s.drop_last().contains(rest[i]));
                let w = choose|w: int| 0 <= w < s.drop_last().len() && s.drop_last()[w] == rest[i];
                assert(s[w].scanner_uuid != s[s.len() - 1].scanner_uuid);
            }
        }
    }
}

/// Appending a fresh device leaves other lookups alone and finds the new one.
proof fn lemma_index_of_push(
    m: Seq<(Uuid, Vec<DeviceActivity>)>,
    device: Uuid,
    list: Vec<DeviceActivity>,
)
    requires
        device_index(m, device) == -1,
    ensures
        device_index(m.push((device, list)), device) == m.len(),
    decreases m.len(),
{
    if m.len() > 0 {
        lemma_device_index(m, device);
        lemma_device_index(m.drop_first(), device);
        assert(m[0].0 != device);
        assert(device_index(m, device) == (if device_index(m.drop_first(), device) == -1 {
            -1
        } else {
            device_index(m.drop_first(), device) + 1
        }));
        lemma_index_of_push(m.drop_first(), device, list);
        assert(m.push((device, list)).drop_first() =~= m.drop_first().push((device, list)));
    } else {
        assert(m.push((device, list))[0].0 == device);
    }
}

proof fn lemma_index_of_push_other(
    m: Seq<(Uuid, Vec<DeviceActivity>)>,
    device: Uuid,
    list: Vec<DeviceActivity>,
    d: Uuid,
)
    requires
        d != device,
    ensures
        device_index(m.push((device, list)), d) == device_index(m, d) || (device_index(m, d) == -1
            && device_index(m.push((device, list)), d) == -1),
        device_index(m, d) != -1 ==> device_index(m.push((device, list)), d) == device_index(m, d),
        device_index(m, d) == -1 ==> device_index(m.push((device, list)), d) == -1,
    decreases m.len(),
{
    let mp = m.push((device, list));
    if m.len() == 0 {
        assert(mp[0].0 == device);
        assert(mp.drop_first() =~= Seq::empty());
        assert(device_index(mp.drop_first(), d) == -1);
        assert(device_index(mp, d) == -1);
    } else {
        assert(mp[0] == m[0]);
        lemma_index_of_push_other(m.drop_first(), device, list, d);
        assert(mp.drop_first() =~= m.drop_first().push((device, list)));
        if m[0].0 != d {
            assert(device_index(m, d) == (if device_index(m.drop_first(), d) == -1 {
                -1
            } else {
                device_index(m.drop_first(), d) + 1
            }));
            assert(device_index(mp, d) == (if device_index(mp.drop_first(), d) == -1 {
                -1
            } else {
                device_index(mp.drop_first(), d) + 1
            }));
        }
    }
}

/// Updating the list stored at the device's slot moves no keys.
proof fn lemma_index_update_stable(
    m1: Seq<(Uuid, Vec<DeviceActivity>)>,
    m2: Seq<(Uuid, Vec<DeviceActivity>)>,
    device: Uuid,
    i: int,
)
    requires
        m1.len() == m2.len(),
        0 <= i < m1.len(),
        forall|j: int| 0 <= j < m1.len() ==> (#[trigger] m2[j]).0 == m1[j].0,
        device_index(m1, device) == i,
    ensures
        device_index(m2, device) == i,
    decreases m1.len(),
{
    lemma_device_index(m1, device);
    if i == 0 {
        assert(m2[0].0 == device);
    } else {
        assert(m1[0].0 != device);
        assert(m2[0].0 != device);
        lemma_index_update_stable(m1.drop_first(), m2.drop_first(), device, i - 1);
        assert(forall|j: int|
            0 <= j < m1.drop_first().len() ==> (#[trigger] m2.drop_first()[j]).0
                == m1.drop_first()[j].0);
    }
}

proof fn lemma_index_update_other(
    m1: Seq<(Uuid, Vec<DeviceActivity>)>,
    m2: Seq<(Uuid, Vec<DeviceActivity>)>,
    i: int,
    d: Uuid,
)
    requires
        m1.len() == m2.len(),
        0 <= i < m1.len(),
        forall|j: int| 0 <= j < m1.len() ==> (#[trigger] m2[j]).0 == m1[j].0,
        forall|j: int| 0 <= j < m1.len() && j != i ==> #[trigger] m2[j] == m1[j],
        m1[i].0 != d,
    ensures
        device_index(m2, d) == device_index(m1, d),
        device_index(m1, d) != -1 ==> m2[device_index(m1, d)] == m1[device_index(m1, d)],
    decreases m1.len(),
{
    lemma_device_index(m1, d);
    lemma_device_index(m2, d);
    if m1.len() > 0 {
        if m1[0].0 == d {
        } else {
            if i == 0 {
                assert(forall|j: int|
                    0 <= j < m1.drop_first().len() ==> #[trigger] m2.drop_first()[j]
                        == m1.drop_first()[j]);
                lemma_index_same(m1.drop_first(), m2.drop_first(), d);
            } else {
                lemma_index_update_other(m1.drop_first(), m2.drop_first(), i - 1, d);
            }
        }
    }
}

proof fn lemma_index_same(
    m1: Seq<(Uuid, Vec<DeviceActivity>)>,
    m2: Seq<(Uuid, Vec<DeviceActivity>)>,
    d: Uuid,
)
    requires
        m1.len() == m2.len(),
        forall|j: int| 0 <= j < m1.len() ==> #[trigger] m2[j] == m1[j],
    ensures
        device_index(m2, d) == device_index(m1, d),
        device_index(m1, d) != -1 ==> m2[device_index(m1, d)] == m1[device_index(m1, d)],
    decreases m1.len(),
{
    assert(m1 =~= m2);
    lemma_device_index(m1, d);
}

/// Law: for a non-empty observation list the best entry carries the maximum
/// signal strength, and among entries of that strength the first inserted
/// one is returned.
pub proof fn lemma_best_is_max_first(s: Seq<DeviceActivity>)
    requires
        s.len() > 0,
    ensures
        best_of(s) is Some,
        exists|i: int|
            {
                &&& 0 <= i < s.len()
                &&& s[i] == best_of(s).unwrap()
                &&& forall|j: int|
                    0 <= j < s.len() ==> (#[trigger] s[j]).irssi <= best_of(s).unwrap().irssi
                &&& forall|j: int|
                    0 <= j < i ==> (#[trigger] s[j]).irssi < best_of(s).unwrap().irssi
            },
    decreases s.len(),
{
    if s.len() == 1 {
        assert(s.drop_last().len() == 0);
        assert(s[0] == s.last());
    } else {
        lemma_best_is_max_first(s.drop_last());
        let prev = best_of(s.drop_last()).unwrap();
        let pi = choose|i: int|
            {
                &&& 0 <= i < s.drop_last().len()
                &&& s.drop_last()[i] == prev
                &&& forall|j: int|
                    0 <= j < s.drop_last().len() ==> (#[trigger] s.drop_last()[j]).irssi
                        <= prev.irssi
                &&& forall|j: int| 0 <= j < i ==> (#[trigger] s.drop_last()[j]).irssi < prev.irssi
            };
        assert(forall|j: int| 0 <= j < s.len() - 1 ==> #[trigger] s[j] == s.drop_last()[j]);
        if prev.irssi < s.last().irssi {
            let i = s.len() - 1;
            assert(s[i] == s.last());
            assert(forall|j: int| 0 <= j < i ==> (#[trigger] s[j]).irssi <= prev.irssi);
        } else {
            assert(s[pi] == prev);
        }
    }
}

} // verus!
