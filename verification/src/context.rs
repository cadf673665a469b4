use vstd::prelude::*;

use crate::database::Database;
use crate::ids::Uuid;
use crate::messages::AlarmInfo;

verus! {

/// The shared server state: the database plus the currently firing alarms,
/// keyed by their instance identifier.
pub struct Context {
    pub database: Database,
    pub alarms: Vec<(Uuid, AlarmInfo)>,
}

/// The keys of the active-alarm table, in order.
pub open spec fn alarm_ids(alarms: Seq<(Uuid, AlarmInfo)>) -> Seq<Uuid> {
    Seq::new(alarms.len(), |i: int| alarms[i].0)
}

impl Context {
    /// First active alarm with the given instance key.
    pub fn find_alarm(&self, uuid: Uuid) -> (r: Option<usize>)
        ensures
            match r {
                Option::Some(i) => {
                    &&& 0 <= i < self.alarms@.len()
                    &&& alarm_ids(self.alarms@)[i as int] == uuid
                    &&& forall|j: int| 0 <= j < i ==> alarm_ids(self.alarms@)[j] != uuid
                },
                Option::None => forall|j: int|
                    0 <= j < self.alarms@.len() ==> alarm_ids(self.alarms@)[j] != uuid,
            },
    {
        let mut i: usize = 0;
        while i < self.alarms.len()
            invariant
                i <= self.alarms@.len(),
                forall|j: int| 0 <= j < i ==> alarm_ids(self.alarms@)[j] != uuid,
            decreases self.alarms@.len() - i,
        {
            if self.alarms[i].0 == uuid {
                proof {
                    assert(alarm_ids(self.alarms@)[i as int] == uuid);
                }
                return Some(i);
            }
            proof {
                assert(alarm_ids(self.alarms@)[i as int] != uuid);
            }
            i += 1;
        }
        None
    }
}

} // verus!
