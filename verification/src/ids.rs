use vstd::prelude::*;

verus! {

/// A 128-bit identifier: the key format shared by scanners, devices, rooms,
/// alarms and the other registries.
#[derive(Clone, Copy, Debug, PartialEq, Eq, Structural)]
pub struct Uuid {
    pub value: u128,
}

impl Uuid {
    /// The all-zero identifier, used for the anonymous operator.
    pub fn nil() -> (r: Uuid)
        ensures
            r.value == 0,
    {
        Uuid { value: 0 }
    }
}

/// Relies on `uuid::Uuid::new_v4`: a randomly generated identifier. Nothing
/// is promised of the value; callers must work for every outcome.
#[verifier::external_body]
pub(crate) fn fresh_uuid() -> Uuid {
    Uuid { value: uuid::Uuid::new_v4().as_u128() }
}

} // verus!
