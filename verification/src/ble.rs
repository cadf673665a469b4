use vstd::prelude::*;

verus! {

// ---------------------------------------------------------------------------
// Bluetooth UUID handling shared with the field units.
// ---------------------------------------------------------------------------

/// A Bluetooth UUID in one of its three standard widths.
#[derive(Clone, Copy, Debug, PartialEq, Eq)]
pub enum BleUuid {
    Uuid16(u16),
    Uuid32(u32),
    Uuid128([u8; 16]),
}

/// The two little-endian bytes of a 16-bit value.
pub open spec fn le_bytes16(n: u16) -> Seq<u8> {
    seq![(n % 256) as u8, (n / 256) as u8]
}

/// The four little-endian bytes of a 32-bit value.
pub open spec fn le_bytes32(n: u32) -> Seq<u8> {
    seq![
        (n % 256) as u8,
        ((n / 256) % 256) as u8,
        ((n / 65536) % 256) as u8,
        ((n / 16777216) % 256) as u8,
    ]
}

/// Flattens a Bluetooth UUID to its byte form: the stored bytes of a
/// 128-bit UUID, or the little-endian bytes of a 16- or 32-bit one.
pub fn ble_uuid_to_vec(uuid: BleUuid) -> (r: Vec<u8>)
    ensures
        match uuid {
            BleUuid::Uuid128(data) => r@ == data@,
            BleUuid::Uuid32(n) => r@ == le_bytes32(n),
            BleUuid::Uuid16(n) => r@ == le_bytes16(n),
        },
{
    match uuid {
        BleUuid::Uuid128(data) => {
            let mut r: Vec<u8> = Vec::new();
            let mut i: usize = 0;
            while i < 16
                invariant
                    i <= 16,
                    r@ == data@.subrange(0, i as int),
                decreases 16 - i,
            {
                r.push(data[i]);
                proof {
                    assert(r@ =~= data@.subrange(0, i as int + 1));
                }
                i += 1;
            }
            proof {
                assert(r@ =~= data@);
            }
            r
        },
        BleUuid::Uuid32(n) => {
            let mut r: Vec<u8> = Vec::new();
            r.push((n % 256) as u8);
            r.push(((n / 256) % 256) as u8);
            r.push(((n / 65536) % 256) as u8);
            r.push(((n / 16777216) % 256) as u8);
            proof {
                assert(r@ =~= le_bytes32(n));
            }
            r
        },
        BleUuid::Uuid16(n) => {
            let mut r: Vec<u8> = Vec::new();
            r.push((n % 256) as u8);
            r.push((n / 256) as u8);
            proof {
                assert(r@ =~= le_bytes16(n));
            }
            r
        },
    }
}

} // verus!
