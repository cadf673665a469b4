use vstd::prelude::*;
use vstd::string::StrSliceExecFns;
use vstd::utf8::{decode_utf8, valid_utf8};

verus! {

// ---------------------------------------------------------------------------
// Time. Timestamps are kept as non-negative milliseconds; age comparisons are
// made in whole seconds, truncating, as the rest of the crate expects.
// ---------------------------------------------------------------------------

/// Whole seconds elapsed from `t` to `now`; zero when `t` lies in the future.
pub open spec fn spec_elapsed_secs(now: u64, t: u64) -> int {
    if now >= t {
        (now - t) / 1000
    } else {
        0
    }
}

pub fn elapsed_secs(now: u64, t: u64) -> (r: u64)
    ensures
        r == spec_elapsed_secs(now, t),
{
    if now >= t {
        (now - t) / 1000
    } else {
        0
    }
}

/// Relies on `chrono::offset::Utc::now` and `DateTime::timestamp_millis`:
/// the current time as milliseconds since the Unix epoch. Nothing is promised
/// of the value.
#[verifier::external_body]
pub(crate) fn now_raw_millis() -> i64 {
    chrono::offset::Utc::now().timestamp_millis()
}

/// Turns a raw clock reading into the crate's timestamp form, clamping
/// readings from before the epoch to zero.
pub fn clamp_millis(t: i64) -> (r: u64)
    ensures
        t >= 0 ==> r == t,
        t < 0 ==> r == 0,
{
    if t >= 0 {
        t as u64
    } else {
        0
    }
}

/// The current time as a clamped millisecond timestamp.
pub fn current_millis() -> u64 {
    clamp_millis(now_raw_millis())
}

// ---------------------------------------------------------------------------
// Byte sequences.
// ---------------------------------------------------------------------------

/// Equality of two byte vectors, proved element by element.
pub fn bytes_eq(a: &Vec<u8>, b: &Vec<u8>) -> (r: bool)
    ensures
        r == (a@ == b@),
{
    if a.len() != b.len() {
        assert(a@ != b@);
        return false;
    }
    let mut i: usize = 0;
    while i < a.len()
        invariant
            i <= a.len(),
            a@.len() == b@.len(),
            forall|j: int| 0 <= j < i ==> a@[j] == b@[j],
        decreases a.len() - i,
    {
        if a[i] != b[i] {
            assert(a@ != b@);
            return false;
        }
        i += 1;
    }
    assert(a@ =~= b@);
    true
}

/// An element-by-element copy of a vector of plain values.
pub fn copy_vec<T: Copy>(v: &Vec<T>) -> (r: Vec<T>)
    ensures
        r@ == v@,
{
    let mut r: Vec<T> = Vec::new();
    let mut i: usize = 0;
    while i < v.len()
        invariant
            i <= v.len(),
            r@ == v@.subrange(0, i as int),
        decreases v.len() - i,
    {
        r.push(v[i]);
        proof {
            assert(r@ =~= v@.subrange(0, i as int + 1));
        }
        i += 1;
    }
    proof {
        assert(r@ =~= v@);
    }
    r
}

// ---------------------------------------------------------------------------
// Hexadecimal rendering. The encoding is simple enough to state exactly, so
// it is implemented and proved here rather than taken on trust.
// ---------------------------------------------------------------------------

/// The lowercase hexadecimal digit for a value below 16.
pub open spec fn hex_digit(n: u8) -> char
    recommends
        n < 16,
{
    if n < 10 {
        ((n + 0x30) as u8) as char
    } else {
        ((n + 0x57) as u8) as char
    }
}

/// Two lowercase hexadecimal digits for each byte, in order.
pub open spec fn hex_chars_of(s: Seq<u8>) -> Seq<char>
    decreases s.len(),
{
    if s.len() == 0 {
        Seq::empty()
    } else {
        hex_chars_of(s.drop_last()) + seq![
            hex_digit(s.last() / 16),
            hex_digit(s.last() % 16),
        ]
    }
}

/// Renders a byte string as lowercase hexadecimal text.
pub fn hex_encode(data: &Vec<u8>) -> (r: String)
    ensures
        r@ == hex_chars_of(data@),
{
    let mut out: Vec<u8> = Vec::new();
    let mut i: usize = 0;
    while i < data.len()
        invariant
            i <= data.len(),
            out@.len() == 2 * i,
            decode_chars(out@) == hex_chars_of(data@.subrange(0, i as int)),
            forall|j: int| 0 <= j < out@.len() ==> out@[j] < 128,
        decreases data.len() - i,
    {
        let b = data[i];
        let hi = b / 16;
        let lo = b % 16;
        let hi_byte: u8 = if hi < 10 { hi + 0x30 } else { hi + 0x57 };
        let lo_byte: u8 = if lo < 10 { lo + 0x30 } else { lo + 0x57 };
        let ghost prev = out@;
        out.push(hi_byte);
        out.push(lo_byte);
        proof {
            assert(data@.subrange(0, i as int + 1).drop_last() =~= data@.subrange(0, i as int));
            assert(out@ =~= prev + seq![hi_byte, lo_byte]);
            lemma_decode_chars_append2(prev, hi_byte, lo_byte);
            assert(hi_byte as char == hex_digit(hi));
            assert(lo_byte as char == hex_digit(lo));
            assert(data@.subrange(0, i as int + 1).last() == b);
        }
        i += 1;
    }
    proof {
        assert(data@.subrange(0, data@.len() as int) =~= data@);
    }
    ascii_to_string(out)
}

/// The characters of an ASCII byte sequence.
pub open spec fn decode_chars(s: Seq<u8>) -> Seq<char> {
    Seq::new(s.len(), |i: int| s[i] as char)
}

proof fn lemma_decode_chars_append2(s: Seq<u8>, a: u8, b: u8)
    ensures
        decode_chars(s + seq![a, b]) =~= decode_chars(s) + seq![a as char, b as char],
{
}

/// Encoding of ASCII characters as their byte values.
pub open spec fn ascii_bytes(s: Seq<char>) -> Seq<u8> {
    Seq::new(s.len(), |i: int| s[i] as u8)
}

/// Turns a vector of bytes below 128 into the string of the same characters.
pub fn ascii_to_string(v: Vec<u8>) -> (r: String)
    requires
        forall|j: int| 0 <= j < v@.len() ==> v@[j] < 128,
    ensures
        r@ == decode_chars(v@),
{
    proof {
        lemma_ascii_valid_utf8(v@);
    }
    let ghost bytes = v@;
    match utf8_to_string(v) {
        Some(s) => s,
        None => {
            // Unreachable: ASCII bytes are valid UTF-8.
            String::new()
        },
    }
}

proof fn lemma_ascii_valid_utf8(s: Seq<u8>)
    requires
        forall|j: int| 0 <= j < s.len() ==> s[j] < 128,
    ensures
        valid_utf8(s),
        decode_utf8(s) =~= decode_chars(s),
    decreases s.len(),
{
    if s.len() > 0 {
        let b = s[0];
        assert(vstd::utf8::is_leading_byte_width_1(b));
        assert(b & 0x7F == b) by (bit_vector)
            requires
                b < 128,
        ;
        assert(vstd::utf8::length_of_first_scalar(s) == 1);
        assert(vstd::utf8::pop_first_scalar(s) =~= s.drop_first());
        lemma_ascii_valid_utf8(s.drop_first());
        assert(vstd::utf8::decode_first_scalar(s) == b as u32);
        assert(decode_utf8(s) =~= decode_chars(s));
    }
}

/// Relies on `String::from_utf8`: succeeds exactly on valid UTF-8 input and
/// decodes it; the error case returns no partial text.
#[verifier::external_body]
pub(crate) fn utf8_to_string(v: Vec<u8>) -> (r: Option<String>)
    ensures
        r is Some <==> valid_utf8(v@),
        r matches Some(s) ==> s@ == decode_utf8(v@),
{
    match String::from_utf8(v) {
        Ok(s) => Some(s),
        Err(_) => None,
    }
}

// ---------------------------------------------------------------------------
// Registry lookups. Every registry is a vector of records with a 128-bit
// key; lookups return the first match.
// ---------------------------------------------------------------------------

/// First position of the key, or -1.
pub open spec fn uuid_index(ids: Seq<crate::ids::Uuid>, u: crate::ids::Uuid) -> int
    decreases ids.len(),
{
    if ids.len() == 0 {
        -1
    } else if ids[0] == u {
        0
    } else {
        let r = uuid_index(ids.drop_first(), u);
        if r == -1 {
            -1
        } else {
            r + 1
        }
    }
}

pub proof fn lemma_uuid_index(ids: Seq<crate::ids::Uuid>, u: crate::ids::Uuid)
    ensures
        uuid_index(ids, u) == -1 ==> forall|i: int| 0 <= i < ids.len() ==> ids[i] != u,
        uuid_index(ids, u) != -1 ==> {
            &&& 0 <= uuid_index(ids, u) < ids.len()
            &&& ids[uuid_index(ids, u)] == u
            &&& forall|i: int| 0 <= i < uuid_index(ids, u) ==> ids[i] != u
        },
    decreases ids.len(),
{
    if ids.len() > 0 && ids[0] != u {
        lemma_uuid_index(ids.drop_first(), u);
        assert(forall|i: int| 0 < i < ids.len() ==> ids[i] == ids.drop_first()[i - 1]);
    }
}

/// A record with a 128-bit key.
pub trait HasUuid {
    /// The record's key.
    spec fn sid(&self) -> crate::ids::Uuid;

    /// The record's key.
    fn key(&self) -> (r: crate::ids::Uuid)
        ensures
            r == self.sid(),
    ;
}

/// The keys of a registry, in order.
pub open spec fn ids_of<T: HasUuid>(s: Seq<T>) -> Seq<crate::ids::Uuid> {
    Seq::new(s.len(), |i: int| s[i].sid())
}

/// First record with the given key, if any.
pub fn find_by_uuid<T: HasUuid>(v: &Vec<T>, u: crate::ids::Uuid) -> (r: Option<usize>)
    ensures
        match r {
            Option::Some(i) => i == uuid_index(ids_of(v@), u),
            Option::None => uuid_index(ids_of(v@), u) == -1,
        },
{
    proof {
        lemma_uuid_index(ids_of(v@), u);
    }
    let mut i: usize = 0;
    while i < v.len()
        invariant
            i <= v@.len(),
            forall|j: int| 0 <= j < i ==> ids_of(v@)[j] != u,
        decreases v@.len() - i,
    {
        if v[i].key() == u {
            proof {
                lemma_uuid_index(ids_of(v@), u);
                assert(ids_of(v@)[i as int] == u);
            }
            return Some(i);
        }
        proof {
            assert(ids_of(v@)[i as int] != u);
        }
        i += 1;
    }
    None
}

/// A record that can be copied without changing its mathematical view.
pub trait DeepClone: DeepView + Sized {
    fn deep_clone(&self) -> (r: Self)
        ensures
            r.deep_view() == self.deep_view(),
    ;
}

impl DeepClone for String {
    fn deep_clone(&self) -> (r: String)
        ensures
            r.deep_view() == self.deep_view(),
    {
        self.clone()
    }
}

/// An element-by-element copy of a registry, with the same view.
pub fn clone_list<T: DeepClone>(v: &Vec<T>) -> (r: Vec<T>)
    ensures
        r.deep_view() == v.deep_view(),
{
    let mut r: Vec<T> = Vec::new();
    let mut i: usize = 0;
    while i < v.len()
        invariant
            i <= v@.len(),
            r.deep_view() == v.deep_view().subrange(0, i as int),
        decreases v@.len() - i,
    {
        let x = v[i].deep_clone();
        let ghost xd = x.deep_view();
        let ghost before = r.deep_view();
        let ghost prev_elems = r@;
        r.push(x);
        proof {
            assert(r@ == prev_elems.push(x));
            assert(before.len() == prev_elems.len());
            assert(v.deep_view().subrange(0, i as int).len() == i as int);
            assert(prev_elems.len() == i as int);
            assert forall|j: int|
                0 <= j < r.deep_view().len() implies r.deep_view()[j] == v.deep_view().subrange(
                0,
                i as int + 1,
            )[j] by {
                if j < i as int {
                    assert(r@[j] == prev_elems[j]);
                    assert(r.deep_view()[j] == before[j]);
                } else {
                    assert(r@[j] == x);
                    assert(r.deep_view()[j] == xd);
                }
            }
            assert(r.deep_view() =~= v.deep_view().subrange(0, i as int + 1));
        }
        i += 1;
    }
    proof {
        assert(r.deep_view() =~= v.deep_view());
    }
    r
}


/// Removes the first record with the given key, keeping the others' order.
pub fn remove_by_uuid<T: HasUuid>(v: &mut Vec<T>, u: crate::ids::Uuid) -> (r: bool)
    ensures
        ({
            let idx = uuid_index(ids_of(old(v)@), u);
            if idx == -1 {
                final(v)@ == old(v)@ && !r
            } else {
                final(v)@ == old(v)@.remove(idx) && r
            }
        }),
{
    let found = find_by_uuid(v, u);
    proof {
        lemma_uuid_index(ids_of(v@), u);
    }
    match found {
        Option::Some(i) => {
            v.remove(i);
            true
        },
        Option::None => false,
    }
}

/// Where each element of a sequence lands after one removal.
pub proof fn lemma_remove_index<T>(s: Seq<T>, i: int, j: int)
    requires
        0 <= i < s.len(),
        0 <= j < s.len() - 1,
    ensures
        s.remove(i)[j] == (if j < i {
            s[j]
        } else {
            s[j + 1]
        }),
{
}

/// Relies on rand's `Alphanumeric` distribution and `sample_string`: a
/// random string of exactly the requested number of alphanumeric
/// characters.
#[verifier::external_body]
pub(crate) fn alphanumeric_nonce(len: usize) -> (r: String)
    ensures
        r@.len() == len,
{
    rand::distributions::DistString::sample_string(
        &rand::distributions::Alphanumeric,
        &mut rand::thread_rng(),
        len,
    )
}

// ---------------------------------------------------------------------------
// Trusted text helpers.
// ---------------------------------------------------------------------------

/// Relies on std's `format!`: the concatenation of the two strings.
#[verifier::external_body]
pub(crate) fn concat_str(a: &str, b: &str) -> (r: String)
    ensures
        r@ == a@ + b@,
{
    format!("{}{}", a, b)
}

/// What `str::replace` returns: the text with every occurrence of the
/// pattern replaced. A function of the three arguments alone.
pub uninterp spec fn replaced(s: Seq<char>, pat: Seq<char>, sub: Seq<char>) -> Seq<char>;

/// Relies on `str::replace`: replaces every match of the pattern with the
/// replacement text.
#[verifier::external_body]
pub(crate) fn replace_str(s: &str, pat: &str, sub: &str) -> (r: String)
    ensures
        r@ == replaced(s@, pat@, sub@),
{
    s.replace(pat, sub)
}

} // verus!
