use vstd::prelude::*;

verus! {

// ---------------------------------------------------------------------------
// Advertisement decoder: a cursor over a length-tag-value byte stream. Each
// record is prefixed by one length byte L covering the tag byte and the
// payload; decoding stops, without error, at the end of the input, on a
// length of 0 or 1, or on a length that would read past the end.
// ---------------------------------------------------------------------------

/// One decoded record: a tag byte and its payload.
pub struct ParserData {
    pub tag: u8,
    pub data: Vec<u8>,
}

/// A decoder positioned inside an advertisement byte stream.
pub struct Parser {
    data: Vec<u8>,
    position: usize,
}

/// The record that starts at `pos`, if any, with the position just after it.
pub open spec fn spec_step(data: Seq<u8>, pos: int) -> Option<((u8, Seq<u8>), int)> {
    if 0 <= pos < data.len() {
        let l = data[pos] as int;
        if l <= 1 || pos + l >= data.len() {
            None
        } else {
            Some(((data[pos + 1], data.subrange(pos + 2, pos + 1 + l)), pos + l + 1))
        }
    } else {
        None
    }
}

/// Every record from `pos` to the point where decoding stops.
pub open spec fn spec_records(data: Seq<u8>, pos: int) -> Seq<(u8, Seq<u8>)>
    decreases data.len() - pos,
    when 0 <= pos
{
    match spec_step(data, pos) {
        Option::None => Seq::empty(),
        Option::Some((rec, next)) => seq![rec] + spec_records(data, next),
    }
}

impl Parser {
    /// The bytes being decoded.
    pub closed spec fn data_view(&self) -> Seq<u8> {
        self.data@
    }

    /// The cursor position.
    pub closed spec fn position_view(&self) -> int {
        self.position as int
    }

    /// The records still ahead of the cursor.
    pub open spec fn remaining(&self) -> Seq<(u8, Seq<u8>)> {
        spec_records(self.data_view(), self.position_view())
    }

    pub fn new(data: Vec<u8>) -> (r: Parser)
        ensures
            r.data_view() == data@,
            r.position_view() == 0,
    {
        Parser { data, position: 0 }
    }

    /// Decodes the record at the cursor, if one is there, and advances past
    /// it; leaves the decoder unchanged once decoding has stopped.
    pub fn next(&mut self) -> (r: Option<ParserData>)
        ensures
            final(self).data_view() == old(self).data_view(),
            match r {
                Option::None => {
                    &&& final(self).position_view() == old(self).position_view()
                    &&& old(self).remaining() == Seq::<(u8, Seq<u8>)>::empty()
                },
                Option::Some(rec) => {
                    &&& old(self).remaining().len() > 0
                    &&& (rec.tag, rec.data@) == old(self).remaining()[0]
                    &&& final(self).remaining() == old(self).remaining().drop_first()
                },
            },
    {
        if self.position < self.data.len() {
            let length = self.data[self.position];
            if length <= 1 || self.data.len() - self.position <= length as usize {
                return None;
            }
            let tag = self.data[self.position + 1];
            let mut payload: Vec<u8> = Vec::new();
            let start = self.position + 2;
            let end = self.position + 1 + length as usize;
            let mut j: usize = start;
            while j < end
                invariant
                    start <= j <= end,
                    end <= self.data@.len(),
                    payload@ =~= self.data@.subrange(start as int, j as int),
                decreases end - j,
            {
                let b = self.data[j];
                payload.push(b);
                proof {
                    assert(payload@ =~= self.data@.subrange(start as int, j as int + 1));
                }
                j += 1;
            }
            let ghost pre = *self;
            self.position = self.position + length as usize + 1;
            proof {
                let s = pre.data@;
                let p = pre.position as int;
                assert(spec_step(s, p) matches Option::Some((rec, next))
                    && rec == (tag, payload@) && next == self.position as int);
                assert(pre.remaining() =~= seq![(tag, payload@)] + self.remaining());
                assert(pre.remaining().drop_first() =~= self.remaining());
            }
            Some(ParserData { tag, data: payload })
        } else {
            None
        }
    }
}

// ---------------------------------------------------------------------------
// Round trip: a well-formed stream of records, written out in the
// length-tag-value form, decodes back to exactly the records it came from.
// ---------------------------------------------------------------------------

/// A record that the wire form can carry: at least one payload byte, and a
/// payload short enough for its length prefix to fit in one byte.
pub open spec fn wf_record(rec: (u8, Seq<u8>)) -> bool {
    1 <= rec.1.len() <= 254
}

/// The wire form of one record: length prefix, tag, payload.
pub open spec fn encode_record(rec: (u8, Seq<u8>)) -> Seq<u8> {
    seq![(rec.1.len() + 1) as u8, rec.0] + rec.1
}

/// The wire form of a stream of records.
pub open spec fn encode_records(recs: Seq<(u8, Seq<u8>)>) -> Seq<u8>
    decreases recs.len(),
{
    if recs.len() == 0 {
        Seq::empty()
    } else {
        encode_record(recs[0]) + encode_records(recs.drop_first())
    }
}

proof fn lemma_records_shift(a: Seq<u8>, b: Seq<u8>, pos: int)
    requires
        a.len() <= pos,
    ensures
        spec_records(a + b, pos) == spec_records(b, pos - a.len()),
    decreases (a + b).len() - pos,
{
    let s = a + b;
    let q = pos - a.len();
    if 0 <= pos < s.len() {
        assert(s[pos] == b[q]);
        let l = s[pos] as int;
        if l <= 1 || pos + l >= s.len() {
            assert(spec_records(s, pos) =~= Seq::<(u8, Seq<u8>)>::empty());
            assert(l > 1 ==> q + l >= b.len());
            assert(spec_records(b, q) =~= Seq::<(u8, Seq<u8>)>::empty());
        } else {
            assert(s.subrange(pos + 2, pos + 1 + l) =~= b.subrange(q + 2, q + 1 + l));
            lemma_records_shift(a, b, pos + l + 1);
            assert(spec_records(s, pos) =~= seq![(s[pos + 1], s.subrange(pos + 2, pos + 1 + l))]
                + spec_records(s, pos + l + 1));
            assert(spec_records(b, q) =~= seq![(b[q + 1], b.subrange(q + 2, q + 1 + l))]
                + spec_records(b, q + l + 1));
        }
    } else {
        assert(spec_records(s, pos) =~= Seq::<(u8, Seq<u8>)>::empty());
        assert(spec_records(b, q) =~= Seq::<(u8, Seq<u8>)>::empty());
    }
}

/// Law: decoding the wire form of any stream of well-formed records yields
/// exactly that stream of records.
pub proof fn lemma_decode_encoded(recs: Seq<(u8, Seq<u8>)>)
    requires
        forall|i: int| 0 <= i < recs.len() ==> wf_record(#[trigger] recs[i]),
    ensures
        spec_records(encode_records(recs), 0) == recs,
    decreases recs.len(),
{
    if recs.len() == 0 {
        assert(spec_records(encode_records(recs), 0) =~= recs);
    } else {
        let head = recs[0];
        let rest = recs.drop_first();
        let enc_head = encode_record(head);
        let enc_rest = encode_records(rest);
        let s = enc_head + enc_rest;
        let l = head.1.len() + 1;
        assert(s[0] == l as u8);
        assert(1 < l <= 255);
        assert(0 + l < s.len());
        assert(s[1] == head.0);
        assert(s.subrange(2, 1 + l as int) =~= head.1);
        assert(forall|i: int| 0 <= i < rest.len() ==> wf_record(#[trigger] rest[i]));
        lemma_decode_encoded(rest);
        lemma_records_shift(enc_head, enc_rest, l as int + 1);
        assert(spec_records(s, 0) =~= seq![(head.0, head.1)] + spec_records(s, l as int + 1));
        assert((head.0, head.1) == head);
        assert(spec_records(encode_records(recs), 0) =~= recs);
    }
}

} // verus!
