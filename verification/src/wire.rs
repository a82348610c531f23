//! The Protocol Buffers wire format: base-128 varints, field keys and the four
//! scalar wire types, as a parser and a serializer over byte sequences.

use vstd::bytes::{
    lemma_auto_spec_u32_to_from_le_bytes, lemma_auto_spec_u64_to_from_le_bytes,
    spec_u32_from_le_bytes, spec_u32_to_le_bytes, spec_u64_from_le_bytes, spec_u64_to_le_bytes,
    u32_from_le_bytes, u32_to_le_bytes, u64_from_le_bytes, u64_to_le_bytes,
};
use vstd::prelude::*;
use vstd::slice::slice_subrange;

verus! {

/// Exclusive upper bound of the value that the rest of a varint may carry once
/// `count` of its bytes have been consumed. Ten bytes hold 64 bits, so the tenth
/// byte contributes a single bit.
pub open spec fn varint_limit(count: nat) -> int {
    if count == 0 {
        0x1_0000_0000_0000_0000
    } else if count == 1 {
        0x200_0000_0000_0000
    } else if count == 2 {
        0x4_0000_0000_0000
    } else if count == 3 {
        0x800_0000_0000
    } else if count == 4 {
        0x10_0000_0000
    } else if count == 5 {
        0x2000_0000
    } else if count == 6 {
        0x40_0000
    } else if count == 7 {
        0x8000
    } else if count == 8 {
        0x100
    } else {
        2
    }
}

/// The canonical base-128 encoding of `v`: seven bits per byte, least
/// significant group first, the high bit set on every byte but the last.
pub open spec fn spec_encode_varint(v: u64) -> Seq<u8>
    decreases v,
{
    if v < 128 {
        seq![v as u8]
    } else {
        seq![((v % 128) + 128) as u8] + spec_encode_varint(v / 128)
    }
}

/// Reads one varint from the front of `s`, `count` bytes of it having been read
/// before. Gives the value and the number of bytes used. A varint longer than
/// ten bytes, one whose tenth byte exceeds 1, and one cut short are rejected;
/// padded encodings such as `80 00` are accepted.
pub open spec fn spec_decode_varint_from(s: Seq<u8>, count: nat) -> Option<(u64, nat)>
    decreases s.len(),
{
    if s.len() == 0 || count >= 10 {
        None
    } else if s[0] < 128 {
        if count == 9 && s[0] >= 2 {
            None
        } else {
            Some((s[0] as u64, 1nat))
        }
    } else {
        match spec_decode_varint_from(s.skip(1), count + 1) {
            Some((v, n)) => Some((((s[0] - 128) + 128 * v) as u64, n + 1)),
            None => None,
        }
    }
}

/// Reads one varint from the front of `s`: its value and the number of bytes
/// it takes.
pub open spec fn spec_decode_varint(s: Seq<u8>) -> Option<(u64, nat)> {
    spec_decode_varint_from(s, 0)
}

/// What a successful read returns stays below the limit of its position and
/// uses between one and ten bytes, none beyond the input.
pub proof fn lemma_decode_varint_bounds(s: Seq<u8>, count: nat)
    ensures
        match spec_decode_varint_from(s, count) {
            Some((v, n)) => v < varint_limit(count) && 1 <= n <= s.len() && n + count <= 10,
            None => true,
        },
    decreases s.len(),
{
    if s.len() == 0 || count >= 10 {
    } else if s[0] < 128 {
    } else {
        lemma_decode_varint_bounds(s.skip(1), count + 1);
    }
}

/// Reading back an encoded value gives the value, whatever follows it.
pub proof fn lemma_varint_roundtrip(v: u64, rest: Seq<u8>, count: nat)
    requires
        v < varint_limit(count),
        count <= 9,
    ensures
        spec_decode_varint_from(spec_encode_varint(v) + rest, count) == Some(
            (v, spec_encode_varint(v).len()),
        ),
        1 <= spec_encode_varint(v).len() <= 10 - count,
    decreases v,
{
    let enc = spec_encode_varint(v);
    if v < 128 {
        assert((enc + rest)[0] == v as u8);
    } else {
        let tail = spec_encode_varint(v / 128);
        assert((enc + rest)[0] == ((v % 128) + 128) as u8);
        assert((enc + rest).skip(1) =~= tail + rest);
        lemma_varint_roundtrip(v / 128, rest, count + 1);
    }
}

/// Appends the canonical encoding of `value` to `out`.
pub fn encode_varint(value: u64, out: &mut Vec<u8>)
    ensures
        final(out)@ == old(out)@ + spec_encode_varint(value),
{
    let ghost start = out@;
    let mut v: u64 = value;
    while v >= 128
        invariant
            out@ + spec_encode_varint(v) == start + spec_encode_varint(value),
        decreases v,
    {
        let ghost before = out@;
        out.push(((v % 128) + 128) as u8);
        assert(out@ + spec_encode_varint(v / 128) =~= before + spec_encode_varint(v));
        v = v / 128;
    }
    let ghost before = out@;
    out.push(v as u8);
    assert(out@ =~= before + spec_encode_varint(v));
}

/// Reads one varint at `pos`, `count` bytes of it having been read before.
fn decode_varint_from(buf: &[u8], pos: usize, count: u8) -> (r: Option<(u64, usize)>)
    requires
        pos <= buf.len(),
    ensures
        match r {
            Some((v, n)) => spec_decode_varint_from(buf@.skip(pos as int), count as nat) == Some(
                (v, n as nat),
            ) && v < varint_limit(count as nat) && 1 <= n && pos + n <= buf.len(),
            None => spec_decode_varint_from(buf@.skip(pos as int), count as nat) is None,
        },
    decreases buf.len() - pos,
{
    if pos >= buf.len() || count >= 10 {
        return None;
    }
    let b: u8 = buf[pos];
    assert(buf@.skip(pos as int)[0] == b);
    if b < 128 {
        if count == 9 && b >= 2 {
            None
        } else {
            Some((b as u64, 1))
        }
    } else {
        assert(buf@.skip(pos as int).skip(1) =~= buf@.skip(pos + 1));
        match decode_varint_from(buf, pos + 1, count + 1) {
            Some((v, n)) => Some(((b - 128) as u64 + 128 * v, n + 1)),
            None => None,
        }
    }
}

/// Reads one varint at `pos`: its value and the number of bytes it takes.
pub fn decode_varint(buf: &[u8], pos: usize) -> (r: Option<(u64, usize)>)
    requires
        pos <= buf.len(),
    ensures
        match r {
            Some((v, n)) => spec_decode_varint(buf@.skip(pos as int)) == Some((v, n as nat)) && 1
                <= n <= 10 && pos + n <= buf.len(),
            None => spec_decode_varint(buf@.skip(pos as int)) is None,
        },
{
    proof {
        lemma_decode_varint_bounds(buf@.skip(pos as int), 0);
    }
    decode_varint_from(buf, pos, 0)
}


/// Largest field number that a key can carry.
pub const MAX_FIELD_NUMBER: u32 = 0x1fff_ffff;

/// The payload of one field, by wire type: 0 varint, 1 eight bytes little
/// endian, 2 length-delimited, 5 four bytes little endian.
#[derive(Clone, Debug, PartialEq, Eq)]
pub enum WireValue {
    Varint(u64),
    Fixed64(u64),
    Bytes(Vec<u8>),
    Fixed32(u32),
}

/// One field of a message as it stands on the wire.
#[derive(Clone, Debug, PartialEq, Eq)]
pub struct Field {
    pub number: u32,
    pub value: WireValue,
}

/// What a [`WireValue`] holds, as mathematical values.
pub enum SpecWireValue {
    Varint(u64),
    Fixed64(u64),
    Bytes(Seq<u8>),
    Fixed32(u32),
}

/// What a [`Field`] holds, as mathematical values.
pub struct SpecField {
    pub number: u32,
    pub value: SpecWireValue,
}

impl View for WireValue {
    type V = SpecWireValue;

    open spec fn view(&self) -> SpecWireValue {
        match *self {
            WireValue::Varint(v) => SpecWireValue::Varint(v),
            WireValue::Fixed64(v) => SpecWireValue::Fixed64(v),
            WireValue::Bytes(b) => SpecWireValue::Bytes(b@),
            WireValue::Fixed32(v) => SpecWireValue::Fixed32(v),
        }
    }
}

impl View for Field {
    type V = SpecField;

    open spec fn view(&self) -> SpecField {
        SpecField { number: self.number, value: self.value@ }
    }
}

/// The fields of `v`, each by its view.
pub open spec fn fields_view(v: Seq<Field>) -> Seq<SpecField> {
    Seq::new(v.len(), |i: int| v[i]@)
}

impl SpecWireValue {
    /// The number that stands for this wire type in a key.
    pub open spec fn wire_type(self) -> int {
        match self {
            SpecWireValue::Varint(_) => 0,
            SpecWireValue::Fixed64(_) => 1,
            SpecWireValue::Bytes(_) => 2,
            SpecWireValue::Fixed32(_) => 5,
        }
    }
}

impl SpecField {
    /// A field that can be written: its number fits a key.
    pub open spec fn valid(self) -> bool {
        1 <= self.number <= MAX_FIELD_NUMBER
    }

    /// The key of the field: its number, shifted by three bits, and its wire
    /// type.
    pub open spec fn key(self) -> u64 {
        (self.number * 8 + self.value.wire_type()) as u64
    }
}

/// The bytes of one field: its key, then the payload in the form of its wire
/// type.
pub open spec fn spec_encode_field(f: SpecField) -> Seq<u8> {
    spec_encode_varint(f.key()) + match f.value {
        SpecWireValue::Varint(v) => spec_encode_varint(v),
        SpecWireValue::Fixed64(v) => spec_u64_to_le_bytes(v),
        SpecWireValue::Bytes(b) => spec_encode_varint(b.len() as u64) + b,
        SpecWireValue::Fixed32(v) => spec_u32_to_le_bytes(v),
    }
}

/// The bytes of a message: its fields one after the other.
pub open spec fn spec_encode_fields(fs: Seq<SpecField>) -> Seq<u8>
    decreases fs.len(),
{
    if fs.len() == 0 {
        Seq::empty()
    } else {
        spec_encode_field(fs[0]) + spec_encode_fields(fs.skip(1))
    }
}

/// Reads one field from the front of `s`: the field and the number of bytes it
/// takes. A key above 32 bits, the field number 0, the group wire types 3 and 4,
/// the undefined wire types 6 and 7 and a payload cut short are rejected.
pub open spec fn spec_parse_field(s: Seq<u8>) -> Option<(SpecField, nat)> {
    match spec_decode_varint(s) {
        None => None,
        Some((key, n)) => {
            let body = s.skip(n as int);
            let number = (key / 8) as u32;
            if key > 0xffff_ffff || key / 8 < 1 {
                None
            } else if key % 8 == 0 {
                match spec_decode_varint(body) {
                    Some((v, m)) => Some(
                        (SpecField { number, value: SpecWireValue::Varint(v) }, n + m),
                    ),
                    None => None,
                }
            } else if key % 8 == 1 {
                if body.len() < 8 {
                    None
                } else {
                    Some(
                        (
                            SpecField {
                                number,
                                value: SpecWireValue::Fixed64(
                                    spec_u64_from_le_bytes(body.subrange(0, 8)),
                                ),
                            },
                            n + 8,
                        ),
                    )
                }
            } else if key % 8 == 2 {
                match spec_decode_varint(body) {
                    Some((len, m)) => if len > body.len() - m {
                        None
                    } else {
                        Some(
                            (
                                SpecField {
                                    number,
                                    value: SpecWireValue::Bytes(
                                        body.subrange(m as int, m + len),
                                    ),
                                },
                                n + m + len as nat,
                            ),
                        )
                    },
                    None => None,
                }
            } else if key % 8 == 5 {
                if body.len() < 4 {
                    None
                } else {
                    Some(
                        (
                            SpecField {
                                number,
                                value: SpecWireValue::Fixed32(
                                    spec_u32_from_le_bytes(body.subrange(0, 4)),
                                ),
                            },
                            n + 4,
                        ),
                    )
                }
            } else {
                None
            }
        },
    }
}

/// Reads a whole message: fields until the input is used up. One field that
/// does not parse rejects the message.
pub open spec fn spec_parse_fields(s: Seq<u8>) -> Option<Seq<SpecField>>
    decreases s.len(),
{
    if s.len() == 0 {
        Some(Seq::empty())
    } else {
        match spec_parse_field(s) {
            None => None,
            Some((f, n)) => if 1 <= n <= s.len() {
                match spec_parse_fields(s.skip(n as int)) {
                    None => None,
                    Some(rest) => Some(seq![f] + rest),
                }
            } else {
                None
            },
        }
    }
}

/// A parsed field has a valid number and takes at least two bytes, none beyond
/// the input.
pub proof fn lemma_parse_field_bounds(s: Seq<u8>)
    ensures
        match spec_parse_field(s) {
            Some((f, n)) => f.valid() && 2 <= n <= s.len(),
            None => true,
        },
{
    lemma_decode_varint_bounds(s, 0);
    match spec_decode_varint(s) {
        None => {},
        Some((key, n)) => {
            lemma_decode_varint_bounds(s.skip(n as int), 0);
        },
    }
}

/// Every field of a parsed message has a valid number.
pub proof fn lemma_parse_fields_valid(s: Seq<u8>)
    ensures
        match spec_parse_fields(s) {
            Some(fs) => forall|i: int| 0 <= i < fs.len() ==> (#[trigger] fs[i]).valid(),
            None => true,
        },
    decreases s.len(),
{
    if s.len() > 0 {
        lemma_parse_field_bounds(s);
        match spec_parse_field(s) {
            None => {},
            Some((f, n)) => {
                lemma_parse_fields_valid(s.skip(n as int));
            },
        }
    }
}

/// Reading back a written field gives the field, whatever follows it.
pub proof fn lemma_field_roundtrip(f: SpecField, rest: Seq<u8>)
    requires
        f.valid(),
        f.value matches SpecWireValue::Bytes(b) ==> b.len() <= u64::MAX,
    ensures
        spec_parse_field(spec_encode_field(f) + rest) == Some((f, spec_encode_field(f).len())),
        spec_encode_field(f).len() >= 2,
{
    let key = f.key();
    let kenc = spec_encode_varint(key);
    let enc = spec_encode_field(f);
    let s = enc + rest;
    assert(key / 8 == f.number && key % 8 == f.value.wire_type());
    match f.value {
        SpecWireValue::Varint(v) => {
            let venc = spec_encode_varint(v);
            assert(s =~= kenc + (venc + rest));
            lemma_varint_roundtrip(key, venc + rest, 0);
            assert(s.skip(kenc.len() as int) =~= venc + rest);
            lemma_varint_roundtrip(v, rest, 0);
        },
        SpecWireValue::Fixed64(v) => {
            let venc = spec_u64_to_le_bytes(v);
            lemma_auto_spec_u64_to_from_le_bytes();
            assert(s =~= kenc + (venc + rest));
            lemma_varint_roundtrip(key, venc + rest, 0);
            assert(s.skip(kenc.len() as int) =~= venc + rest);
            assert((venc + rest).subrange(0, 8) =~= venc);
        },
        SpecWireValue::Bytes(b) => {
            let lenc = spec_encode_varint(b.len() as u64);
            assert(s =~= kenc + (lenc + (b + rest)));
            lemma_varint_roundtrip(key, lenc + (b + rest), 0);
            assert(s.skip(kenc.len() as int) =~= lenc + (b + rest));
            lemma_varint_roundtrip(b.len() as u64, b + rest, 0);
            let from = lenc.len() as int;
            assert((lenc + (b + rest)).subrange(from, from + b.len()) =~= b);
        },
        SpecWireValue::Fixed32(v) => {
            let venc = spec_u32_to_le_bytes(v);
            lemma_auto_spec_u32_to_from_le_bytes();
            assert(s =~= kenc + (venc + rest));
            lemma_varint_roundtrip(key, venc + rest, 0);
            assert(s.skip(kenc.len() as int) =~= venc + rest);
            assert((venc + rest).subrange(0, 4) =~= venc);
        },
    }
}

/// A message can be written when each field can and no payload is longer than
/// a length prefix can say.
#[verifier::opaque]
pub open spec fn fields_valid(fs: Seq<SpecField>) -> bool {
    forall|i: int|
        0 <= i < fs.len() ==> {
            &&& (#[trigger] fs[i]).valid()
            &&& fs[i].value matches SpecWireValue::Bytes(b) ==> b.len() <= u64::MAX
        }
}

/// Reading back a written message gives its fields, in their order.
pub proof fn lemma_fields_roundtrip(fs: Seq<SpecField>)
    requires
        fields_valid(fs),
    ensures
        spec_parse_fields(spec_encode_fields(fs)) == Some(fs),
    decreases fs.len(),
{
    reveal(fields_valid);
    if fs.len() == 0 {
        assert(fs =~= Seq::empty());
    } else {
        let rest = spec_encode_fields(fs.skip(1));
        let head = spec_encode_field(fs[0]);
        assert(fs[0].valid());
        lemma_field_roundtrip(fs[0], rest);
        assert((head + rest).skip(head.len() as int) =~= rest);
        assert forall|i: int| 0 <= i < fs.skip(1).len() implies {
            &&& (#[trigger] fs.skip(1)[i]).valid()
            &&& fs.skip(1)[i].value matches SpecWireValue::Bytes(b) ==> b.len() <= u64::MAX
        } by {
            assert(fs.skip(1)[i] == fs[i + 1]);
        }
        lemma_fields_roundtrip(fs.skip(1));
        assert(seq![fs[0]] + fs.skip(1) =~= fs);
    }
}

/// Two lists of fields one after the other can be written when both can.
pub broadcast proof fn lemma_valid_concat(a: Seq<SpecField>, b: Seq<SpecField>)
    ensures
        #[trigger] fields_valid(a + b) == (fields_valid(a) && fields_valid(b)),
{
    reveal(fields_valid);
    if fields_valid(a + b) {
        assert forall|i: int| 0 <= i < a.len() implies {
            &&& (#[trigger] a[i]).valid()
            &&& a[i].value matches SpecWireValue::Bytes(b) ==> b.len() <= u64::MAX
        } by {
            assert((a + b)[i] == a[i]);
        }
        assert forall|i: int| 0 <= i < b.len() implies {
            &&& (#[trigger] b[i]).valid()
            &&& b[i].value matches SpecWireValue::Bytes(x) ==> x.len() <= u64::MAX
        } by {
            assert((a + b)[a.len() + i] == b[i]);
        }
    }
    if fields_valid(a) && fields_valid(b) {
        assert forall|i: int| 0 <= i < (a + b).len() implies {
            &&& (#[trigger] (a + b)[i]).valid()
            &&& (a + b)[i].value matches SpecWireValue::Bytes(x) ==> x.len() <= u64::MAX
        } by {
            if i < a.len() {
                assert((a + b)[i] == a[i]);
            } else {
                assert((a + b)[i] == b[i - a.len()]);
            }
        }
    }
}

/// Writing one more field appends its bytes.
pub proof fn lemma_encode_fields_push(fs: Seq<SpecField>, f: SpecField)
    ensures
        spec_encode_fields(fs.push(f)) == spec_encode_fields(fs) + spec_encode_field(f),
    decreases fs.len(),
{
    if fs.len() == 0 {
        assert(fs.push(f).skip(1) =~= Seq::empty());
        assert(spec_encode_fields(fs.push(f).skip(1)) =~= Seq::empty());
        assert(spec_encode_fields(fs.push(f)) =~= spec_encode_field(f));
    } else {
        assert(fs.push(f).skip(1) =~= fs.skip(1).push(f));
        lemma_encode_fields_push(fs.skip(1), f);
        assert(spec_encode_fields(fs.push(f)) =~= spec_encode_fields(fs) + spec_encode_field(f));
    }
}

/// Writing two lists of fields one after the other writes their concatenation.
pub broadcast proof fn lemma_encode_fields_concat(a: Seq<SpecField>, b: Seq<SpecField>)
    ensures
        #[trigger] spec_encode_fields(a + b) == spec_encode_fields(a) + spec_encode_fields(b),
    decreases b.len(),
{
    if b.len() == 0 {
        assert(a + b =~= a);
        assert(spec_encode_fields(a) + spec_encode_fields(b) =~= spec_encode_fields(a));
    } else {
        let init = b.drop_last();
        lemma_encode_fields_concat(a, init);
        lemma_encode_fields_push(a + init, b.last());
        lemma_encode_fields_push(init, b.last());
        assert((a + init).push(b.last()) =~= a + b);
        assert(init.push(b.last()) =~= b);
        assert(spec_encode_fields(a + b) =~= spec_encode_fields(a) + spec_encode_fields(b));
    }
}


/// Appends `data` to `out`.
pub fn append_bytes(out: &mut Vec<u8>, data: &[u8])
    ensures
        final(out)@ == old(out)@ + data@,
{
    let ghost start = out@;
    let mut i: usize = 0;
    while i < data.len()
        invariant
            i <= data.len(),
            out@ == start + data@.subrange(0, i as int),
        decreases data.len() - i,
    {
        out.push(data[i]);
        i = i + 1;
        assert(out@ =~= start + data@.subrange(0, i as int));
    }
    assert(data@.subrange(0, i as int) =~= data@);
}

/// A copy of the bytes of `data` from `from` up to `to`.
pub(crate) fn copy_range(data: &[u8], from: usize, to: usize) -> (out: Vec<u8>)
    requires
        from <= to <= data.len(),
    ensures
        out@ == data@.subrange(from as int, to as int),
{
    let mut out: Vec<u8> = Vec::new();
    let mut i: usize = from;
    while i < to
        invariant
            from <= i <= to <= data.len(),
            out@ == data@.subrange(from as int, i as int),
        decreases to - i,
    {
        out.push(data[i]);
        i = i + 1;
        assert(out@ =~= data@.subrange(from as int, i as int));
    }
    out
}

/// Appends one field to `out`.
pub fn encode_field(field: &Field, out: &mut Vec<u8>)
    requires
        field@.valid(),
    ensures
        final(out)@ == old(out)@ + spec_encode_field(field@),
{
    let ghost start = out@;
    let number: u64 = field.number as u64;
    match &field.value {
        WireValue::Varint(v) => {
            encode_varint(number * 8, out);
            encode_varint(*v, out);
        },
        WireValue::Fixed64(v) => {
            encode_varint(number * 8 + 1, out);
            let raw = u64_to_le_bytes(*v);
            append_bytes(out, raw.as_slice());
        },
        WireValue::Bytes(b) => {
            encode_varint(number * 8 + 2, out);
            encode_varint(b.len() as u64, out);
            append_bytes(out, b.as_slice());
        },
        WireValue::Fixed32(v) => {
            encode_varint(number * 8 + 5, out);
            let raw = u32_to_le_bytes(*v);
            append_bytes(out, raw.as_slice());
        },
    }
    assert(out@ =~= start + spec_encode_field(field@));
}

/// Appends the fields of a message to `out`, in their order.
pub fn encode_fields(fields: &Vec<Field>, out: &mut Vec<u8>)
    requires
        forall|i: int| 0 <= i < fields@.len() ==> (#[trigger] fields@[i])@.valid(),
    ensures
        final(out)@ == old(out)@ + spec_encode_fields(fields_view(fields@)),
{
    let ghost start = out@;
    let ghost all = fields_view(fields@);
    let mut i: usize = 0;
    assert(all.subrange(0, 0) =~= Seq::empty());
    while i < fields.len()
        invariant
            i <= fields.len(),
            all == fields_view(fields@),
            forall|k: int| 0 <= k < fields@.len() ==> (#[trigger] fields@[k])@.valid(),
            out@ == start + spec_encode_fields(all.subrange(0, i as int)),
        decreases fields.len() - i,
    {
        encode_field(&fields[i], out);
        proof {
            lemma_encode_fields_push(all.subrange(0, i as int), all[i as int]);
            assert(all.subrange(0, i as int).push(all[i as int]) =~= all.subrange(0, i + 1));
        }
        i = i + 1;
    }
    assert(all.subrange(0, i as int) =~= all);
}

/// Reads one field at `pos`: the field and the number of bytes it takes.
pub fn parse_field(buf: &[u8], pos: usize) -> (r: Option<(Field, usize)>)
    requires
        pos <= buf.len(),
    ensures
        match r {
            Some((f, n)) => spec_parse_field(buf@.skip(pos as int)) == Some((f@, n as nat)) && 2
                <= n && pos + n <= buf.len(),
            None => spec_parse_field(buf@.skip(pos as int)) is None,
        },
{
    let ghost s = buf@.skip(pos as int);
    let (key, n) = match decode_varint(buf, pos) {
        None => { return None; },
        Some(kn) => kn,
    };
    if key > 0xffff_ffff || key / 8 < 1 {
        return None;
    }
    let number: u32 = (key / 8) as u32;
    let kind: u64 = key % 8;
    let at: usize = pos + n;
    assert(s.skip(n as int) =~= buf@.skip(at as int));
    let ghost body = buf@.skip(at as int);
    if kind == 0 {
        match decode_varint(buf, at) {
            None => None,
            Some((v, m)) => Some((Field { number, value: WireValue::Varint(v) }, n + m)),
        }
    } else if kind == 1 {
        if buf.len() - at < 8 {
            None
        } else {
            let raw = slice_subrange(buf, at, at + 8);
            assert(raw@ =~= body.subrange(0, 8));
            Some((Field { number, value: WireValue::Fixed64(u64_from_le_bytes(raw)) }, n + 8))
        }
    } else if kind == 2 {
        match decode_varint(buf, at) {
            None => None,
            Some((len, m)) => {
                if len > (buf.len() - at - m) as u64 {
                    None
                } else {
                    let from: usize = at + m;
                    let to: usize = from + len as usize;
                    let data = copy_range(buf, from, to);
                    assert(data@ =~= body.subrange(m as int, m + len));
                    Some((Field { number, value: WireValue::Bytes(data) }, n + m + len as usize))
                }
            },
        }
    } else if kind == 5 {
        if buf.len() - at < 4 {
            None
        } else {
            let raw = slice_subrange(buf, at, at + 4);
            assert(raw@ =~= body.subrange(0, 4));
            Some((Field { number, value: WireValue::Fixed32(u32_from_le_bytes(raw)) }, n + 4))
        }
    } else {
        None
    }
}

/// What a message parses to from `pos` on, given what it parses to after one
/// more field.
proof fn lemma_parse_fields_step(s: Seq<u8>, pos: int, f: SpecField, n: nat)
    requires
        0 <= pos < s.len(),
        spec_parse_field(s.skip(pos)) == Some((f, n)),
    ensures
        1 <= n <= s.len() - pos,
        spec_parse_fields(s.skip(pos)) == match spec_parse_fields(s.skip(pos + n)) {
            None => None,
            Some(rest) => Some(seq![f] + rest),
        },
{
    lemma_parse_field_bounds(s.skip(pos));
    assert(s.skip(pos).skip(n as int) =~= s.skip(pos + n));
}

/// Reads a whole message. `None` when some field does not parse.
pub fn parse_fields(buf: &[u8]) -> (r: Option<Vec<Field>>)
    ensures
        match r {
            Some(fs) => spec_parse_fields(buf@) == Some(fields_view(fs@)) && forall|i: int|
                0 <= i < fs@.len() ==> (#[trigger] fs@[i])@.valid(),
            None => spec_parse_fields(buf@) is None,
        },
{
    proof {
        lemma_parse_fields_valid(buf@);
    }
    let mut fields: Vec<Field> = Vec::new();
    let mut pos: usize = 0;
    assert(buf@.skip(0) =~= buf@);
    assert(fields_view(fields@) =~= Seq::empty());
    while pos < buf.len()
        invariant
            pos <= buf.len(),
            spec_parse_fields(buf@) matches Some(all) ==> forall|i: int|
                0 <= i < all.len() ==> (#[trigger] all[i]).valid(),
            spec_parse_fields(buf@) == match spec_parse_fields(buf@.skip(pos as int)) {
                None => None,
                Some(rest) => Some(fields_view(fields@) + rest),
            },
        decreases buf.len() - pos,
    {
        let ghost before = fields_view(fields@);
        match parse_field(buf, pos) {
            None => {
                return None;
            },
            Some((f, n)) => {
                proof {
                    lemma_parse_fields_step(buf@, pos as int, f@, n as nat);
                    match spec_parse_fields(buf@.skip(pos + n)) {
                        None => {},
                        Some(rest) => {
                            assert(before + (seq![f@] + rest) =~= before.push(f@) + rest);
                        },
                    }
                }
                fields.push(f);
                assert(fields_view(fields@) =~= before.push(f@));
                pos = pos + n;
            },
        }
    }
    assert(spec_parse_fields(buf@.skip(pos as int)) == Some(Seq::<SpecField>::empty()));
    assert(fields_view(fields@) + Seq::<SpecField>::empty() =~= fields_view(fields@));
    assert forall|i: int| 0 <= i < fields@.len() implies (#[trigger] fields@[i])@.valid() by {
        assert(fields_view(fields@)[i] == fields@[i]@);
    }
    Some(fields)
}

} // verus!
