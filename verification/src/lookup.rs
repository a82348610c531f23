//! Reading typed fields out of a parsed message: the last occurrence of a
//! singular field, every occurrence of a repeated one, and the check that a
//! field number is only used with the wire type its schema gives it.

use crate::wire::{copy_range, fields_view, Field, SpecField, SpecWireValue, WireValue};
use vstd::prelude::*;

verus! {

/// The wire type of a varint.
pub const WIRE_VARINT: u8 = 0;

/// The wire type of a length-delimited payload.
pub const WIRE_BYTES: u8 = 2;

/// The view of optional bytes.
pub open spec fn opt_bytes_view(o: Option<Vec<u8>>) -> Option<Seq<u8>> {
    match o {
        Some(b) => Some(b@),
        None => None,
    }
}

/// The view of a list of byte strings.
pub open spec fn bytes_list_view(v: Seq<Vec<u8>>) -> Seq<Seq<u8>> {
    Seq::new(v.len(), |i: int| v[i]@)
}

/// Optional bytes, empty where there are none.
pub open spec fn or_empty(value: Option<Seq<u8>>) -> Seq<u8> {
    match value {
        Some(b) => b,
        None => Seq::empty(),
    }
}

/// A copy of optional bytes, empty where there are none.
pub fn bytes_or_empty(value: &Option<Vec<u8>>) -> (bytes: Vec<u8>)
    ensures
        bytes@ == or_empty(opt_bytes_view(*value)),
{
    match value {
        Some(b) => {
            let copy = copy_range(b.as_slice(), 0, b.len());
            assert(copy@ =~= b@);
            copy
        },
        None => Vec::new(),
    }
}

/// Whether optional bytes are short enough for a length prefix.
pub open spec fn opt_fits(value: Option<Seq<u8>>) -> bool {
    value matches Some(b) ==> b.len() <= u64::MAX
}

/// Whether each of the byte strings is short enough for a length prefix.
pub open spec fn all_fit(values: Seq<Seq<u8>>) -> bool {
    forall|i: int| 0 <= i < values.len() ==> (#[trigger] values[i]).len() <= u64::MAX
}

/// Bytes held in memory are short enough for a length prefix.
pub proof fn lemma_opt_bytes_fit(value: Option<Vec<u8>>)
    ensures
        opt_fits(opt_bytes_view(value)),
{
    if let Some(b) = value {
        assert(b.len() == b@.len());
    }
}

/// Byte strings held in memory are short enough for a length prefix.
pub proof fn lemma_bytes_list_fit(values: Seq<Vec<u8>>)
    ensures
        all_fit(bytes_list_view(values)),
{
    assert forall|i: int| 0 <= i < values.len() implies (#[trigger] bytes_list_view(
        values,
    )[i]).len() <= u64::MAX by {
        assert(values[i].len() == values[i]@.len());
    }
}

/// The payload of the last field numbered `number`: where a singular field
/// stands more than once, the last one counts.
pub open spec fn spec_last_value(fs: Seq<SpecField>, number: u32) -> Option<SpecWireValue>
    decreases fs.len(),
{
    if fs.len() == 0 {
        None
    } else if fs.last().number == number {
        Some(fs.last().value)
    } else {
        spec_last_value(fs.drop_last(), number)
    }
}

/// Whether every field numbered `number` has the wire type `kind`.
#[verifier::opaque]
pub open spec fn spec_typed(fs: Seq<SpecField>, number: u32, kind: int) -> bool {
    forall|i: int|
        0 <= i < fs.len() && (#[trigger] fs[i]).number == number ==> fs[i].value.wire_type()
            == kind
}

/// The last length-delimited payload under `number`, if the field is there.
pub open spec fn spec_bytes_field(fs: Seq<SpecField>, number: u32) -> Option<Seq<u8>> {
    match spec_last_value(fs, number) {
        Some(SpecWireValue::Bytes(b)) => Some(b),
        _ => None,
    }
}

/// The last varint under `number`, if the field is there.
pub open spec fn spec_varint_field(fs: Seq<SpecField>, number: u32) -> Option<u64> {
    match spec_last_value(fs, number) {
        Some(SpecWireValue::Varint(v)) => Some(v),
        _ => None,
    }
}

/// Every length-delimited payload under `number`, in the order of the message.
pub open spec fn spec_repeated_bytes(fs: Seq<SpecField>, number: u32) -> Seq<Seq<u8>>
    decreases fs.len(),
{
    if fs.len() == 0 {
        Seq::empty()
    } else {
        let before = spec_repeated_bytes(fs.drop_last(), number);
        match fs.last().value {
            SpecWireValue::Bytes(b) => if fs.last().number == number {
                before.push(b)
            } else {
                before
            },
            _ => before,
        }
    }
}

/// In two lists of fields one after the other, the last value is that of the
/// second list where it has one.
pub broadcast proof fn lemma_last_value_concat(a: Seq<SpecField>, b: Seq<SpecField>, number: u32)
    ensures
        #[trigger] spec_last_value(a + b, number) == match spec_last_value(b, number) {
            Some(v) => Some(v),
            None => spec_last_value(a, number),
        },
    decreases b.len(),
{
    if b.len() == 0 {
        assert(a + b =~= a);
    } else {
        assert((a + b).drop_last() =~= a + b.drop_last());
        assert((a + b).last() == b.last());
        lemma_last_value_concat(a, b.drop_last(), number);
    }
}

/// Two lists of fields one after the other are typed when both are.
pub broadcast proof fn lemma_typed_concat(
    a: Seq<SpecField>,
    b: Seq<SpecField>,
    number: u32,
    kind: int,
)
    ensures
        #[trigger] spec_typed(a + b, number, kind) == (spec_typed(a, number, kind) && spec_typed(
            b,
            number,
            kind,
        )),
{
    reveal(spec_typed);
    if spec_typed(a + b, number, kind) {
        assert forall|i: int|
            0 <= i < a.len() && (#[trigger] a[i]).number == number implies a[i].value.wire_type()
            == kind by {
            assert((a + b)[i] == a[i]);
        }
        assert forall|i: int|
            0 <= i < b.len() && (#[trigger] b[i]).number == number implies b[i].value.wire_type()
            == kind by {
            assert((a + b)[a.len() + i] == b[i]);
        }
    }
    if spec_typed(a, number, kind) && spec_typed(b, number, kind) {
        assert forall|i: int|
            0 <= i < (a + b).len() && (#[trigger] (a + b)[i]).number == number implies (a
            + b)[i].value.wire_type() == kind by {
            if i < a.len() {
                assert((a + b)[i] == a[i]);
            } else {
                assert((a + b)[i] == b[i - a.len()]);
            }
        }
    }
}

/// The repeated payloads of two lists of fields one after the other.
pub broadcast proof fn lemma_repeated_bytes_concat(
    a: Seq<SpecField>,
    b: Seq<SpecField>,
    number: u32,
)
    ensures
        #[trigger] spec_repeated_bytes(a + b, number) == spec_repeated_bytes(a, number)
            + spec_repeated_bytes(b, number),
    decreases b.len(),
{
    if b.len() == 0 {
        assert(a + b =~= a);
        assert(spec_repeated_bytes(a, number) + spec_repeated_bytes(b, number)
            =~= spec_repeated_bytes(a, number));
    } else {
        assert((a + b).drop_last() =~= a + b.drop_last());
        assert((a + b).last() == b.last());
        lemma_repeated_bytes_concat(a, b.drop_last(), number);
        assert(spec_repeated_bytes(a + b, number) =~= spec_repeated_bytes(a, number)
            + spec_repeated_bytes(b, number));
    }
}

/// Whether every field numbered `number` has the wire type `kind`.
pub fn all_typed(fields: &Vec<Field>, number: u32, kind: u8) -> (ok: bool)
    ensures
        ok == spec_typed(fields_view(fields@), number, kind as int),
{
    reveal(spec_typed);
    let ghost all = fields_view(fields@);
    let mut i: usize = 0;
    while i < fields.len()
        invariant
            i <= fields.len(),
            all == fields_view(fields@),
            forall|k: int|
                0 <= k < i && (#[trigger] all[k]).number == number ==> all[k].value.wire_type()
                    == kind,
        decreases fields.len() - i,
    {
        let field = &fields[i];
        assert(all[i as int] == field@);
        if field.number == number {
            let found: u8 = match &field.value {
                WireValue::Varint(_) => 0,
                WireValue::Fixed64(_) => 1,
                WireValue::Bytes(_) => 2,
                WireValue::Fixed32(_) => 5,
            };
            if found != kind {
                proof {
                    reveal(spec_typed);
                }
                return false;
            }
        }
        i = i + 1;
    }
    proof {
        reveal(spec_typed);
    }
    true
}

/// Index of the last field numbered `number`.
fn last_index(fields: &Vec<Field>, number: u32) -> (r: Option<usize>)
    ensures
        match r {
            Some(i) => i < fields.len() && spec_last_value(fields_view(fields@), number) == Some(
                fields@[i as int]@.value,
            ),
            None => spec_last_value(fields_view(fields@), number) is None,
        },
{
    let ghost all = fields_view(fields@);
    let mut i: usize = fields.len();
    assert(all.subrange(0, i as int) =~= all);
    while i > 0
        invariant
            i <= fields.len(),
            all == fields_view(fields@),
            spec_last_value(all, number) == spec_last_value(all.subrange(0, i as int), number),
        decreases i,
    {
        let ghost prefix = all.subrange(0, i as int);
        assert(prefix.last() == fields@[i - 1]@);
        assert(prefix.drop_last() =~= all.subrange(0, i - 1));
        if fields[i - 1].number == number {
            return Some(i - 1);
        }
        i = i - 1;
    }
    None
}

/// A copy of the last length-delimited payload under `number`.
pub fn last_bytes(fields: &Vec<Field>, number: u32) -> (r: Option<Vec<u8>>)
    ensures
        opt_bytes_view(r) == spec_bytes_field(fields_view(fields@), number),
{
    match last_index(fields, number) {
        None => None,
        Some(i) => match &fields[i].value {
            WireValue::Bytes(b) => {
                let copy = copy_range(b.as_slice(), 0, b.len());
                assert(copy@ =~= b@);
                Some(copy)
            },
            _ => None,
        },
    }
}

/// The last varint under `number`.
pub fn last_varint(fields: &Vec<Field>, number: u32) -> (r: Option<u64>)
    ensures
        r == spec_varint_field(fields_view(fields@), number),
{
    match last_index(fields, number) {
        None => None,
        Some(i) => match &fields[i].value {
            WireValue::Varint(v) => Some(*v),
            _ => None,
        },
    }
}

/// Copies of every length-delimited payload under `number`, in the order of the
/// message.
pub fn all_bytes(fields: &Vec<Field>, number: u32) -> (r: Vec<Vec<u8>>)
    ensures
        bytes_list_view(r@) == spec_repeated_bytes(fields_view(fields@), number),
{
    let ghost all = fields_view(fields@);
    let mut found: Vec<Vec<u8>> = Vec::new();
    let mut i: usize = 0;
    assert(all.subrange(0, 0) =~= Seq::empty());
    assert(bytes_list_view(found@) =~= Seq::empty());
    while i < fields.len()
        invariant
            i <= fields.len(),
            all == fields_view(fields@),
            bytes_list_view(found@) == spec_repeated_bytes(all.subrange(0, i as int), number),
        decreases fields.len() - i,
    {
        let ghost prefix = all.subrange(0, i + 1);
        let ghost before = bytes_list_view(found@);
        assert(prefix.last() == fields@[i as int]@);
        assert(prefix.drop_last() =~= all.subrange(0, i as int));
        let field = &fields[i];
        if field.number == number {
            match &field.value {
                WireValue::Bytes(b) => {
                    let copy = copy_range(b.as_slice(), 0, b.len());
                    assert(copy@ =~= b@);
                    found.push(copy);
                    assert(bytes_list_view(found@) =~= before.push(b@));
                },
                _ => {},
            }
        }
        i = i + 1;
    }
    assert(all.subrange(0, i as int) =~= all);
    found
}

} // verus!
