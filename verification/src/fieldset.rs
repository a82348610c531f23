//! Writing typed fields: the fields that an optional or repeated value of a
//! message stands for, their bytes, and how the readers of a message see them
//! again.

use crate::lookup::{
    all_fit, bytes_list_view, lemma_last_value_concat, lemma_repeated_bytes_concat,
    lemma_typed_concat, opt_bytes_view, spec_last_value, spec_repeated_bytes, spec_typed,
};
use crate::wire::{
    append_bytes, encode_varint, fields_valid, lemma_encode_fields_concat,
    lemma_encode_fields_push, lemma_valid_concat, spec_encode_field, spec_encode_fields,
    SpecField, SpecWireValue, MAX_FIELD_NUMBER,
};
use vstd::prelude::*;

verus! {

/// The view of an optional value.
pub open spec fn opt_view<T: View>(o: Option<T>) -> Option<T::V> {
    match o {
        Some(t) => Some(t@),
        None => None,
    }
}

/// The field that optional bytes stand for: none where they are absent.
pub open spec fn opt_bytes_field(number: u32, value: Option<Seq<u8>>) -> Seq<SpecField> {
    match value {
        Some(b) => seq![SpecField { number, value: SpecWireValue::Bytes(b) }],
        None => Seq::empty(),
    }
}

/// The field that an optional varint stands for: none where it is absent.
pub open spec fn opt_varint_field(number: u32, value: Option<u64>) -> Seq<SpecField> {
    match value {
        Some(v) => seq![SpecField { number, value: SpecWireValue::Varint(v) }],
        None => Seq::empty(),
    }
}

/// The fields that repeated bytes stand for: one for each, in their order.
pub open spec fn repeated_bytes_fields(number: u32, values: Seq<Seq<u8>>) -> Seq<SpecField> {
    Seq::new(
        values.len(),
        |i: int| SpecField { number, value: SpecWireValue::Bytes(values[i]) },
    )
}

/// The bytes of a message of one field are the bytes of that field, and a
/// message without fields has no bytes.
pub proof fn lemma_encode_one(f: SpecField)
    ensures
        spec_encode_fields(seq![f]) == spec_encode_field(f),
        spec_encode_fields(Seq::empty()) == Seq::<u8>::empty(),
{
    assert(seq![f].skip(1) =~= Seq::empty());
    assert(spec_encode_fields(seq![f].skip(1)) =~= Seq::<u8>::empty());
    assert(spec_encode_fields(seq![f]) =~= spec_encode_field(f));
}

/// What the readers find in the fields of optional bytes.
pub broadcast proof fn lemma_read_opt_bytes(number: u32, value: Option<Seq<u8>>, other: u32)
    ensures
        #[trigger] spec_last_value(opt_bytes_field(number, value), other) == (if other == number {
            match value {
                Some(b) => Some(SpecWireValue::Bytes(b)),
                None => None,
            }
        } else {
            None
        }),
{
    let fs = opt_bytes_field(number, value);
    if value is Some {
        assert(fs.drop_last() =~= Seq::empty());
        assert(spec_last_value(fs.drop_last(), other) is None);
    }
}

/// What the readers find in the fields of an optional varint.
pub broadcast proof fn lemma_read_opt_varint(number: u32, value: Option<u64>, other: u32)
    ensures
        #[trigger] spec_last_value(opt_varint_field(number, value), other) == (if other
            == number {
            match value {
                Some(v) => Some(SpecWireValue::Varint(v)),
                None => None,
            }
        } else {
            None
        }),
{
    let fs = opt_varint_field(number, value);
    if value is Some {
        assert(fs.drop_last() =~= Seq::empty());
        assert(spec_last_value(fs.drop_last(), other) is None);
    }
}

/// The fields of optional bytes are typed for every number: as bytes under
/// their own, and not at all under another.
pub broadcast proof fn lemma_typed_opt_bytes(
    number: u32,
    value: Option<Seq<u8>>,
    other: u32,
    kind: int,
)
    ensures
        #[trigger] spec_typed(opt_bytes_field(number, value), other, kind) == (other != number
            || value is None || kind == 2),
{
    reveal(spec_typed);
    let fs = opt_bytes_field(number, value);
    if value is Some && other == number && kind != 2 {
        assert(fs[0].number == number);
    }
}

/// The fields of an optional varint are typed for every number: as a varint
/// under their own, and not at all under another.
pub broadcast proof fn lemma_typed_opt_varint(
    number: u32,
    value: Option<u64>,
    other: u32,
    kind: int,
)
    ensures
        #[trigger] spec_typed(opt_varint_field(number, value), other, kind) == (other != number
            || value is None || kind == 0),
{
    reveal(spec_typed);
    let fs = opt_varint_field(number, value);
    if value is Some && other == number && kind != 0 {
        assert(fs[0].number == number);
    }
}

/// The fields of repeated bytes are typed for every number.
pub broadcast proof fn lemma_typed_repeated_bytes(
    number: u32,
    values: Seq<Seq<u8>>,
    other: u32,
    kind: int,
)
    ensures
        #[trigger] spec_typed(repeated_bytes_fields(number, values), other, kind) == (other
            != number || values.len() == 0 || kind == 2),
{
    reveal(spec_typed);
    let fs = repeated_bytes_fields(number, values);
    if values.len() > 0 && other == number && kind != 2 {
        assert(fs[0].number == number);
    }
}

/// What the readers find in the fields of repeated bytes: under their number
/// all of them, under another none.
pub broadcast proof fn lemma_read_repeated_bytes(number: u32, values: Seq<Seq<u8>>, other: u32)
    ensures
        #[trigger] spec_repeated_bytes(repeated_bytes_fields(number, values), other) == (if other
            == number {
            values
        } else {
            Seq::empty()
        }),
        other != number ==> spec_last_value(repeated_bytes_fields(number, values), other) is None,
    decreases values.len(),
{
    let fs = repeated_bytes_fields(number, values);
    if values.len() > 0 {
        assert(fs.drop_last() =~= repeated_bytes_fields(number, values.drop_last()));
        lemma_read_repeated_bytes(number, values.drop_last(), other);
        if other == number {
            assert(values.drop_last().push(values.last()) =~= values);
        }
    }
}

/// The last value in the fields of repeated bytes: under their number the last
/// of them, under another none.
pub broadcast proof fn lemma_last_in_repeated_bytes(
    number: u32,
    values: Seq<Seq<u8>>,
    other: u32,
)
    ensures
        #[trigger] spec_last_value(repeated_bytes_fields(number, values), other) == (if other
            == number && values.len() > 0 {
            Some(SpecWireValue::Bytes(values.last()))
        } else {
            None
        }),
    decreases values.len(),
{
    let fs = repeated_bytes_fields(number, values);
    if values.len() > 0 {
        assert(fs.drop_last() =~= repeated_bytes_fields(number, values.drop_last()));
        lemma_last_in_repeated_bytes(number, values.drop_last(), other);
    }
}

/// Optional bytes hold no repeated payload under another number, and at most
/// their own under theirs.
pub broadcast proof fn lemma_repeated_in_opt_bytes(
    number: u32,
    value: Option<Seq<u8>>,
    other: u32,
)
    ensures
        #[trigger] spec_repeated_bytes(opt_bytes_field(number, value), other) == (if other
            == number && value is Some {
            seq![value->0]
        } else {
            Seq::empty()
        }),
{
    let fs = opt_bytes_field(number, value);
    if value is Some {
        assert(fs.drop_last() =~= Seq::empty());
        assert(spec_repeated_bytes(fs.drop_last(), other) =~= Seq::empty());
        if other == number {
            assert(Seq::<Seq<u8>>::empty().push(value->0) =~= seq![value->0]);
        }
    }
}

/// An optional varint holds no repeated payload.
pub broadcast proof fn lemma_repeated_in_opt_varint(number: u32, value: Option<u64>, other: u32)
    ensures
        #[trigger] spec_repeated_bytes(opt_varint_field(number, value), other) == Seq::<
            Seq<u8>,
        >::empty(),
{
    let fs = opt_varint_field(number, value);
    if value is Some {
        assert(fs.drop_last() =~= Seq::empty());
        assert(spec_repeated_bytes(fs.drop_last(), other) =~= Seq::empty());
    }
}

/// Optional bytes can be written when they fit a length prefix and the number
/// fits a key.
pub broadcast proof fn lemma_valid_opt_bytes(number: u32, value: Option<Seq<u8>>)
    ensures
        #[trigger] fields_valid(opt_bytes_field(number, value)) == (value matches Some(b) ==> 1
            <= number <= MAX_FIELD_NUMBER && b.len() <= u64::MAX),
{
    reveal(fields_valid);
    let fs = opt_bytes_field(number, value);
    if value is Some && fields_valid(fs) {
        assert(fs[0].valid());
    }
}

/// An optional varint can be written when the number fits a key.
pub broadcast proof fn lemma_valid_opt_varint(number: u32, value: Option<u64>)
    ensures
        #[trigger] fields_valid(opt_varint_field(number, value)) == (value is Some ==> 1 <= number
            <= MAX_FIELD_NUMBER),
{
    reveal(fields_valid);
    let fs = opt_varint_field(number, value);
    if value is Some && fields_valid(fs) {
        assert(fs[0].valid());
    }
}

/// Repeated bytes can be written when each fits a length prefix and the number
/// fits a key.
pub broadcast proof fn lemma_valid_repeated_bytes(number: u32, values: Seq<Seq<u8>>)
    requires
        1 <= number <= MAX_FIELD_NUMBER,
        all_fit(values),
    ensures
        #[trigger] fields_valid(repeated_bytes_fields(number, values)),
{
    reveal(fields_valid);
    let fs = repeated_bytes_fields(number, values);
    assert forall|i: int| 0 <= i < fs.len() implies {
        &&& (#[trigger] fs[i]).valid()
        &&& fs[i].value matches SpecWireValue::Bytes(b) ==> b.len() <= u64::MAX
    } by {
        assert(values[i].len() <= u64::MAX);
    }
}

/// A 32-bit signed number as the varint that carries it: sign-extended to 64
/// bits.
pub open spec fn spec_raw_int32(value: Option<i32>) -> Option<u64> {
    match value {
        Some(v) => Some(v as u64),
        None => None,
    }
}

/// The 32-bit signed number that a varint carries: its low 32 bits.
pub open spec fn spec_int32(raw: Option<u64>) -> Option<i32> {
    match raw {
        Some(v) => Some(v as i32),
        None => None,
    }
}

/// A 64-bit signed number as the varint that carries it.
pub open spec fn spec_raw_int64(value: Option<i64>) -> Option<u64> {
    match value {
        Some(v) => Some(v as u64),
        None => None,
    }
}

/// The 64-bit signed number that a varint carries.
pub open spec fn spec_int64(raw: Option<u64>) -> Option<i64> {
    match raw {
        Some(v) => Some(v as i64),
        None => None,
    }
}

/// A 32-bit unsigned number as the varint that carries it.
pub open spec fn spec_raw_uint32(value: Option<u32>) -> Option<u64> {
    match value {
        Some(v) => Some(v as u64),
        None => None,
    }
}

/// The 32-bit unsigned number that a varint carries: its low 32 bits.
pub open spec fn spec_uint32(raw: Option<u64>) -> Option<u32> {
    match raw {
        Some(v) => Some(v as u32),
        None => None,
    }
}

/// A number survives being carried by a varint.
pub broadcast proof fn lemma_int32_roundtrip(value: Option<i32>)
    ensures
        #[trigger] spec_int32(spec_raw_int32(value)) == value,
{
    if let Some(v) = value {
        assert((v as u64) as i32 == v) by (bit_vector);
    }
}

/// A number survives being carried by a varint.
pub broadcast proof fn lemma_int64_roundtrip(value: Option<i64>)
    ensures
        #[trigger] spec_int64(spec_raw_int64(value)) == value,
{
    if let Some(v) = value {
        assert((v as u64) as i64 == v) by (bit_vector);
    }
}

/// A number survives being carried by a varint.
pub broadcast proof fn lemma_uint32_roundtrip(value: Option<u32>)
    ensures
        #[trigger] spec_uint32(spec_raw_uint32(value)) == value,
{
    if let Some(v) = value {
        assert((v as u64) as u32 == v) by (bit_vector);
    }
}

/// The varint that carries a 32-bit signed number.
pub fn raw_int32(value: Option<i32>) -> (raw: Option<u64>)
    ensures
        raw == spec_raw_int32(value),
{
    match value {
        Some(v) => Some(v as u64),
        None => None,
    }
}

/// The 32-bit signed number that a varint carries.
pub fn int32(raw: Option<u64>) -> (value: Option<i32>)
    ensures
        value == spec_int32(raw),
{
    match raw {
        Some(v) => Some(#[verifier::truncate] (v as i32)),
        None => None,
    }
}

/// The varint that carries a 64-bit signed number.
pub fn raw_int64(value: Option<i64>) -> (raw: Option<u64>)
    ensures
        raw == spec_raw_int64(value),
{
    match value {
        Some(v) => Some(v as u64),
        None => None,
    }
}

/// The 64-bit signed number that a varint carries.
pub fn int64(raw: Option<u64>) -> (value: Option<i64>)
    ensures
        value == spec_int64(raw),
{
    match raw {
        Some(v) => Some(#[verifier::truncate] (v as i64)),
        None => None,
    }
}

/// The varint that carries a 32-bit unsigned number.
pub fn raw_uint32(value: Option<u32>) -> (raw: Option<u64>)
    ensures
        raw == spec_raw_uint32(value),
{
    match value {
        Some(v) => Some(v as u64),
        None => None,
    }
}

/// The 32-bit unsigned number that a varint carries.
pub fn uint32(raw: Option<u64>) -> (value: Option<u32>)
    ensures
        value == spec_uint32(raw),
{
    match raw {
        Some(v) => Some(#[verifier::truncate] (v as u32)),
        None => None,
    }
}

/// How the bytes of a list of fields are put together.
pub broadcast group group_write {
    lemma_encode_fields_concat,
}

/// What it takes for a list of fields to be written.
pub broadcast group group_valid {
    lemma_valid_concat,
    lemma_valid_opt_bytes,
    lemma_valid_opt_varint,
}

/// Which wire types a list of fields holds under a number.
pub broadcast group group_typed {
    lemma_typed_concat,
    lemma_typed_opt_bytes,
    lemma_typed_opt_varint,
    lemma_typed_repeated_bytes,
}

/// What the readers of singular fields find in a list of fields.
pub broadcast group group_read {
    lemma_last_value_concat,
    lemma_read_opt_bytes,
    lemma_read_opt_varint,
    lemma_last_in_repeated_bytes,
}

/// Numbers survive being carried by a varint.
pub broadcast group group_numbers {
    lemma_int32_roundtrip,
    lemma_int64_roundtrip,
    lemma_uint32_roundtrip,
}

/// What the readers of repeated fields find in a list of fields.
pub broadcast group group_repeated {
    lemma_repeated_bytes_concat,
    lemma_read_repeated_bytes,
    lemma_repeated_in_opt_bytes,
    lemma_repeated_in_opt_varint,
}

/// Appends a length-delimited field.
pub fn put_bytes(out: &mut Vec<u8>, number: u32, data: &[u8])
    requires
        1 <= number <= MAX_FIELD_NUMBER,
    ensures
        final(out)@ == old(out)@ + spec_encode_fields(opt_bytes_field(number, Some(data@))),
{
    let ghost start = out@;
    let ghost field = SpecField { number, value: SpecWireValue::Bytes(data@) };
    encode_varint(number as u64 * 8 + 2, out);
    encode_varint(data.len() as u64, out);
    append_bytes(out, data);
    proof {
        lemma_encode_one(field);
        assert(out@ =~= start + spec_encode_field(field));
    }
}

/// Appends a length-delimited field where there is a value.
pub fn put_opt_bytes(out: &mut Vec<u8>, number: u32, value: &Option<Vec<u8>>)
    requires
        1 <= number <= MAX_FIELD_NUMBER,
    ensures
        final(out)@ == old(out)@ + spec_encode_fields(
            opt_bytes_field(number, opt_bytes_view(*value)),
        ),
{
    match value {
        Some(data) => {
            put_bytes(out, number, data.as_slice());
        },
        None => {
            proof {
                lemma_encode_one(SpecField { number, value: SpecWireValue::Varint(0) });
                assert(out@ =~= out@ + Seq::<u8>::empty());
            }
        },
    }
}

/// Appends a varint field where there is a value.
pub fn put_opt_varint(out: &mut Vec<u8>, number: u32, value: Option<u64>)
    requires
        1 <= number <= MAX_FIELD_NUMBER,
    ensures
        final(out)@ == old(out)@ + spec_encode_fields(opt_varint_field(number, value)),
{
    let ghost start = out@;
    match value {
        Some(v) => {
            let ghost field = SpecField { number, value: SpecWireValue::Varint(v) };
            encode_varint(number as u64 * 8, out);
            encode_varint(v, out);
            proof {
                lemma_encode_one(field);
                assert(out@ =~= start + spec_encode_field(field));
            }
        },
        None => {
            proof {
                lemma_encode_one(SpecField { number, value: SpecWireValue::Varint(0) });
                assert(out@ =~= out@ + Seq::<u8>::empty());
            }
        },
    }
}

/// Appends one length-delimited field for each of the values, in their order.
pub fn put_repeated_bytes(out: &mut Vec<u8>, number: u32, values: &Vec<Vec<u8>>)
    requires
        1 <= number <= MAX_FIELD_NUMBER,
    ensures
        final(out)@ == old(out)@ + spec_encode_fields(
            repeated_bytes_fields(number, bytes_list_view(values@)),
        ),
{
    let ghost start = out@;
    let ghost all = repeated_bytes_fields(number, bytes_list_view(values@));
    let mut i: usize = 0;
    proof {
        lemma_encode_one(SpecField { number, value: SpecWireValue::Varint(0) });
        assert(all.subrange(0, 0) =~= Seq::empty());
        assert(out@ =~= start + Seq::<u8>::empty());
    }
    while i < values.len()
        invariant
            i <= values.len(),
            1 <= number <= MAX_FIELD_NUMBER,
            all == repeated_bytes_fields(number, bytes_list_view(values@)),
            out@ == start + spec_encode_fields(all.subrange(0, i as int)),
        decreases values.len() - i,
    {
        let ghost before = out@;
        put_bytes(out, number, values[i].as_slice());
        proof {
            let field = all[i as int];
            lemma_encode_one(field);
            assert(opt_bytes_field(number, Some(values@[i as int]@)) =~= seq![field]);
            lemma_encode_fields_push(all.subrange(0, i as int), field);
            assert(all.subrange(0, i as int).push(field) =~= all.subrange(0, i + 1));
            assert(out@ =~= start + spec_encode_fields(all.subrange(0, i + 1)));
        }
        i = i + 1;
    }
    assert(all.subrange(0, i as int) =~= all);
}

} // verus!
