use widevine::wire::{
    decode_varint, encode_field, encode_fields, encode_varint, parse_field, parse_fields, Field,
    WireValue,
};

fn varint(value: u64) -> Vec<u8> {
    let mut out = Vec::new();
    encode_varint(value, &mut out);
    out
}

#[test]
fn varint_three_hundred() {
    let mut out = Vec::new();
    encode_varint(300, &mut out);
    assert_eq!(out, vec![0xac, 0x02]);
    assert_eq!(decode_varint(&out, 0), Some((300, 2)));
}

#[test]
fn varint_small_values_take_one_byte() {
    assert_eq!(varint(0), vec![0x00]);
    assert_eq!(varint(1), vec![0x01]);
    assert_eq!(varint(127), vec![0x7f]);
    assert_eq!(varint(128), vec![0x80, 0x01]);
}

#[test]
fn varint_largest_value_takes_ten_bytes() {
    let bytes = varint(u64::MAX);
    assert_eq!(bytes, vec![0xff, 0xff, 0xff, 0xff, 0xff, 0xff, 0xff, 0xff, 0xff, 0x01]);
    assert_eq!(decode_varint(&bytes, 0), Some((u64::MAX, 10)));
}

#[test]
fn varint_appends_to_what_is_there() {
    let mut out = vec![0xaa];
    encode_varint(300, &mut out);
    assert_eq!(out, vec![0xaa, 0xac, 0x02]);
    assert_eq!(decode_varint(&out, 1), Some((300, 2)));
}

#[test]
fn varint_agrees_with_prost() {
    let values: [u64; 12] = [
        0,
        1,
        127,
        128,
        300,
        16383,
        16384,
        0xffff_ffff,
        0x1_0000_0000,
        0x7fff_ffff_ffff_ffff,
        0x8000_0000_0000_0000,
        u64::MAX,
    ];
    for value in values {
        let mine = varint(value);
        let mut theirs: Vec<u8> = Vec::new();
        prost::encoding::encode_varint(value, &mut theirs);
        assert_eq!(mine, theirs);
        assert_eq!(decode_varint(&mine, 0), Some((value, mine.len())));
        let mut slice: &[u8] = &theirs;
        assert_eq!(prost::encoding::decode_varint(&mut slice).ok(), Some(value));
    }
}

#[test]
fn varint_rejections_agree_with_prost() {
    let inputs: Vec<Vec<u8>> = vec![
        vec![],
        vec![0x80],
        vec![0xff, 0xff],
        vec![0xff, 0xff, 0xff, 0xff, 0xff, 0xff, 0xff, 0xff, 0xff, 0x02],
        vec![0xff, 0xff, 0xff, 0xff, 0xff, 0xff, 0xff, 0xff, 0xff, 0x7f],
        vec![0x80, 0x80, 0x80, 0x80, 0x80, 0x80, 0x80, 0x80, 0x80, 0x80, 0x00],
        vec![0x80, 0x00],
        vec![0x81, 0x80, 0x00],
        vec![0xff, 0xff, 0xff, 0xff, 0xff, 0xff, 0xff, 0xff, 0xff, 0x01, 0x55],
    ];
    for input in inputs {
        let mut slice: &[u8] = &input;
        let theirs = prost::encoding::decode_varint(&mut slice).ok();
        let mine = decode_varint(&input, 0).map(|(value, _)| value);
        assert_eq!(mine, theirs, "{:?}", input);
    }
}

#[test]
fn varint_padded_encoding_is_read() {
    assert_eq!(decode_varint(&[0x80, 0x00], 0), Some((0, 2)));
    assert_eq!(decode_varint(&[0x81, 0x80, 0x00], 0), Some((1, 3)));
}

#[test]
fn varint_of_eleven_bytes_is_refused() {
    let bytes = [0x80, 0x80, 0x80, 0x80, 0x80, 0x80, 0x80, 0x80, 0x80, 0x80, 0x00];
    assert_eq!(decode_varint(&bytes, 0), None);
}

#[test]
fn varint_tenth_byte_above_one_is_refused() {
    let bytes = [0xff, 0xff, 0xff, 0xff, 0xff, 0xff, 0xff, 0xff, 0xff, 0x02];
    assert_eq!(decode_varint(&bytes, 0), None);
}

#[test]
fn varint_cut_short_is_refused() {
    assert_eq!(decode_varint(&[], 0), None);
    assert_eq!(decode_varint(&[0x80], 0), None);
    assert_eq!(decode_varint(&[0x01], 1), None);
}

#[test]
fn field_of_each_wire_type_is_written() {
    let mut out = Vec::new();
    encode_field(&Field { number: 1, value: WireValue::Varint(150) }, &mut out);
    assert_eq!(out, vec![0x08, 0x96, 0x01]);

    let mut out = Vec::new();
    encode_field(&Field { number: 2, value: WireValue::Bytes(b"testing".to_vec()) }, &mut out);
    assert_eq!(out, vec![0x12, 0x07, 0x74, 0x65, 0x73, 0x74, 0x69, 0x6e, 0x67]);

    let mut out = Vec::new();
    encode_field(&Field { number: 3, value: WireValue::Fixed64(0x0102030405060708) }, &mut out);
    assert_eq!(out, vec![0x19, 0x08, 0x07, 0x06, 0x05, 0x04, 0x03, 0x02, 0x01]);

    let mut out = Vec::new();
    encode_field(&Field { number: 4, value: WireValue::Fixed32(0x01020304) }, &mut out);
    assert_eq!(out, vec![0x25, 0x04, 0x03, 0x02, 0x01]);
}

#[test]
fn field_key_agrees_with_prost() {
    let numbers: [u32; 6] = [1, 2, 15, 16, 2047, 0x1fff_ffff];
    for number in numbers {
        let mut mine = Vec::new();
        encode_field(&Field { number, value: WireValue::Bytes(vec![7, 8]) }, &mut mine);
        let mut theirs: Vec<u8> = Vec::new();
        prost::encoding::bytes::encode(number, &vec![7u8, 8u8], &mut theirs);
        assert_eq!(mine, theirs);

        let mut mine = Vec::new();
        encode_field(&Field { number, value: WireValue::Varint(77) }, &mut mine);
        let mut theirs: Vec<u8> = Vec::new();
        prost::encoding::uint64::encode(number, &77u64, &mut theirs);
        assert_eq!(mine, theirs);
    }
}

#[test]
fn field_is_read_at_a_position() {
    let bytes = [0xff, 0x08, 0x96, 0x01, 0x12, 0x00];
    assert_eq!(
        parse_field(&bytes, 1),
        Some((Field { number: 1, value: WireValue::Varint(150) }, 3))
    );
    assert_eq!(
        parse_field(&bytes, 4),
        Some((Field { number: 2, value: WireValue::Bytes(vec![]) }, 2))
    );
}

#[test]
fn field_number_zero_is_refused() {
    assert_eq!(parse_field(&[0x00, 0x01], 0), None);
    assert_eq!(parse_fields(&[0x02, 0x00]), None);
}

#[test]
fn field_groups_and_unknown_wire_types_are_refused() {
    assert_eq!(parse_fields(&[0x0b, 0x0c]), None);
    assert_eq!(parse_fields(&[0x0c]), None);
    assert_eq!(parse_fields(&[0x0e, 0x00]), None);
    assert_eq!(parse_fields(&[0x0f, 0x00]), None);
}

#[test]
fn field_key_above_32_bits_is_refused() {
    // the key 2^32 + 8: field 1 as a varint, were it not for the high bit
    assert_eq!(parse_fields(&[0x88, 0x80, 0x80, 0x80, 0x10, 0x00]), None);
    assert_eq!(
        parse_fields(&[0xf8, 0xff, 0xff, 0xff, 0x0f, 0x05]),
        Some(vec![Field { number: 0x1fff_ffff, value: WireValue::Varint(5) }])
    );
}

#[test]
fn field_cut_short_is_refused() {
    assert_eq!(parse_fields(&[0x08]), None);
    assert_eq!(parse_fields(&[0x12, 0x02, 0x01]), None);
    assert_eq!(parse_fields(&[0x19, 0x01, 0x02, 0x03, 0x04, 0x05, 0x06, 0x07]), None);
    assert_eq!(parse_fields(&[0x25, 0x01, 0x02, 0x03]), None);
    assert_eq!(parse_fields(&[0x12, 0xff, 0xff, 0xff, 0xff, 0xff, 0xff, 0xff, 0xff, 0xff, 0x01]), None);
}

#[test]
fn message_without_fields_is_empty() {
    assert_eq!(parse_fields(&[]), Some(vec![]));
    let mut out = Vec::new();
    encode_fields(&vec![], &mut out);
    assert_eq!(out, Vec::<u8>::new());
}

#[test]
fn message_reads_back_as_written() {
    let fields = vec![
        Field { number: 1, value: WireValue::Varint(0) },
        Field { number: 7, value: WireValue::Bytes(vec![1, 2, 3]) },
        Field { number: 1, value: WireValue::Varint(u64::MAX) },
        Field { number: 300, value: WireValue::Fixed64(0xdead_beef_0000_0001) },
        Field { number: 0x1fff_ffff, value: WireValue::Fixed32(0xffff_ffff) },
        Field { number: 5, value: WireValue::Bytes(vec![0; 200]) },
    ];
    let mut out = Vec::new();
    encode_fields(&fields, &mut out);
    assert_eq!(parse_fields(&out), Some(fields));
}
