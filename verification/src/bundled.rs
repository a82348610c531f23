//! What the bundled service certificate holds: it reads as a signed message
//! around a signed certificate around a certificate that names its provider.

use crate::certificate::{SpecDrmCertificate, SpecSignedDrmCertificate};
use crate::constants::{spec_common_service_certificate, COMMON_SERVICE_CERTIFICATE};
use crate::license_request::SpecEncryptedClientIdentification;
use crate::lookup::{or_empty, spec_last_value, spec_typed};
use crate::request::spec_sealed_for;
use crate::session::spec_certificate_of;
use crate::signed_message::SpecSignedMessage;
use crate::wire::{
    fields_valid, lemma_encode_fields_push, lemma_fields_roundtrip, spec_encode_field,
    spec_encode_fields, spec_encode_varint, spec_parse_fields, SpecField, SpecWireValue,
};
use vstd::prelude::*;
use vstd::utf8::{encode_utf8, encode_utf8_valid_utf8, is_ascii_chars_encode_utf8, valid_utf8};

verus! {

/// The provider that the bundled certificate was issued to, as bytes.
pub open spec fn spec_bundled_provider() -> Seq<u8> {
    encode_utf8("license.widevine.com"@)
}

/// The bytes of a message of two fields.
proof fn lemma_encode_two(a: SpecField, b: SpecField)
    ensures
        spec_encode_fields(seq![a, b]) == spec_encode_field(a) + spec_encode_field(b),
{
    let empty = Seq::<SpecField>::empty();
    lemma_encode_fields_push(empty, a);
    lemma_encode_fields_push(empty.push(a), b);
    assert(empty.push(a).push(b) =~= seq![a, b]);
    assert(spec_encode_fields(empty) =~= Seq::<u8>::empty());
    assert(spec_encode_fields(seq![a, b]) =~= spec_encode_field(a) + spec_encode_field(b));
}

/// A message of 716 bytes that begins as the bundled one does is no signed
/// certificate, and is a signed message whose inner message is what follows
/// its first five bytes.
proof fn lemma_outer_layer(s: Seq<u8>)
    requires
        s.len() == 716,
        s[0] == 0x08,
        s[1] == 0x05,
        s[2] == 0x12,
        s[3] == 0xc7,
        s[4] == 0x05,
    ensures
        SpecSignedDrmCertificate::decode(s) is None,
        SpecSignedMessage::decode(s) matches Some(message) && message.msg == Some(
            s.subrange(5, 716),
        ),
{
    reveal_with_fuel(spec_encode_varint, 3);
    reveal_with_fuel(spec_last_value, 3);
    reveal(fields_valid);
    reveal(spec_typed);
    let kind = SpecField { number: 1, value: SpecWireValue::Varint(5) };
    let inner = SpecField { number: 2, value: SpecWireValue::Bytes(s.subrange(5, 716)) };
    let fs = seq![kind, inner];
    lemma_encode_two(kind, inner);
    assert(spec_encode_varint(8) =~= seq![0x08u8]);
    assert(spec_encode_varint(5) =~= seq![0x05u8]);
    assert(spec_encode_varint(18) =~= seq![0x12u8]);
    assert(spec_encode_varint(711) =~= seq![0xc7u8, 0x05u8]);
    assert(spec_encode_field(kind) =~= seq![0x08u8, 0x05u8]);
    assert(spec_encode_field(inner) =~= seq![0x12u8, 0xc7u8, 0x05u8] + s.subrange(5, 716));
    assert(s =~= spec_encode_fields(fs));
    lemma_fields_roundtrip(fs);
    assert(fs[0].number == 1 && fs[0].value.wire_type() == 0);
    assert(!spec_typed(fs, 1, 2));
    assert(fs.drop_last() =~= seq![kind]);
    assert(seq![kind].drop_last() =~= Seq::<SpecField>::empty());
}

/// A message of 711 bytes that is laid out as the signed certificate of the
/// bundled one is a signed certificate, whose certificate is its bytes 3 to
/// 323.
proof fn lemma_middle_layer(m: Seq<u8>)
    requires
        m.len() == 711,
        m[0] == 0x0a,
        m[1] == 0xc1,
        m[2] == 0x02,
        m[324] == 0x12,
        m[325] == 0x80,
        m[326] == 0x03,
    ensures
        SpecSignedDrmCertificate::decode(m) matches Some(signed) && signed.drm_certificate == Some(
            m.subrange(3, 324),
        ),
{
    reveal_with_fuel(spec_encode_varint, 3);
    reveal_with_fuel(spec_last_value, 3);
    reveal(fields_valid);
    reveal(spec_typed);
    let certificate = SpecField { number: 1, value: SpecWireValue::Bytes(m.subrange(3, 324)) };
    let signature = SpecField { number: 2, value: SpecWireValue::Bytes(m.subrange(327, 711)) };
    let fs = seq![certificate, signature];
    lemma_encode_two(certificate, signature);
    assert(spec_encode_varint(10) =~= seq![0x0au8]);
    assert(spec_encode_varint(18) =~= seq![0x12u8]);
    assert(spec_encode_varint(321) =~= seq![0xc1u8, 0x02u8]);
    assert(spec_encode_varint(384) =~= seq![0x80u8, 0x03u8]);
    assert(spec_encode_field(certificate) =~= seq![0x0au8, 0xc1u8, 0x02u8] + m.subrange(3, 324));
    assert(spec_encode_field(signature) =~= seq![0x12u8, 0x80u8, 0x03u8] + m.subrange(327, 711));
    assert(m =~= spec_encode_fields(fs));
    lemma_fields_roundtrip(fs);
    assert(fs.drop_last() =~= seq![certificate]);
    assert(seq![certificate].drop_last() =~= Seq::<SpecField>::empty());
}

/// The fields of the certificate inside the bundled one, given its bytes.
spec fn inner_fields(d: Seq<u8>) -> Seq<SpecField> {
    seq![
        SpecField { number: 1, value: SpecWireValue::Varint(3) },
        SpecField { number: 2, value: SpecWireValue::Bytes(d.subrange(4, 20)) },
        SpecField { number: 3, value: SpecWireValue::Varint(1379965442) },
        SpecField { number: 4, value: SpecWireValue::Bytes(d.subrange(29, 299)) },
        SpecField { number: 7, value: SpecWireValue::Bytes(d.subrange(301, 321)) },
    ]
}

/// A message of 321 bytes that is laid out as the certificate inside the
/// bundled one reads as its five fields.
proof fn lemma_inner_fields(d: Seq<u8>)
    requires
        d.len() == 321,
        d[0] == 0x08,
        d[1] == 0x03,
        d[2] == 0x12,
        d[3] == 0x10,
        d[20] == 0x18,
        d[21] == 0x82,
        d[22] == 0xb4,
        d[23] == 0x82,
        d[24] == 0x92,
        d[25] == 0x05,
        d[26] == 0x22,
        d[27] == 0x8e,
        d[28] == 0x02,
        d[299] == 0x3a,
        d[300] == 0x14,
    ensures
        spec_parse_fields(d) == Some(inner_fields(d)),
{
    reveal_with_fuel(spec_encode_varint, 6);
    reveal(fields_valid);
    let fs = inner_fields(d);
    let empty = Seq::<SpecField>::empty();
    lemma_encode_fields_push(empty, fs[0]);
    lemma_encode_fields_push(empty.push(fs[0]), fs[1]);
    lemma_encode_fields_push(empty.push(fs[0]).push(fs[1]), fs[2]);
    lemma_encode_fields_push(empty.push(fs[0]).push(fs[1]).push(fs[2]), fs[3]);
    lemma_encode_fields_push(empty.push(fs[0]).push(fs[1]).push(fs[2]).push(fs[3]), fs[4]);
    assert(empty.push(fs[0]).push(fs[1]).push(fs[2]).push(fs[3]).push(fs[4]) =~= fs);
    assert(spec_encode_fields(empty) =~= Seq::<u8>::empty());
    assert(spec_encode_varint(8) =~= seq![0x08u8]);
    assert(spec_encode_varint(3) =~= seq![0x03u8]);
    assert(spec_encode_varint(18) =~= seq![0x12u8]);
    assert(spec_encode_varint(16) =~= seq![0x10u8]);
    assert(spec_encode_varint(24) =~= seq![0x18u8]);
    assert(spec_encode_varint(1379965442) =~= seq![0x82u8, 0xb4u8, 0x82u8, 0x92u8, 0x05u8]);
    assert(spec_encode_varint(34) =~= seq![0x22u8]);
    assert(spec_encode_varint(270) =~= seq![0x8eu8, 0x02u8]);
    assert(spec_encode_varint(58) =~= seq![0x3au8]);
    assert(spec_encode_varint(20) =~= seq![0x14u8]);
    assert(spec_encode_field(fs[0]) =~= seq![0x08u8, 0x03u8]);
    assert(spec_encode_field(fs[1]) =~= seq![0x12u8, 0x10u8] + d.subrange(4, 20));
    assert(spec_encode_field(fs[2]) =~= seq![0x18u8, 0x82u8, 0xb4u8, 0x82u8, 0x92u8, 0x05u8]);
    assert(spec_encode_field(fs[3]) =~= seq![0x22u8, 0x8eu8, 0x02u8] + d.subrange(29, 299));
    assert(spec_encode_field(fs[4]) =~= seq![0x3au8, 0x14u8] + d.subrange(301, 321));
    assert(d =~= spec_encode_fields(fs));
    lemma_fields_roundtrip(fs);
}

/// A message of 321 bytes that is laid out as the certificate inside the
/// bundled one is a certificate, whose provider is its last 20 bytes.
proof fn lemma_inner_layer(d: Seq<u8>)
    requires
        d.len() == 321,
        d[0] == 0x08,
        d[1] == 0x03,
        d[2] == 0x12,
        d[3] == 0x10,
        d[20] == 0x18,
        d[21] == 0x82,
        d[22] == 0xb4,
        d[23] == 0x82,
        d[24] == 0x92,
        d[25] == 0x05,
        d[26] == 0x22,
        d[27] == 0x8e,
        d[28] == 0x02,
        d[299] == 0x3a,
        d[300] == 0x14,
        valid_utf8(d.subrange(301, 321)),
    ensures
        SpecDrmCertificate::decode(d) matches Some(certificate) && certificate.provider_id == Some(
            d.subrange(301, 321),
        ),
{
    lemma_inner_fields(d);
    reveal_with_fuel(spec_last_value, 6);
    reveal(spec_typed);
    let fs = inner_fields(d);
    let f4 = fs.drop_last();
    let f3 = f4.drop_last();
    let f2 = f3.drop_last();
    let f1 = f2.drop_last();
    assert(f4.len() == 4 && f3.len() == 3 && f2.len() == 2 && f1.len() == 1);
    assert(f4.last() == fs[3] && f3.last() == fs[2] && f2.last() == fs[1] && f1.last() == fs[0]);
    assert(f1.drop_last() =~= Seq::<SpecField>::empty());
    assert(spec_last_value(fs, 7) == Some(fs[4].value));
}

/// The bundled service certificate reads, bare or wrapped, as a signed
/// certificate whose certificate names `license.widevine.com` as its provider.
pub proof fn lemma_bundled_certificate()
    ensures
        ({
            &&& spec_certificate_of(spec_common_service_certificate()) matches Some(signed)
            &&& SpecDrmCertificate::decode(or_empty(signed.drm_certificate)) matches Some(
                certificate,
            )
            &&& certificate.provider_id == Some(spec_bundled_provider())
        }),
{
    reveal(spec_common_service_certificate);
    let c = COMMON_SERVICE_CERTIFICATE@;
    assert(c.len() == 716);
    assert(c[0] == 0x08 && c[1] == 0x05 && c[2] == 0x12 && c[3] == 0xc7 && c[4] == 0x05);
    lemma_outer_layer(c);
    let m = c.subrange(5, 716);
    assert(m[0] == c[5] && m[1] == c[6] && m[2] == c[7]);
    assert(m[324] == c[329] && m[325] == c[330] && m[326] == c[331]);
    assert(c[5] == 0x0a && c[6] == 0xc1 && c[7] == 0x02);
    assert(c[329] == 0x12 && c[330] == 0x80 && c[331] == 0x03);
    lemma_middle_layer(m);
    let d = m.subrange(3, 324);
    assert(d =~= c.subrange(8, 329));
    assert(c[8] == 0x08 && c[9] == 0x03 && c[10] == 0x12 && c[11] == 0x10);
    assert(c[28] == 0x18 && c[29] == 0x82 && c[30] == 0xb4 && c[31] == 0x82 && c[32] == 0x92
        && c[33] == 0x05);
    assert(c[34] == 0x22 && c[35] == 0x8e && c[36] == 0x02);
    assert(c[307] == 0x3a && c[308] == 0x14);
    let name = "license.widevine.com"@;
    reveal_strlit("license.widevine.com");
    is_ascii_chars_encode_utf8(name);
    encode_utf8_valid_utf8(name);
    let provider = d.subrange(301, 321);
    assert(provider =~= c.subrange(309, 329));
    assert(c[309] == 0x6c && c[310] == 0x69 && c[311] == 0x63 && c[312] == 0x65 && c[313] == 0x6e);
    assert(c[314] == 0x73 && c[315] == 0x65 && c[316] == 0x2e && c[317] == 0x77 && c[318] == 0x69);
    assert(c[319] == 0x64 && c[320] == 0x65 && c[321] == 0x76 && c[322] == 0x69 && c[323] == 0x6e);
    assert(c[324] == 0x65 && c[325] == 0x2e && c[326] == 0x63 && c[327] == 0x6f && c[328] == 0x6d);
    assert(provider =~= encode_utf8(name));
    lemma_inner_layer(d);
}

/// A client identification that is sealed for the bundled service certificate
/// names `license.widevine.com` as the provider it is sealed for.
pub proof fn lemma_sealed_for_bundled(
    sealed: SpecEncryptedClientIdentification,
    client_identification: Seq<u8>,
)
    requires
        spec_certificate_of(spec_common_service_certificate()) matches Some(signed)
            && spec_sealed_for(sealed, signed, client_identification),
    ensures
        sealed.provider_id == Some(spec_bundled_provider()),
{
    lemma_bundled_certificate();
}

} // verus!
