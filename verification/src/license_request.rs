//! The license request and the messages inside it: what content the license is
//! for, and who asks, in the clear or encrypted for the service.

use crate::certificate::{check_opt_utf8, opt_utf8};
use crate::fieldset::{
    group_numbers, group_read, group_repeated, group_typed, group_valid, group_write, int32,
    int64, lemma_valid_repeated_bytes, opt_bytes_field, opt_varint_field, opt_view, put_bytes,
    put_opt_bytes, put_opt_varint, put_repeated_bytes, raw_int32, raw_int64, raw_uint32,
    repeated_bytes_fields, spec_int32, spec_int64, spec_raw_int32, spec_raw_int64,
    spec_raw_uint32, spec_uint32, uint32,
};
use crate::lookup::{
    all_bytes, all_fit, all_typed, bytes_list_view, last_bytes, last_varint,
    lemma_bytes_list_fit, lemma_opt_bytes_fit, opt_bytes_view, opt_fits,
    spec_bytes_field, spec_repeated_bytes, spec_typed, spec_varint_field, WIRE_BYTES,
    WIRE_VARINT,
};
use crate::wire::{
    lemma_fields_roundtrip, parse_fields, spec_encode_fields, spec_parse_fields, SpecField,
};
use vstd::prelude::*;

verus! {

/// License type of a streaming license.
pub const LICENSE_TYPE_STREAMING: i32 = 1;

/// Request type of a new license.
pub const REQUEST_TYPE_NEW: i32 = 1;

/// Protocol version 2.1.
pub const PROTOCOL_VERSION_2_1: i32 = 21;

/// The content a license is asked for, by its PSSH data.
#[derive(Clone, Debug, PartialEq, Eq)]
pub struct WidevinePsshData {
    pub pssh_data: Vec<Vec<u8>>,
    pub license_type: Option<i32>,
    pub request_id: Option<Vec<u8>>,
}

/// What a [`WidevinePsshData`] holds, as mathematical values.
pub struct SpecWidevinePsshData {
    pub pssh_data: Seq<Seq<u8>>,
    pub license_type: Option<i32>,
    pub request_id: Option<Seq<u8>>,
}

impl View for WidevinePsshData {
    type V = SpecWidevinePsshData;

    open spec fn view(&self) -> SpecWidevinePsshData {
        SpecWidevinePsshData {
            pssh_data: bytes_list_view(self.pssh_data@),
            license_type: self.license_type,
            request_id: opt_bytes_view(self.request_id),
        }
    }
}

impl SpecWidevinePsshData {
    /// The fields of the message, in the order of their numbers.
    pub open spec fn fields(self) -> Seq<SpecField> {
        repeated_bytes_fields(1, self.pssh_data) + opt_varint_field(
            2,
            spec_raw_int32(self.license_type),
        ) + opt_bytes_field(3, self.request_id)
    }

    /// The bytes of the message.
    pub open spec fn encode(self) -> Seq<u8> {
        spec_encode_fields(self.fields())
    }

    /// The message that a list of fields stands for. Fields 1 and 3 must be
    /// length-delimited and field 2 a varint; other fields are passed over.
    pub open spec fn from_fields(fs: Seq<SpecField>) -> Option<SpecWidevinePsshData> {
        if spec_typed(fs, 1, 2) && spec_typed(fs, 2, 0) && spec_typed(fs, 3, 2) {
            Some(
                SpecWidevinePsshData {
                    pssh_data: spec_repeated_bytes(fs, 1),
                    license_type: spec_int32(spec_varint_field(fs, 2)),
                    request_id: spec_bytes_field(fs, 3),
                },
            )
        } else {
            None
        }
    }

    /// The message that `bytes` hold, if they hold one.
    pub open spec fn decode(bytes: Seq<u8>) -> Option<SpecWidevinePsshData> {
        match spec_parse_fields(bytes) {
            Some(fs) => Self::from_fields(fs),
            None => None,
        }
    }

    /// A message that can be written: no part is longer than a length prefix
    /// can say.
    pub open spec fn wf(self) -> bool {
        opt_fits(self.request_id) && all_fit(self.pssh_data)
    }
}

/// The bytes of PSSH data that can be written read back as its fields.
proof fn lemma_pssh_data_parses(m: SpecWidevinePsshData)
    requires
        m.wf(),
    ensures
        spec_parse_fields(m.encode()) == Some(m.fields()),
{
    broadcast use group_valid;

    lemma_valid_repeated_bytes(1, m.pssh_data);
    lemma_fields_roundtrip(m.fields());
}

/// Each field of PSSH data has the wire type of its schema.
proof fn lemma_pssh_data_typed(m: SpecWidevinePsshData)
    ensures
        spec_typed(m.fields(), 1, 2),
        spec_typed(m.fields(), 2, 0),
        spec_typed(m.fields(), 3, 2),
{
    broadcast use group_typed;

}

/// The readers find in the fields of PSSH data what was written.
proof fn lemma_pssh_data_read(m: SpecWidevinePsshData)
    ensures
        spec_repeated_bytes(m.fields(), 1) == m.pssh_data,
        spec_varint_field(m.fields(), 2) == spec_raw_int32(m.license_type),
        spec_bytes_field(m.fields(), 3) == m.request_id,
{
    broadcast use group_read, group_repeated;

    assert(spec_repeated_bytes(m.fields(), 1) =~= m.pssh_data);
}

/// Reading back written PSSH data gives the same.
pub proof fn lemma_pssh_data_roundtrip(m: SpecWidevinePsshData)
    requires
        m.wf(),
    ensures
        SpecWidevinePsshData::decode(m.encode()) == Some(m),
{
    broadcast use group_numbers;

    lemma_pssh_data_parses(m);
    lemma_pssh_data_typed(m);
    lemma_pssh_data_read(m);
}

impl WidevinePsshData {
    /// The bytes of the message.
    pub fn encode_to_vec(&self) -> (out: Vec<u8>)
        ensures
            out@ == self@.encode(),
            self@.wf(),
    {
        broadcast use group_write;

        proof {
            lemma_opt_bytes_fit(self.request_id);
            lemma_bytes_list_fit(self.pssh_data@);
        }
        let mut out: Vec<u8> = Vec::new();
        put_repeated_bytes(&mut out, 1, &self.pssh_data);
        put_opt_varint(&mut out, 2, raw_int32(self.license_type));
        put_opt_bytes(&mut out, 3, &self.request_id);
        assert(out@ =~= self@.encode());
        out
    }

    /// Reads a message. `None` where the bytes are no message, or where one of
    /// the fields 1 to 3 has another wire type than its schema gives it.
    pub fn decode(bytes: &[u8]) -> (r: Option<WidevinePsshData>)
        ensures
            match r {
                Some(m) => SpecWidevinePsshData::decode(bytes@) == Some(m@),
                None => SpecWidevinePsshData::decode(bytes@) is None,
            },
    {
        let fields = match parse_fields(bytes) {
            Some(fields) => fields,
            None => { return None; },
        };
        if !(all_typed(&fields, 1, WIRE_BYTES) && all_typed(&fields, 2, WIRE_VARINT) && all_typed(
            &fields,
            3,
            WIRE_BYTES,
        )) {
            return None;
        }
        Some(
            WidevinePsshData {
                pssh_data: all_bytes(&fields, 1),
                license_type: int32(last_varint(&fields, 2)),
                request_id: last_bytes(&fields, 3),
            },
        )
    }
}

/// How the content is identified. Of the ways the schema offers, the client
/// uses the PSSH data.
#[derive(Clone, Debug, PartialEq, Eq)]
pub struct ContentIdentification {
    pub widevine_pssh_data: Option<WidevinePsshData>,
}

/// What a [`ContentIdentification`] holds, as mathematical values.
pub struct SpecContentIdentification {
    pub widevine_pssh_data: Option<SpecWidevinePsshData>,
}

impl View for ContentIdentification {
    type V = SpecContentIdentification;

    open spec fn view(&self) -> SpecContentIdentification {
        SpecContentIdentification { widevine_pssh_data: opt_view(self.widevine_pssh_data) }
    }
}

impl SpecContentIdentification {
    /// The bytes of the PSSH data, where there is some.
    pub open spec fn payload(self) -> Option<Seq<u8>> {
        match self.widevine_pssh_data {
            Some(p) => Some(p.encode()),
            None => None,
        }
    }

    /// The fields of the message.
    pub open spec fn fields(self) -> Seq<SpecField> {
        opt_bytes_field(1, self.payload())
    }

    /// The bytes of the message.
    pub open spec fn encode(self) -> Seq<u8> {
        spec_encode_fields(self.fields())
    }

    /// The message that a list of fields stands for. Field 1 must be
    /// length-delimited and hold PSSH data; other fields are passed over.
    pub open spec fn from_fields(fs: Seq<SpecField>) -> Option<SpecContentIdentification> {
        if spec_typed(fs, 1, 2) {
            match spec_bytes_field(fs, 1) {
                None => Some(SpecContentIdentification { widevine_pssh_data: None }),
                Some(b) => match SpecWidevinePsshData::decode(b) {
                    Some(p) => Some(SpecContentIdentification { widevine_pssh_data: Some(p) }),
                    None => None,
                },
            }
        } else {
            None
        }
    }

    /// The message that `bytes` hold, if they hold one.
    pub open spec fn decode(bytes: Seq<u8>) -> Option<SpecContentIdentification> {
        match spec_parse_fields(bytes) {
            Some(fs) => Self::from_fields(fs),
            None => None,
        }
    }

    /// A message that can be written.
    pub open spec fn wf(self) -> bool {
        self.widevine_pssh_data matches Some(p) ==> p.wf() && p.encode().len() <= u64::MAX
    }
}

/// Reading back a written content identification gives the same.
pub proof fn lemma_content_id_roundtrip(m: SpecContentIdentification)
    requires
        m.wf(),
    ensures
        SpecContentIdentification::decode(m.encode()) == Some(m),
{
    broadcast use group_valid, group_typed, group_read;

    lemma_fields_roundtrip(m.fields());
    if let Some(p) = m.widevine_pssh_data {
        lemma_pssh_data_roundtrip(p);
    }
}

impl ContentIdentification {
    /// The bytes of the message.
    pub fn encode_to_vec(&self) -> (out: Vec<u8>)
        ensures
            out@ == self@.encode(),
            self@.wf(),
    {
        let mut out: Vec<u8> = Vec::new();
        match &self.widevine_pssh_data {
            Some(p) => {
                let inner = p.encode_to_vec();
                assert(inner.len() == inner@.len());
                put_bytes(&mut out, 1, inner.as_slice());
            },
            None => {
                assert(out@ =~= self@.encode());
            },
        }
        out
    }

    /// Reads a message. `None` where the bytes are no message, or where field 1
    /// is not length-delimited or holds no PSSH data.
    pub fn decode(bytes: &[u8]) -> (r: Option<ContentIdentification>)
        ensures
            match r {
                Some(m) => SpecContentIdentification::decode(bytes@) == Some(m@),
                None => SpecContentIdentification::decode(bytes@) is None,
            },
    {
        let fields = match parse_fields(bytes) {
            Some(fields) => fields,
            None => { return None; },
        };
        if !all_typed(&fields, 1, WIRE_BYTES) {
            return None;
        }
        match last_bytes(&fields, 1) {
            None => Some(ContentIdentification { widevine_pssh_data: None }),
            Some(inner) => match WidevinePsshData::decode(inner.as_slice()) {
                Some(p) => Some(ContentIdentification { widevine_pssh_data: Some(p) }),
                None => None,
            },
        }
    }
}

/// The client identification, encrypted for the holder of a service
/// certificate.
#[derive(Clone, Debug, PartialEq, Eq)]
pub struct EncryptedClientIdentification {
    pub provider_id: Option<Vec<u8>>,
    pub service_certificate_serial_number: Option<Vec<u8>>,
    pub encrypted_client_id: Option<Vec<u8>>,
    pub encrypted_client_id_iv: Option<Vec<u8>>,
    pub encrypted_privacy_key: Option<Vec<u8>>,
}

/// What an [`EncryptedClientIdentification`] holds, as mathematical values.
pub struct SpecEncryptedClientIdentification {
    pub provider_id: Option<Seq<u8>>,
    pub service_certificate_serial_number: Option<Seq<u8>>,
    pub encrypted_client_id: Option<Seq<u8>>,
    pub encrypted_client_id_iv: Option<Seq<u8>>,
    pub encrypted_privacy_key: Option<Seq<u8>>,
}

impl View for EncryptedClientIdentification {
    type V = SpecEncryptedClientIdentification;

    open spec fn view(&self) -> SpecEncryptedClientIdentification {
        SpecEncryptedClientIdentification {
            provider_id: opt_bytes_view(self.provider_id),
            service_certificate_serial_number: opt_bytes_view(
                self.service_certificate_serial_number,
            ),
            encrypted_client_id: opt_bytes_view(self.encrypted_client_id),
            encrypted_client_id_iv: opt_bytes_view(self.encrypted_client_id_iv),
            encrypted_privacy_key: opt_bytes_view(self.encrypted_privacy_key),
        }
    }
}

impl SpecEncryptedClientIdentification {
    /// The fields of the message, in the order of their numbers.
    pub open spec fn fields(self) -> Seq<SpecField> {
        opt_bytes_field(1, self.provider_id) + opt_bytes_field(
            2,
            self.service_certificate_serial_number,
        ) + opt_bytes_field(3, self.encrypted_client_id) + opt_bytes_field(
            4,
            self.encrypted_client_id_iv,
        ) + opt_bytes_field(5, self.encrypted_privacy_key)
    }

    /// The bytes of the message.
    pub open spec fn encode(self) -> Seq<u8> {
        spec_encode_fields(self.fields())
    }

    /// The message that a list of fields stands for. Fields 1 to 5 must be
    /// length-delimited and the provider id well-formed UTF-8; other fields are
    /// passed over.
    pub open spec fn from_fields(fs: Seq<SpecField>) -> Option<
        SpecEncryptedClientIdentification,
    > {
        if spec_typed(fs, 1, 2) && spec_typed(fs, 2, 2) && spec_typed(fs, 3, 2) && spec_typed(
            fs,
            4,
            2,
        ) && spec_typed(fs, 5, 2) && opt_utf8(spec_bytes_field(fs, 1)) {
            Some(
                SpecEncryptedClientIdentification {
                    provider_id: spec_bytes_field(fs, 1),
                    service_certificate_serial_number: spec_bytes_field(fs, 2),
                    encrypted_client_id: spec_bytes_field(fs, 3),
                    encrypted_client_id_iv: spec_bytes_field(fs, 4),
                    encrypted_privacy_key: spec_bytes_field(fs, 5),
                },
            )
        } else {
            None
        }
    }

    /// The message that `bytes` hold, if they hold one.
    pub open spec fn decode(bytes: Seq<u8>) -> Option<SpecEncryptedClientIdentification> {
        match spec_parse_fields(bytes) {
            Some(fs) => Self::from_fields(fs),
            None => None,
        }
    }

    /// A message that can be written and read again: no part is longer than a
    /// length prefix can say, and the provider id is well-formed UTF-8.
    pub open spec fn wf(self) -> bool {
        self.fits() && opt_utf8(self.provider_id)
    }

    /// No part is longer than a length prefix can say.
    pub open spec fn fits(self) -> bool {
        &&& opt_fits(self.provider_id)
        &&& opt_fits(self.service_certificate_serial_number)
        &&& opt_fits(self.encrypted_client_id)
        &&& opt_fits(self.encrypted_client_id_iv)
        &&& opt_fits(self.encrypted_privacy_key)
    }
}

/// The bytes of a sealed identification that can be written read back as its
/// fields.
proof fn lemma_encrypted_client_id_parses(m: SpecEncryptedClientIdentification)
    requires
        m.fits(),
    ensures
        spec_parse_fields(m.encode()) == Some(m.fields()),
{
    broadcast use group_valid;

    lemma_fields_roundtrip(m.fields());
}

/// Each field of a sealed identification has the wire type of its schema.
proof fn lemma_encrypted_client_id_typed(m: SpecEncryptedClientIdentification)
    ensures
        spec_typed(m.fields(), 1, 2),
        spec_typed(m.fields(), 2, 2),
        spec_typed(m.fields(), 3, 2),
        spec_typed(m.fields(), 4, 2),
        spec_typed(m.fields(), 5, 2),
{
    broadcast use group_typed;

}

/// The readers find in the fields of a sealed identification what was
/// written.
proof fn lemma_encrypted_client_id_read(m: SpecEncryptedClientIdentification)
    ensures
        spec_bytes_field(m.fields(), 1) == m.provider_id,
        spec_bytes_field(m.fields(), 2) == m.service_certificate_serial_number,
        spec_bytes_field(m.fields(), 3) == m.encrypted_client_id,
        spec_bytes_field(m.fields(), 4) == m.encrypted_client_id_iv,
        spec_bytes_field(m.fields(), 5) == m.encrypted_privacy_key,
{
    broadcast use group_read;

}

/// Reading back a written encrypted client identification gives the same.
pub proof fn lemma_encrypted_client_id_roundtrip(m: SpecEncryptedClientIdentification)
    requires
        m.wf(),
    ensures
        SpecEncryptedClientIdentification::decode(m.encode()) == Some(m),
{
    lemma_encrypted_client_id_parses(m);
    lemma_encrypted_client_id_typed(m);
    lemma_encrypted_client_id_read(m);
}

impl EncryptedClientIdentification {
    /// The bytes of the message.
    pub fn encode_to_vec(&self) -> (out: Vec<u8>)
        ensures
            out@ == self@.encode(),
            self@.fits(),
    {
        broadcast use group_write;

        proof {
            lemma_opt_bytes_fit(self.provider_id);
            lemma_opt_bytes_fit(self.service_certificate_serial_number);
            lemma_opt_bytes_fit(self.encrypted_client_id);
            lemma_opt_bytes_fit(self.encrypted_client_id_iv);
            lemma_opt_bytes_fit(self.encrypted_privacy_key);
        }
        let mut out: Vec<u8> = Vec::new();
        put_opt_bytes(&mut out, 1, &self.provider_id);
        put_opt_bytes(&mut out, 2, &self.service_certificate_serial_number);
        put_opt_bytes(&mut out, 3, &self.encrypted_client_id);
        put_opt_bytes(&mut out, 4, &self.encrypted_client_id_iv);
        put_opt_bytes(&mut out, 5, &self.encrypted_privacy_key);
        assert(out@ =~= self@.encode());
        out
    }

    /// Reads a message. `None` where the bytes are no message, where one of the
    /// fields 1 to 5 is not length-delimited, or where the provider id is no
    /// UTF-8.
    pub fn decode(bytes: &[u8]) -> (r: Option<EncryptedClientIdentification>)
        ensures
            match r {
                Some(m) => SpecEncryptedClientIdentification::decode(bytes@) == Some(m@),
                None => SpecEncryptedClientIdentification::decode(bytes@) is None,
            },
    {
        let fields = match parse_fields(bytes) {
            Some(fields) => fields,
            None => { return None; },
        };
        if !(all_typed(&fields, 1, WIRE_BYTES) && all_typed(&fields, 2, WIRE_BYTES) && all_typed(
            &fields,
            3,
            WIRE_BYTES,
        ) && all_typed(&fields, 4, WIRE_BYTES) && all_typed(&fields, 5, WIRE_BYTES)) {
            return None;
        }
        let provider_id = last_bytes(&fields, 1);
        if !check_opt_utf8(&provider_id) {
            return None;
        }
        Some(
            EncryptedClientIdentification {
                provider_id,
                service_certificate_serial_number: last_bytes(&fields, 2),
                encrypted_client_id: last_bytes(&fields, 3),
                encrypted_client_id_iv: last_bytes(&fields, 4),
                encrypted_privacy_key: last_bytes(&fields, 5),
            },
        )
    }
}

/// A request for a license. The client identification stands in it as the
/// bytes of its message, which the request carries unchanged.
#[derive(Clone, Debug, PartialEq, Eq)]
pub struct LicenseRequest {
    pub client_id: Option<Vec<u8>>,
    pub content_id: Option<ContentIdentification>,
    pub request_type: Option<i32>,
    pub request_time: Option<i64>,
    pub protocol_version: Option<i32>,
    pub key_control_nonce: Option<u32>,
    pub encrypted_client_id: Option<EncryptedClientIdentification>,
}

/// What a [`LicenseRequest`] holds, as mathematical values.
pub struct SpecLicenseRequest {
    pub client_id: Option<Seq<u8>>,
    pub content_id: Option<SpecContentIdentification>,
    pub request_type: Option<i32>,
    pub request_time: Option<i64>,
    pub protocol_version: Option<i32>,
    pub key_control_nonce: Option<u32>,
    pub encrypted_client_id: Option<SpecEncryptedClientIdentification>,
}

impl View for LicenseRequest {
    type V = SpecLicenseRequest;

    open spec fn view(&self) -> SpecLicenseRequest {
        SpecLicenseRequest {
            client_id: opt_bytes_view(self.client_id),
            content_id: opt_view(self.content_id),
            request_type: self.request_type,
            request_time: self.request_time,
            protocol_version: self.protocol_version,
            key_control_nonce: self.key_control_nonce,
            encrypted_client_id: opt_view(self.encrypted_client_id),
        }
    }
}

/// Whether optional bytes, where present, hold a message.
pub open spec fn opt_message(value: Option<Seq<u8>>) -> bool {
    value matches Some(b) ==> spec_parse_fields(b) is Some
}

impl SpecLicenseRequest {
    /// The bytes of the content identification, where there is one.
    pub open spec fn content_payload(self) -> Option<Seq<u8>> {
        match self.content_id {
            Some(c) => Some(c.encode()),
            None => None,
        }
    }

    /// The bytes of the encrypted client identification, where there is one.
    pub open spec fn encrypted_payload(self) -> Option<Seq<u8>> {
        match self.encrypted_client_id {
            Some(e) => Some(e.encode()),
            None => None,
        }
    }

    /// The fields of the message, in the order of their numbers.
    pub open spec fn fields(self) -> Seq<SpecField> {
        opt_bytes_field(1, self.client_id) + opt_bytes_field(2, self.content_payload())
            + opt_varint_field(3, spec_raw_int32(self.request_type)) + opt_varint_field(
            4,
            spec_raw_int64(self.request_time),
        ) + opt_varint_field(6, spec_raw_int32(self.protocol_version)) + opt_varint_field(
            7,
            spec_raw_uint32(self.key_control_nonce),
        ) + opt_bytes_field(8, self.encrypted_payload())
    }

    /// The bytes of the message.
    pub open spec fn encode(self) -> Seq<u8> {
        spec_encode_fields(self.fields())
    }

    /// The content identification that optional bytes hold: `None` where they
    /// are present and hold none.
    pub open spec fn content_of(payload: Option<Seq<u8>>) -> Option<
        Option<SpecContentIdentification>,
    > {
        match payload {
            None => Some(None),
            Some(b) => match SpecContentIdentification::decode(b) {
                Some(c) => Some(Some(c)),
                None => None,
            },
        }
    }

    /// The encrypted client identification that optional bytes hold: `None`
    /// where they are present and hold none.
    pub open spec fn encrypted_of(payload: Option<Seq<u8>>) -> Option<
        Option<SpecEncryptedClientIdentification>,
    > {
        match payload {
            None => Some(None),
            Some(b) => match SpecEncryptedClientIdentification::decode(b) {
                Some(e) => Some(Some(e)),
                None => None,
            },
        }
    }

    /// The request that a list of fields stands for. Fields 1, 2 and 8 must be
    /// length-delimited and hold a message of their kind, fields 3, 4, 6 and 7
    /// must be varints; other fields are passed over.
    pub open spec fn from_fields(fs: Seq<SpecField>) -> Option<SpecLicenseRequest> {
        if spec_typed(fs, 1, 2) && spec_typed(fs, 2, 2) && spec_typed(fs, 3, 0) && spec_typed(
            fs,
            4,
            0,
        ) && spec_typed(fs, 6, 0) && spec_typed(fs, 7, 0) && spec_typed(fs, 8, 2) && opt_message(
            spec_bytes_field(fs, 1),
        ) {
            match (
                Self::content_of(spec_bytes_field(fs, 2)),
                Self::encrypted_of(spec_bytes_field(fs, 8)),
            ) {
                (Some(content_id), Some(encrypted_client_id)) => Some(
                    SpecLicenseRequest {
                        client_id: spec_bytes_field(fs, 1),
                        content_id,
                        request_type: spec_int32(spec_varint_field(fs, 3)),
                        request_time: spec_int64(spec_varint_field(fs, 4)),
                        protocol_version: spec_int32(spec_varint_field(fs, 6)),
                        key_control_nonce: spec_uint32(spec_varint_field(fs, 7)),
                        encrypted_client_id,
                    },
                ),
                _ => None,
            }
        } else {
            None
        }
    }

    /// The request that `bytes` hold, if they hold one.
    pub open spec fn decode(bytes: Seq<u8>) -> Option<SpecLicenseRequest> {
        match spec_parse_fields(bytes) {
            Some(fs) => Self::from_fields(fs),
            None => None,
        }
    }

    /// A request that can be written and read again: the client identification
    /// is a message, the messages inside can be written, and no part is longer
    /// than a length prefix can say.
    pub open spec fn wf(self) -> bool {
        &&& self.fits()
        &&& opt_message(self.client_id)
        &&& self.encrypted_client_id matches Some(e) ==> opt_utf8(e.provider_id)
    }

    /// No part is longer than a length prefix can say.
    pub open spec fn fits(self) -> bool {
        &&& opt_fits(self.client_id)
        &&& self.content_id matches Some(c) ==> c.wf() && c.encode().len() <= u64::MAX
        &&& self.encrypted_client_id matches Some(e) ==> e.fits() && e.encode().len() <= u64::MAX
    }
}

/// The fields of a request that can be written can be written, so its bytes
/// read back as its fields.
proof fn lemma_license_request_parses(m: SpecLicenseRequest)
    requires
        m.fits(),
    ensures
        spec_parse_fields(m.encode()) == Some(m.fields()),
{
    broadcast use group_valid;

    lemma_fields_roundtrip(m.fields());
}

/// Each field of a request has the wire type of its schema.
proof fn lemma_license_request_typed(m: SpecLicenseRequest)
    ensures
        spec_typed(m.fields(), 1, 2),
        spec_typed(m.fields(), 2, 2),
        spec_typed(m.fields(), 3, 0),
        spec_typed(m.fields(), 4, 0),
        spec_typed(m.fields(), 6, 0),
        spec_typed(m.fields(), 7, 0),
        spec_typed(m.fields(), 8, 2),
{
    broadcast use group_typed;

}

/// The readers find in the fields of a request what was written.
proof fn lemma_license_request_read(m: SpecLicenseRequest)
    ensures
        spec_bytes_field(m.fields(), 1) == m.client_id,
        spec_bytes_field(m.fields(), 2) == m.content_payload(),
        spec_varint_field(m.fields(), 3) == spec_raw_int32(m.request_type),
        spec_varint_field(m.fields(), 4) == spec_raw_int64(m.request_time),
        spec_varint_field(m.fields(), 6) == spec_raw_int32(m.protocol_version),
        spec_varint_field(m.fields(), 7) == spec_raw_uint32(m.key_control_nonce),
        spec_bytes_field(m.fields(), 8) == m.encrypted_payload(),
{
    broadcast use group_read;

}

/// Reading back a written license request gives the request: every field
/// keeps its value, and no field appears that was not set.
pub proof fn lemma_license_request_roundtrip(m: SpecLicenseRequest)
    requires
        m.wf(),
    ensures
        SpecLicenseRequest::decode(m.encode()) == Some(m),
{
    broadcast use group_numbers;

    lemma_license_request_parses(m);
    lemma_license_request_typed(m);
    lemma_license_request_read(m);
    if let Some(c) = m.content_id {
        lemma_content_id_roundtrip(c);
    }
    if let Some(e) = m.encrypted_client_id {
        lemma_encrypted_client_id_roundtrip(e);
    }
}

impl LicenseRequest {
    /// The bytes of the message.
    pub fn encode_to_vec(&self) -> (out: Vec<u8>)
        ensures
            out@ == self@.encode(),
            self@.fits(),
    {
        broadcast use group_write;

        proof {
            lemma_opt_bytes_fit(self.client_id);
        }
        let mut out: Vec<u8> = Vec::new();
        put_opt_bytes(&mut out, 1, &self.client_id);
        let content: Option<Vec<u8>> = match &self.content_id {
            Some(c) => Some(c.encode_to_vec()),
            None => None,
        };
        proof {
            lemma_opt_bytes_fit(content);
        }
        put_opt_bytes(&mut out, 2, &content);
        put_opt_varint(&mut out, 3, raw_int32(self.request_type));
        put_opt_varint(&mut out, 4, raw_int64(self.request_time));
        put_opt_varint(&mut out, 6, raw_int32(self.protocol_version));
        put_opt_varint(&mut out, 7, raw_uint32(self.key_control_nonce));
        let encrypted: Option<Vec<u8>> = match &self.encrypted_client_id {
            Some(e) => Some(e.encode_to_vec()),
            None => None,
        };
        put_opt_bytes(&mut out, 8, &encrypted);
        proof {
            lemma_opt_bytes_fit(encrypted);
        }
        assert(opt_bytes_view(content) == self@.content_payload());
        assert(opt_bytes_view(encrypted) == self@.encrypted_payload());
        assert(out@ =~= self@.encode());
        out
    }

    /// Reads a request. `None` where the bytes are no message, where one of the
    /// fields the client uses has another wire type than its schema gives it,
    /// or where a message inside does not read.
    pub fn decode(bytes: &[u8]) -> (r: Option<LicenseRequest>)
        ensures
            match r {
                Some(m) => SpecLicenseRequest::decode(bytes@) == Some(m@),
                None => SpecLicenseRequest::decode(bytes@) is None,
            },
    {
        let fields = match parse_fields(bytes) {
            Some(fields) => fields,
            None => { return None; },
        };
        if !(all_typed(&fields, 1, WIRE_BYTES) && all_typed(&fields, 2, WIRE_BYTES) && all_typed(
            &fields,
            3,
            WIRE_VARINT,
        ) && all_typed(&fields, 4, WIRE_VARINT) && all_typed(&fields, 6, WIRE_VARINT)
            && all_typed(&fields, 7, WIRE_VARINT) && all_typed(&fields, 8, WIRE_BYTES)) {
            return None;
        }
        let client_id = last_bytes(&fields, 1);
        let client_ok = match &client_id {
            Some(b) => parse_fields(b.as_slice()).is_some(),
            None => true,
        };
        if !client_ok {
            return None;
        }
        let content_id = match last_bytes(&fields, 2) {
            None => None,
            Some(b) => match ContentIdentification::decode(b.as_slice()) {
                Some(c) => Some(c),
                None => { return None; },
            },
        };
        let encrypted_client_id = match last_bytes(&fields, 8) {
            None => None,
            Some(b) => match EncryptedClientIdentification::decode(b.as_slice()) {
                Some(e) => Some(e),
                None => { return None; },
            },
        };
        Some(
            LicenseRequest {
                client_id,
                content_id,
                request_type: int32(last_varint(&fields, 3)),
                request_time: int64(last_varint(&fields, 4)),
                protocol_version: int32(last_varint(&fields, 6)),
                key_control_nonce: uint32(last_varint(&fields, 7)),
                encrypted_client_id,
            },
        )
    }
}

} // verus!
