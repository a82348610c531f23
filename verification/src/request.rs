//! Building a license request: the request itself, the client identification
//! sealed for a service, and the signed message that carries the request.

use crate::certificate::{
    opt_utf8, DrmCertificate, SignedDrmCertificate, SpecDrmCertificate,
    SpecSignedDrmCertificate,
};
use crate::crypto::{
    aes128_cbc_encrypt, rsa_oaep_sha1_encrypt, spec_aes128_cbc_encrypt, AES_BLOCK,
    MAX_PROVIDER_INPUT,
};
use crate::error::{Error, ErrorKind};
use crate::fieldset::opt_view;
use crate::license_request::{
    lemma_license_request_roundtrip, ContentIdentification, EncryptedClientIdentification,
    LicenseRequest, SpecContentIdentification, SpecEncryptedClientIdentification,
    SpecLicenseRequest, SpecWidevinePsshData, WidevinePsshData, LICENSE_TYPE_STREAMING,
    PROTOCOL_VERSION_2_1, REQUEST_TYPE_NEW,
};
use crate::lookup::{bytes_list_view, bytes_or_empty, or_empty};
use crate::platform::random_block;
use crate::pssh::spec_pssh_payload;
use crate::signed_message::{
    lemma_signed_message_roundtrip, SignedMessage, SpecSignedMessage, MESSAGE_LICENSE_REQUEST,
};
use crate::wire::{copy_range, spec_parse_fields};
use vstd::prelude::*;

verus! {

/// The content identification of a request: the Widevine data of the PSSH box
/// as the one piece of PSSH data, a streaming license, and the session id as
/// the id of the request.
pub open spec fn spec_content_identification(
    session_id: Seq<u8>,
    payload: Seq<u8>,
) -> SpecContentIdentification {
    SpecContentIdentification {
        widevine_pssh_data: Some(
            SpecWidevinePsshData {
                pssh_data: seq![payload],
                license_type: Some(LICENSE_TYPE_STREAMING),
                request_id: Some(session_id),
            },
        ),
    }
}

/// The request for a new license under protocol version 2.1. It carries the
/// client identification in the clear where none is sealed, and the sealed one
/// alone where one is.
pub open spec fn spec_license_request(
    session_id: Seq<u8>,
    payload: Seq<u8>,
    client_identification: Seq<u8>,
    sealed: Option<SpecEncryptedClientIdentification>,
    request_time: i64,
    key_control_nonce: u32,
) -> SpecLicenseRequest {
    SpecLicenseRequest {
        client_id: if sealed is None {
            Some(client_identification)
        } else {
            None
        },
        content_id: Some(spec_content_identification(session_id, payload)),
        request_type: Some(REQUEST_TYPE_NEW),
        request_time: Some(request_time),
        protocol_version: Some(PROTOCOL_VERSION_2_1),
        key_control_nonce: Some(key_control_nonce),
        encrypted_client_id: sealed,
    }
}

/// Builds the request for a new license.
pub fn build_license_request(
    session_id: &Vec<u8>,
    payload: &[u8],
    client_identification: &[u8],
    sealed: Option<EncryptedClientIdentification>,
    request_time: i64,
    key_control_nonce: u32,
) -> (request: LicenseRequest)
    ensures
        request@ == spec_license_request(
            session_id@,
            payload@,
            client_identification@,
            opt_view(sealed),
            request_time,
            key_control_nonce,
        ),
{
    let mut pssh_data: Vec<Vec<u8>> = Vec::new();
    let data = copy_range(payload, 0, payload.len());
    assert(data@ =~= payload@);
    pssh_data.push(data);
    assert(bytes_list_view(pssh_data@) =~= seq![payload@]);
    let request_id = copy_range(session_id.as_slice(), 0, session_id.len());
    assert(request_id@ =~= session_id@);
    let widevine_pssh_data = WidevinePsshData {
        pssh_data,
        license_type: Some(LICENSE_TYPE_STREAMING),
        request_id: Some(request_id),
    };
    let content_id = ContentIdentification { widevine_pssh_data: Some(widevine_pssh_data) };
    let client_id = match &sealed {
        Some(_) => None,
        None => {
            let copy = copy_range(client_identification, 0, client_identification.len());
            assert(copy@ =~= client_identification@);
            Some(copy)
        },
    };
    LicenseRequest {
        client_id,
        content_id: Some(content_id),
        request_type: Some(REQUEST_TYPE_NEW),
        request_time: Some(request_time),
        protocol_version: Some(PROTOCOL_VERSION_2_1),
        key_control_nonce: Some(key_control_nonce),
        encrypted_client_id: sealed,
    }
}

/// A request carries the client identification once: in the clear where none
/// is sealed, sealed where one is, never both and never neither.
pub proof fn lemma_one_identification(
    session_id: Seq<u8>,
    payload: Seq<u8>,
    client_identification: Seq<u8>,
    sealed: Option<SpecEncryptedClientIdentification>,
    request_time: i64,
    key_control_nonce: u32,
)
    ensures
        ({
            let request = spec_license_request(
                session_id,
                payload,
                client_identification,
                sealed,
                request_time,
                key_control_nonce,
            );
            &&& request.client_id is Some <==> sealed is None
            &&& request.encrypted_client_id is Some <==> sealed is Some
            &&& request.client_id is Some <==> request.encrypted_client_id is None
        }),
{
}

/// The bytes of the request for a new license. They follow from what is handed
/// in and from nothing else: the same id, data, identification, time and
/// nonce give the same bytes, and the bytes read back as the request where the
/// identification is a message and the provider of a sealed one is text.
pub fn license_request_bytes(
    session_id: &Vec<u8>,
    payload: &[u8],
    client_identification: &[u8],
    sealed: Option<EncryptedClientIdentification>,
    request_time: i64,
    key_control_nonce: u32,
) -> (raw: Vec<u8>)
    ensures
        raw@ == spec_license_request(
            session_id@,
            payload@,
            client_identification@,
            opt_view(sealed),
            request_time,
            key_control_nonce,
        ).encode(),
        spec_parse_fields(client_identification@) is Some && (sealed matches Some(s) ==> opt_utf8(
            s@.provider_id,
        )) ==> SpecLicenseRequest::decode(raw@) == Some(
            spec_license_request(
                session_id@,
                payload@,
                client_identification@,
                opt_view(sealed),
                request_time,
                key_control_nonce,
            ),
        ),
{
    let request = build_license_request(
        session_id,
        payload,
        client_identification,
        sealed,
        request_time,
        key_control_nonce,
    );
    let raw = request.encode_to_vec();
    proof {
        if request@.wf() {
            lemma_license_request_roundtrip(request@);
        }
    }
    raw
}

/// The time of a request that follows from a reading of the clock: the seconds
/// since the Unix epoch. `Internal` where the clock stands before the epoch or
/// the seconds do not fit the field of the request.
pub open spec fn spec_request_time(clock: Option<u64>) -> Option<i64> {
    match clock {
        Some(seconds) => if seconds <= 0x7fff_ffff_ffff_ffff {
            Some(seconds as i64)
        } else {
            None
        },
        None => None,
    }
}

/// The time of a request that follows from a reading of the clock.
pub fn request_time_of(clock: Option<u64>) -> (r: Result<i64, Error>)
    ensures
        match spec_request_time(clock) {
            Some(time) => r == Ok::<i64, Error>(time) && time >= 0,
            None => r matches Err(e) && e.spec_kind() == ErrorKind::Internal,
        },
{
    match clock {
        Some(seconds) => {
            if seconds <= 0x7fff_ffff_ffff_ffff {
                Ok(seconds as i64)
            } else {
                Err(Error::internal("the time does not fit the request"))
            }
        },
        None => Err(Error::internal("the clock stands before the Unix epoch")),
    }
}

/// The sealed client identification that goes to the holder of a certificate:
/// the provider and the serial number of the certificate, the ciphertext of
/// the identification with its initialisation vector, and the wrapped key.
pub open spec fn spec_seal(
    inner: SpecDrmCertificate,
    ciphertext: Seq<u8>,
    iv: Seq<u8>,
    wrapped_key: Seq<u8>,
) -> SpecEncryptedClientIdentification {
    SpecEncryptedClientIdentification {
        provider_id: Some(or_empty(inner.provider_id)),
        service_certificate_serial_number: Some(or_empty(inner.serial_number)),
        encrypted_client_id: Some(ciphertext),
        encrypted_client_id_iv: Some(iv),
        encrypted_privacy_key: Some(wrapped_key),
    }
}

/// Puts together the sealed client identification.
pub fn seal(
    inner: &DrmCertificate,
    ciphertext: Vec<u8>,
    iv: Vec<u8>,
    wrapped_key: Vec<u8>,
) -> (sealed: EncryptedClientIdentification)
    ensures
        sealed@ == spec_seal(inner@, ciphertext@, iv@, wrapped_key@),
{
    EncryptedClientIdentification {
        provider_id: Some(bytes_or_empty(&inner.provider_id)),
        service_certificate_serial_number: Some(bytes_or_empty(&inner.serial_number)),
        encrypted_client_id: Some(ciphertext),
        encrypted_client_id_iv: Some(iv),
        encrypted_privacy_key: Some(wrapped_key),
    }
}

/// Whether a client identification can be sealed for a certificate: the
/// certificate inside the signed one reads, and the identification is not
/// longer than the provider takes.
pub open spec fn spec_sealable(
    certificate: SpecSignedDrmCertificate,
    client_identification: Seq<u8>,
) -> bool {
    SpecDrmCertificate::decode(or_empty(certificate.drm_certificate)) is Some
        && client_identification.len() <= MAX_PROVIDER_INPUT
}

/// Whether `sealed` is a client identification sealed for a certificate: it
/// names the provider and the serial number of the certificate, and holds the
/// identification encrypted with AES-128-CBC under some key of 16 bytes and
/// the initialisation vector it gives, and a wrapped key.
pub open spec fn spec_sealed_for(
    sealed: SpecEncryptedClientIdentification,
    certificate: SpecSignedDrmCertificate,
    client_identification: Seq<u8>,
) -> bool {
    &&& SpecDrmCertificate::decode(or_empty(certificate.drm_certificate)) matches Some(inner)
    &&& sealed.provider_id == Some(or_empty(inner.provider_id))
    &&& sealed.service_certificate_serial_number == Some(or_empty(inner.serial_number))
    &&& sealed.encrypted_client_id_iv matches Some(iv)
    &&& iv.len() == AES_BLOCK
    &&& sealed.encrypted_client_id matches Some(ciphertext)
    &&& sealed.encrypted_privacy_key is Some
    &&& exists|key: Seq<u8>|
        key.len() == AES_BLOCK && #[trigger] spec_aes128_cbc_encrypt(
            key,
            iv,
            client_identification,
        ) == Some(ciphertext)
}

/// Seals the client identification for the holder of a service certificate:
/// encrypts it under a fresh random key and initialisation vector, and wraps
/// the key with RSA-OAEP under the public key of the certificate. Fails with
/// `Input` where it cannot be sealed for this certificate, and with the
/// provider's error where the provider fails.
pub fn encrypt_client_identification(
    client_identification: &[u8],
    signed_service_certificate: &SignedDrmCertificate,
) -> (r: Result<EncryptedClientIdentification, Error>)
    ensures
        match r {
            Ok(sealed) => {
                &&& spec_sealable(signed_service_certificate@, client_identification@)
                &&& spec_sealed_for(sealed@, signed_service_certificate@, client_identification@)
                &&& opt_utf8(sealed@.provider_id)
            },
            Err(e) => e.spec_kind() == if spec_sealable(
                signed_service_certificate@,
                client_identification@,
            ) {
                ErrorKind::OpenSSL
            } else {
                ErrorKind::Input
            },
        },
{
    let raw_certificate = bytes_or_empty(&signed_service_certificate.drm_certificate);
    let service_certificate = match DrmCertificate::decode(raw_certificate.as_slice()) {
        Some(certificate) => certificate,
        None => {
            return Err(Error::input("the service certificate does not hold a certificate"));
        },
    };
    if client_identification.len() > MAX_PROVIDER_INPUT {
        return Err(Error::input("the client identification is too long"));
    }
    let key: [u8; 16] = random_block();
    let iv: [u8; 16] = random_block();
    let ciphertext = match aes128_cbc_encrypt(
        key.as_slice(),
        iv.as_slice(),
        client_identification,
    ) {
        Ok(ciphertext) => ciphertext,
        Err(stack) => {
            return Err(Error::provider("the client identification could not be encrypted", stack));
        },
    };
    let public_key = bytes_or_empty(&service_certificate.public_key);
    let wrapped_key = match rsa_oaep_sha1_encrypt(public_key.as_slice(), key.as_slice()) {
        Ok(wrapped_key) => wrapped_key,
        Err(stack) => {
            return Err(Error::provider("the privacy key could not be wrapped", stack));
        },
    };
    let iv_bytes = copy_range(iv.as_slice(), 0, 16);
    assert(iv_bytes@ =~= iv@);
    let sealed = seal(&service_certificate, ciphertext, iv_bytes, wrapped_key);
    assert(spec_aes128_cbc_encrypt(key@, iv@, client_identification@) == Some(ciphertext@));
    Ok(sealed)
}

/// The signed message that carries a license request and its signature.
pub open spec fn spec_signed_request(request: Seq<u8>, signature: Seq<u8>) -> SpecSignedMessage {
    SpecSignedMessage {
        message_type: Some(MESSAGE_LICENSE_REQUEST),
        msg: Some(request),
        signature: Some(signature),
        session_key: None,
    }
}

/// The bytes of the signed message that carries a license request and its
/// signature.
pub fn wrap_signed_request(request: Vec<u8>, signature: Vec<u8>) -> (out: Vec<u8>)
    ensures
        out@ == spec_signed_request(request@, signature@).encode(),
        SpecSignedMessage::decode(out@) == Some(spec_signed_request(request@, signature@)),
{
    let message = SignedMessage {
        message_type: Some(MESSAGE_LICENSE_REQUEST),
        msg: Some(request),
        signature: Some(signature),
        session_key: None,
    };
    let out = message.encode_to_vec();
    proof {
        lemma_signed_message_roundtrip(message@);
    }
    out
}

/// Whether `request` is a license request of a session for a PSSH box: it
/// asks for a new streaming license under protocol version 2.1, names the
/// Widevine data of the box and the session id, has a time and a nonce, and
/// carries the client identification in the clear if no certificate is pinned,
/// and sealed for the certificate, and only so, if one is.
pub open spec fn spec_request_matches(
    request: SpecLicenseRequest,
    session_id: Seq<u8>,
    pssh: Seq<u8>,
    client_identification: Seq<u8>,
    certificate: Option<SpecSignedDrmCertificate>,
) -> bool {
    &&& request.content_id == Some(
        spec_content_identification(session_id, spec_pssh_payload(pssh)),
    )
    &&& request.request_type == Some(REQUEST_TYPE_NEW)
    &&& request.protocol_version == Some(PROTOCOL_VERSION_2_1)
    &&& request.request_time matches Some(time)
    &&& time >= 0
    &&& request.key_control_nonce is Some
    &&& match certificate {
        None => request.client_id == Some(client_identification)
            && request.encrypted_client_id is None,
        Some(pinned) => {
            &&& request.client_id is None
            &&& request.encrypted_client_id matches Some(sealed)
            &&& spec_sealed_for(sealed, pinned, client_identification)
        },
    }
}

/// Whether `raw` holds a license request of a session for a PSSH box, in the
/// very bytes that writing the request gives.
pub open spec fn spec_is_request_for(
    raw: Seq<u8>,
    session_id: Seq<u8>,
    pssh: Seq<u8>,
    client_identification: Seq<u8>,
    certificate: Option<SpecSignedDrmCertificate>,
) -> bool {
    &&& SpecLicenseRequest::decode(raw) matches Some(request)
    &&& request.encode() == raw
    &&& spec_request_matches(request, session_id, pssh, client_identification, certificate)
}

} // verus!
