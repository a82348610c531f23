use widevine::certificate::{DrmCertificate, SignedDrmCertificate};
use widevine::error::ErrorKind;
use widevine::license_request::{
    EncryptedClientIdentification, LicenseRequest, LICENSE_TYPE_STREAMING, PROTOCOL_VERSION_2_1,
    REQUEST_TYPE_NEW,
};
use widevine::request::{
    build_license_request, license_request_bytes, request_time_of, seal, wrap_signed_request,
};
use widevine::session::{bytes_equal, checked_certificate, session_token, PSS_SALT_LENGTH};
use widevine::signed_message::{
    SignedMessage, MESSAGE_LICENSE, MESSAGE_LICENSE_REQUEST, MESSAGE_SERVICE_CERTIFICATE,
};

fn unhex(text: &str) -> Vec<u8> {
    hex::decode(text.replace(' ', "")).unwrap()
}

fn sealed() -> EncryptedClientIdentification {
    EncryptedClientIdentification {
        provider_id: Some(b"p".to_vec()),
        service_certificate_serial_number: Some(vec![0x01]),
        encrypted_client_id: Some(vec![0x02, 0x03]),
        encrypted_client_id_iv: Some(vec![0x04]),
        encrypted_privacy_key: Some(vec![0x05]),
    }
}

#[test]
fn constants_of_the_protocol() {
    assert_eq!(MESSAGE_LICENSE_REQUEST, 1);
    assert_eq!(MESSAGE_LICENSE, 2);
    assert_eq!(MESSAGE_SERVICE_CERTIFICATE, 5);
    assert_eq!(LICENSE_TYPE_STREAMING, 1);
    assert_eq!(REQUEST_TYPE_NEW, 1);
    assert_eq!(PROTOCOL_VERSION_2_1, 21);
    assert_eq!(PSS_SALT_LENGTH, 20);
}

#[test]
fn session_token_is_random_zeros_and_one() {
    assert_eq!(
        session_token(&[0xde, 0xad, 0xbe, 0xef]),
        unhex("deadbeef 00000000 0100000000000000")
    );
}

#[test]
fn bytes_are_equal_when_all_are() {
    assert!(bytes_equal(&[], &[]));
    assert!(bytes_equal(&[1, 2, 3], &[1, 2, 3]));
    assert!(!bytes_equal(&[1, 2, 3], &[1, 2, 4]));
    assert!(!bytes_equal(&[1, 2, 3], &[1, 2]));
    assert!(!bytes_equal(&[], &[0]));
}

#[test]
fn request_in_the_clear_byte_by_byte() {
    let raw = license_request_bytes(&vec![0xaa, 0xbb], &[0x08, 0x01], &[0x10, 0x02], None, 3, 4);
    let expected = unhex(
        "0a02 1002 \
         120c 0a0a 0a02 0801 1001 1a02 aabb \
         1801 2003 3015 3804",
    );
    assert_eq!(raw, expected);
}

#[test]
fn request_with_a_sealed_identification_byte_by_byte() {
    let raw = license_request_bytes(
        &vec![0xaa, 0xbb],
        &[0x08, 0x01],
        &[0x10, 0x02],
        Some(sealed()),
        3,
        4,
    );
    let expected = unhex(
        "120c 0a0a 0a02 0801 1001 1a02 aabb \
         1801 2003 3015 3804 \
         4210 0a01 70 1201 01 1a02 0203 2201 04 2a01 05",
    );
    assert_eq!(raw, expected);
}

#[test]
fn same_inputs_give_the_same_request() {
    let one = license_request_bytes(&vec![7; 16], &[0x08, 0x01], &[0x10, 0x02], None, 1_700, 99);
    let other = license_request_bytes(&vec![7; 16], &[0x08, 0x01], &[0x10, 0x02], None, 1_700, 99);
    assert_eq!(one, other);
    let later = license_request_bytes(&vec![7; 16], &[0x08, 0x01], &[0x10, 0x02], None, 1_701, 99);
    assert_ne!(one, later);
    let signed = wrap_signed_request(one.clone(), vec![1, 2, 3]);
    assert_eq!(signed, wrap_signed_request(other, vec![1, 2, 3]));
}

#[test]
fn request_carries_one_identification() {
    let clear = build_license_request(&vec![1], &[], &[0x10, 0x02], None, 0, 0);
    assert_eq!(clear.client_id, Some(vec![0x10, 0x02]));
    assert_eq!(clear.encrypted_client_id, None);
    let hidden = build_license_request(&vec![1], &[], &[0x10, 0x02], Some(sealed()), 0, 0);
    assert_eq!(hidden.client_id, None);
    assert_eq!(hidden.encrypted_client_id, Some(sealed()));
}

#[test]
fn request_names_data_type_and_session() {
    let request = build_license_request(&vec![9, 8, 7], &[0x22, 0x00], &[], None, -1, u32::MAX);
    let data = request.content_id.clone().unwrap().widevine_pssh_data.unwrap();
    assert_eq!(data.pssh_data, vec![vec![0x22, 0x00]]);
    assert_eq!(data.license_type, Some(1));
    assert_eq!(data.request_id, Some(vec![9, 8, 7]));
    assert_eq!(request.request_type, Some(1));
    assert_eq!(request.request_time, Some(-1));
    assert_eq!(request.protocol_version, Some(21));
    assert_eq!(request.key_control_nonce, Some(u32::MAX));
    assert_eq!(LicenseRequest::decode(&request.encode_to_vec()), Some(request));
}

#[test]
fn signed_request_byte_by_byte() {
    let signed = wrap_signed_request(vec![0x0a, 0x00], vec![0xff, 0xee]);
    assert_eq!(signed, unhex("0801 1202 0a00 1a02 ffee"));
    assert_eq!(
        SignedMessage::decode(&signed),
        Some(SignedMessage {
            message_type: Some(1),
            msg: Some(vec![0x0a, 0x00]),
            signature: Some(vec![0xff, 0xee]),
            session_key: None,
        })
    );
}

#[test]
fn seal_names_provider_and_serial_number() {
    let certificate = DrmCertificate {
        serial_number: Some(vec![1, 2]),
        public_key: Some(vec![3]),
        provider_id: Some(b"example.com".to_vec()),
    };
    assert_eq!(
        seal(&certificate, vec![4], vec![5], vec![6]),
        EncryptedClientIdentification {
            provider_id: Some(b"example.com".to_vec()),
            service_certificate_serial_number: Some(vec![1, 2]),
            encrypted_client_id: Some(vec![4]),
            encrypted_client_id_iv: Some(vec![5]),
            encrypted_privacy_key: Some(vec![6]),
        }
    );
    let bare = DrmCertificate { serial_number: None, public_key: None, provider_id: None };
    let sealed = seal(&bare, vec![], vec![], vec![]);
    assert_eq!(sealed.provider_id, Some(vec![]));
    assert_eq!(sealed.service_certificate_serial_number, Some(vec![]));
}

#[test]
fn certificate_is_kept_by_the_answer_of_the_check() {
    let certificate =
        SignedDrmCertificate { drm_certificate: Some(vec![1]), signature: Some(vec![2]) };
    assert_eq!(checked_certificate(certificate.clone(), Ok(true)).ok(), Some(certificate.clone()));
    let refused = checked_certificate(certificate.clone(), Ok(false)).err().unwrap();
    assert_eq!(refused.kind(), ErrorKind::Input);
    assert_eq!(refused.to_text(), "signature invalid");
    let stack = openssl::rsa::Rsa::private_key_from_pem(b"no key").err().unwrap();
    let failed = checked_certificate(certificate, Err(stack)).err().unwrap();
    assert_eq!(failed.kind(), ErrorKind::OpenSSL);
}

#[test]
fn request_time_is_the_reading_of_the_clock() {
    assert_eq!(request_time_of(Some(0)).ok(), Some(0));
    assert_eq!(request_time_of(Some(1_700_000_000)).ok(), Some(1_700_000_000));
    assert_eq!(request_time_of(Some(i64::MAX as u64)).ok(), Some(i64::MAX));
}

#[test]
fn request_time_that_does_not_fit_is_an_internal_error() {
    let refused = request_time_of(Some(i64::MAX as u64 + 1));
    assert_eq!(refused.err().map(|e| e.kind()), Some(ErrorKind::Internal));
    let refused = request_time_of(Some(u64::MAX));
    assert_eq!(refused.err().map(|e| e.kind()), Some(ErrorKind::Internal));
}

#[test]
fn clock_before_the_epoch_is_an_internal_error() {
    let refused = request_time_of(None);
    assert_eq!(refused.err().map(|e| e.kind()), Some(ErrorKind::Internal));
}
