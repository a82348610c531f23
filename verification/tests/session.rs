use base64::Engine;
use openssl::hash::MessageDigest;
use openssl::pkey::PKey;
use openssl::rsa::{Padding, Rsa};
use openssl::sign::{RsaPssSaltlen, Signer, Verifier};
use openssl::symm::Cipher;
use widevine::certificate::{DrmCertificate, SignedDrmCertificate};
use widevine::error::ErrorKind;
use widevine::license_request::LicenseRequest;
use widevine::request::encrypt_client_identification;
use widevine::session::{check_certificate, read_certificate, verify_service_certificate};
use widevine::signed_message::SignedMessage;
use widevine::wire::{encode_fields, Field, WireValue};
use widevine::{
    LicenseDecryptionModule, Session, COMMON_SERVICE_CERTIFICATE, SERVICE_CERTIFICATE_CHALLENGE,
    WIDEVINE_ROOT_PUBLIC_KEY,
};

const BITMOVIN_PSSH_B64: &str = "AAAAW3Bzc2gAAAAA7e+LqXnWSs6jyCfc1R0h7QAAADsIARIQ62dqu8s0Xpa7z2FmMPGj2hoNd2lkZXZpbmVfdGVzdCIQZmtqM2xqYVNkZmFsa3IzaioCSEQyAA==";

fn bitmovin_pssh() -> Vec<u8> {
    base64::engine::general_purpose::STANDARD.decode(BITMOVIN_PSSH_B64).unwrap()
}

fn message(fields: Vec<Field>) -> Vec<u8> {
    let mut out = Vec::new();
    encode_fields(&fields, &mut out);
    out
}

fn bytes_field(number: u32, value: &[u8]) -> Field {
    Field { number, value: WireValue::Bytes(value.to_vec()) }
}

fn varint_field(number: u32, value: u64) -> Field {
    Field { number, value: WireValue::Varint(value) }
}

/// A client identification: a type, a token and one name with its value.
fn identification_blob() -> Vec<u8> {
    let info = message(vec![bytes_field(1, b"model_name"), bytes_field(2, b"test device")]);
    message(vec![varint_field(1, 1), bytes_field(2, &[0x42; 64]), bytes_field(3, &info)])
}

struct Device {
    key: Rsa<openssl::pkey::Private>,
    ldm: LicenseDecryptionModule,
}

fn device() -> Device {
    let key = Rsa::generate(2048).unwrap();
    let pem = key.private_key_to_pem().unwrap();
    let ldm = LicenseDecryptionModule::new(&pem, identification_blob(), None).unwrap();
    Device { key, ldm }
}

fn sign_pss(key: &Rsa<openssl::pkey::Private>, data: &[u8]) -> Vec<u8> {
    let key = PKey::from_rsa(key.clone()).unwrap();
    let mut signer = Signer::new(MessageDigest::sha1(), &key).unwrap();
    signer.set_rsa_padding(Padding::PKCS1_PSS).unwrap();
    signer.set_rsa_pss_saltlen(RsaPssSaltlen::custom(20)).unwrap();
    signer.update(data).unwrap();
    signer.sign_to_vec().unwrap()
}

fn verifies_pss(public_key_der: &[u8], data: &[u8], signature: &[u8]) -> bool {
    let key = PKey::from_rsa(Rsa::public_key_from_der_pkcs1(public_key_der).unwrap()).unwrap();
    let mut verifier = Verifier::new(MessageDigest::sha1(), &key).unwrap();
    verifier.set_rsa_padding(Padding::PKCS1_PSS).unwrap();
    verifier.set_rsa_pss_saltlen(RsaPssSaltlen::custom(20)).unwrap();
    verifier.update(data).unwrap();
    verifier.verify(signature).unwrap()
}

/// A service certificate for `service`, signed by `root`.
fn service_certificate(
    root: &Rsa<openssl::pkey::Private>,
    service: &Rsa<openssl::pkey::Private>,
) -> Vec<u8> {
    let certificate = message(vec![
        varint_field(1, 3),
        bytes_field(2, &[0x5e; 16]),
        bytes_field(4, &service.public_key_to_der_pkcs1().unwrap()),
        bytes_field(7, b"example.com"),
    ]);
    let signature = sign_pss(root, &certificate);
    message(vec![bytes_field(1, &certificate), bytes_field(2, &signature)])
}

#[test]
fn session_id_shape() {
    let session = Session::new();
    assert_eq!(session.session_id.len(), 16);
    assert_eq!(&session.session_id[4..8], &[0u8, 0, 0, 0]);
    assert_eq!(&session.session_id[8..16], &[1u8, 0, 0, 0, 0, 0, 0, 0]);
    assert!(!session.has_service_certificate());
    assert!(!session.has_license_request());
}

#[test]
fn session_ids_are_drawn_at_random() {
    let ids: Vec<Vec<u8>> = (0..8).map(|_| Session::new().session_id).collect();
    assert!(ids.iter().any(|id| id[..4] != ids[0][..4]));
}

#[test]
fn challenge_is_two_bytes() {
    assert_eq!(SERVICE_CERTIFICATE_CHALLENGE, [0x08, 0x04]);
}

#[test]
fn root_key_is_a_public_key() {
    assert_eq!(WIDEVINE_ROOT_PUBLIC_KEY.len(), 398);
    let key = Rsa::public_key_from_der_pkcs1(&WIDEVINE_ROOT_PUBLIC_KEY).unwrap();
    assert_eq!(key.size(), 384);
}

#[test]
fn default_service_certificate_is_pinned() {
    let mut session = Session::new();
    let pinned = session.set_default_service_certificate();
    assert!(pinned.is_ok(), "{:?}", pinned.err().map(|e| e.kind()));
    assert!(session.has_service_certificate());
}

#[test]
fn bundled_certificate_is_pinned_by_its_bytes() {
    let mut session = Session::new();
    assert!(session.set_service_certificate(COMMON_SERVICE_CERTIFICATE.to_vec()).is_ok());
    assert!(session.has_service_certificate());
}

#[test]
fn bare_certificate_is_pinned() {
    let wrapped = SignedMessage::decode(&COMMON_SERVICE_CERTIFICATE).unwrap();
    let mut session = Session::new();
    assert!(session.set_service_certificate(wrapped.msg.unwrap()).is_ok());
    assert!(session.has_service_certificate());
}

#[test]
fn certificate_from_a_signed_message_is_pinned() {
    let mut session = Session::new();
    assert!(session
        .set_service_certificate_from_message(COMMON_SERVICE_CERTIFICATE.to_vec())
        .is_ok());
    assert!(session.has_service_certificate());
}

#[test]
fn certificate_from_what_is_no_signed_message_is_refused() {
    let mut session = Session::new();
    let refused = session.set_service_certificate_from_message(vec![0x08]);
    assert_eq!(refused.err().map(|e| e.kind()), Some(ErrorKind::Input));
    assert!(!session.has_service_certificate());
}

#[test]
fn certificate_that_does_not_read_is_refused() {
    let mut session = Session::new();
    let refused = session.set_service_certificate(vec![0xff, 0xff]);
    let error = refused.err().unwrap();
    assert_eq!(error.kind(), ErrorKind::Input);
    assert!(!session.has_service_certificate());
}

#[test]
fn certificate_with_a_changed_byte_is_refused() {
    let mut raw = COMMON_SERVICE_CERTIFICATE.to_vec();
    raw[100] ^= 0x01;
    let mut session = Session::new();
    let error = session.set_service_certificate(raw).err().unwrap();
    assert_eq!(error.kind(), ErrorKind::Input);
    match error {
        widevine::error::Error::Input { message } => assert_eq!(message, "signature invalid"),
        _ => unreachable!(),
    }
    assert!(!session.has_service_certificate());
}

#[test]
fn certificate_with_a_changed_signature_is_refused() {
    let mut raw = COMMON_SERVICE_CERTIFICATE.to_vec();
    let last = raw.len() - 1;
    raw[last] ^= 0x80;
    let mut session = Session::new();
    let refused = session.set_service_certificate(raw);
    assert_eq!(refused.err().map(|e| e.kind()), Some(ErrorKind::Input));
}

#[test]
fn second_certificate_is_refused() {
    let mut session = Session::new();
    session.set_default_service_certificate().unwrap();
    let again = session.set_default_service_certificate();
    assert_eq!(again.err().map(|e| e.kind()), Some(ErrorKind::State));
    assert!(session.has_service_certificate());
}

#[test]
fn wrong_root_key_refuses_the_bundled_certificate() {
    let other = Rsa::generate(3072).unwrap().public_key_to_der_pkcs1().unwrap();
    assert_eq!(other.len(), WIDEVINE_ROOT_PUBLIC_KEY.len());
    let refused = check_certificate(&other, &COMMON_SERVICE_CERTIFICATE);
    assert_eq!(refused.err().map(|e| e.kind()), Some(ErrorKind::Input));
    assert!(check_certificate(&WIDEVINE_ROOT_PUBLIC_KEY, &COMMON_SERVICE_CERTIFICATE).is_ok());
}

#[test]
fn root_key_that_is_no_key_is_a_provider_error() {
    let refused = check_certificate(&[0x30, 0x00], &COMMON_SERVICE_CERTIFICATE);
    assert_eq!(refused.err().map(|e| e.kind()), Some(ErrorKind::OpenSSL));
}

#[test]
fn certificate_of_an_own_root_verifies_under_it() {
    let root = Rsa::generate(2048).unwrap();
    let service = Rsa::generate(2048).unwrap();
    let raw = service_certificate(&root, &service);
    let root_key = root.public_key_to_der_pkcs1().unwrap();
    let certificate = check_certificate(&root_key, &raw).unwrap();
    assert_eq!(SignedDrmCertificate::decode(&raw), Some(certificate.clone()));
    assert_eq!(verify_service_certificate(&root_key, &certificate).ok(), Some(true));
    let stranger = Rsa::generate(2048).unwrap().public_key_to_der_pkcs1().unwrap();
    assert_eq!(verify_service_certificate(&stranger, &certificate).ok(), Some(false));
}

#[test]
fn certificate_is_read_bare_and_wrapped() {
    let wrapped = COMMON_SERVICE_CERTIFICATE.to_vec();
    let bare = SignedMessage::decode(&wrapped).unwrap().msg.unwrap();
    let from_wrapped = read_certificate(&wrapped).unwrap();
    let from_bare = read_certificate(&bare).unwrap();
    assert_eq!(from_wrapped, from_bare);
    assert_eq!(read_certificate(&[0x08]), None);
}

#[test]
fn device_key_that_is_no_key_is_a_provider_error() {
    let refused = LicenseDecryptionModule::new(&b"no key".to_vec(), identification_blob(), None);
    assert_eq!(refused.err().map(|e| e.kind()), Some(ErrorKind::OpenSSL));
}

#[test]
fn box_with_zero_system_id_gives_no_request() {
    let device = device();
    let mut pssh = bitmovin_pssh();
    for byte in pssh[12..28].iter_mut() {
        *byte = 0;
    }
    let mut session = Session::new();
    let id = session.session_id.clone();
    let refused = session.create_license_request(&device.ldm, pssh);
    assert_eq!(refused.err().map(|e| e.kind()), Some(ErrorKind::Input));
    assert_eq!(session.session_id, id);
    assert!(!session.has_license_request());
    assert!(!session.has_service_certificate());
}

#[test]
fn box_too_short_gives_no_request() {
    let device = device();
    let mut session = Session::new();
    let refused = session.create_license_request(&device.ldm, vec![0; 20]);
    assert_eq!(refused.err().map(|e| e.kind()), Some(ErrorKind::Input));
    let refused = session.create_license_request(&device.ldm, bitmovin_pssh()[..30].to_vec());
    assert_eq!(refused.err().map(|e| e.kind()), Some(ErrorKind::Input));
    assert!(!session.has_license_request());
}

#[test]
fn box_with_broken_data_gives_no_request() {
    let device = device();
    let mut pssh = bitmovin_pssh();
    pssh.push(0x08);
    let mut session = Session::new();
    let refused = session.create_license_request(&device.ldm, pssh);
    assert_eq!(refused.err().map(|e| e.kind()), Some(ErrorKind::Input));
    assert!(!session.has_license_request());
}

#[test]
fn foreign_box_is_refused_before_the_state_is_looked_at() {
    let device = device();
    let mut session = Session::new();
    session.create_license_request(&device.ldm, bitmovin_pssh()).unwrap();
    let mut pssh = bitmovin_pssh();
    pssh[12] = 0;
    let refused = session.create_license_request(&device.ldm, pssh);
    assert_eq!(refused.err().map(|e| e.kind()), Some(ErrorKind::Input));
}

#[test]
fn second_request_is_refused() {
    let device = device();
    let mut session = Session::new();
    session.create_license_request(&device.ldm, bitmovin_pssh()).unwrap();
    assert!(session.has_license_request());
    let again = session.create_license_request(&device.ldm, bitmovin_pssh());
    assert_eq!(again.err().map(|e| e.kind()), Some(ErrorKind::State));
    assert!(session.has_license_request());
}

#[test]
fn certificate_after_the_request_is_refused() {
    let device = device();
    let mut session = Session::new();
    session.create_license_request(&device.ldm, bitmovin_pssh()).unwrap();
    let late = session.set_default_service_certificate();
    assert_eq!(late.err().map(|e| e.kind()), Some(ErrorKind::State));
    assert!(!session.has_service_certificate());
}

#[test]
fn identification_that_is_no_message_gives_no_request() {
    let key = Rsa::generate(2048).unwrap().private_key_to_pem().unwrap();
    let ldm = LicenseDecryptionModule::new(&key, vec![0x08], None).unwrap();
    let mut session = Session::new();
    let refused = session.create_license_request(&ldm, bitmovin_pssh());
    assert_eq!(refused.err().map(|e| e.kind()), Some(ErrorKind::Input));
    assert!(!session.has_license_request());
}

#[test]
fn request_without_certificate_carries_identification_in_the_clear() {
    let device = device();
    let pssh = bitmovin_pssh();
    let mut session = Session::new();
    let out = session.create_license_request(&device.ldm, pssh.clone()).unwrap();

    let signed = SignedMessage::decode(&out).unwrap();
    assert_eq!(signed.encode_to_vec(), out);
    assert_eq!(signed.message_type, Some(1));
    assert_eq!(signed.session_key, None);
    let raw = signed.msg.unwrap();
    let signature = signed.signature.unwrap();
    assert_eq!(signature.len(), 256);
    assert!(verifies_pss(&device.key.public_key_to_der_pkcs1().unwrap(), &raw, &signature));

    let request = LicenseRequest::decode(&raw).unwrap();
    assert_eq!(request.encode_to_vec(), raw);
    assert_eq!(request.client_id, Some(identification_blob()));
    assert_eq!(request.encrypted_client_id, None);
    assert_eq!(request.request_type, Some(1));
    assert_eq!(request.protocol_version, Some(21));
    assert!(request.key_control_nonce.is_some());
    let time = request.request_time.unwrap();
    assert!(time > 1_600_000_000 && time < 4_000_000_000);
    let data = request.content_id.unwrap().widevine_pssh_data.unwrap();
    assert_eq!(data.pssh_data, vec![pssh[32..].to_vec()]);
    assert_eq!(data.license_type, Some(1));
    assert_eq!(data.request_id, Some(session.session_id.clone()));
}

#[test]
fn request_with_certificate_carries_identification_sealed() {
    let device = device();
    let mut session = Session::new();
    session.set_service_certificate(COMMON_SERVICE_CERTIFICATE.to_vec()).unwrap();
    let out = session.create_license_request(&device.ldm, bitmovin_pssh()).unwrap();

    let signed = SignedMessage::decode(&out).unwrap();
    let request = LicenseRequest::decode(&signed.msg.unwrap()).unwrap();
    assert_eq!(request.client_id, None);
    let sealed = request.encrypted_client_id.unwrap();
    assert_eq!(sealed.provider_id, Some(b"license.widevine.com".to_vec()));
    assert_eq!(
        sealed.service_certificate_serial_number,
        Some(hex::decode("1705b917cc1204868b06333a2f772a8c").unwrap())
    );
    assert_eq!(sealed.encrypted_client_id_iv.unwrap().len(), 16);
    assert_eq!(sealed.encrypted_privacy_key.unwrap().len(), 256);
    let padded = (identification_blob().len() / 16 + 1) * 16;
    assert_eq!(sealed.encrypted_client_id.unwrap().len(), padded);
}

#[test]
fn sealed_identification_opens_with_the_key_of_the_service() {
    let root = Rsa::generate(2048).unwrap();
    let service = Rsa::generate(2048).unwrap();
    let certificate =
        SignedDrmCertificate::decode(&service_certificate(&root, &service)).unwrap();
    let blob = identification_blob();
    let sealed = encrypt_client_identification(&blob, &certificate).unwrap();
    assert_eq!(sealed.provider_id, Some(b"example.com".to_vec()));
    assert_eq!(sealed.service_certificate_serial_number, Some(vec![0x5e; 16]));

    let mut key = vec![0u8; service.size() as usize];
    let wrapped = sealed.encrypted_privacy_key.unwrap();
    let written = service.private_decrypt(&wrapped, &mut key, Padding::PKCS1_OAEP).unwrap();
    assert_eq!(written, 16);
    let opened = openssl::symm::decrypt(
        Cipher::aes_128_cbc(),
        &key[..16],
        Some(&sealed.encrypted_client_id_iv.unwrap()),
        &sealed.encrypted_client_id.unwrap(),
    )
    .unwrap();
    assert_eq!(opened, blob);
}

#[test]
fn sealing_twice_draws_a_new_key_and_vector() {
    let root = Rsa::generate(2048).unwrap();
    let service = Rsa::generate(2048).unwrap();
    let certificate =
        SignedDrmCertificate::decode(&service_certificate(&root, &service)).unwrap();
    let blob = identification_blob();
    let one = encrypt_client_identification(&blob, &certificate).unwrap();
    let other = encrypt_client_identification(&blob, &certificate).unwrap();
    assert_ne!(one.encrypted_client_id_iv, other.encrypted_client_id_iv);
    assert_ne!(one.encrypted_client_id, other.encrypted_client_id);
    assert_ne!(one.encrypted_privacy_key, other.encrypted_privacy_key);
}

#[test]
fn sealing_for_a_certificate_without_certificate_inside_is_refused() {
    let certificate = SignedDrmCertificate { drm_certificate: Some(vec![0x08]), signature: None };
    let refused = encrypt_client_identification(&identification_blob(), &certificate);
    assert_eq!(refused.err().map(|e| e.kind()), Some(ErrorKind::Input));
}

#[test]
fn sealing_for_a_certificate_without_key_is_a_provider_error() {
    let inner = message(vec![bytes_field(7, b"example.com")]);
    assert!(DrmCertificate::decode(&inner).is_some());
    let certificate = SignedDrmCertificate { drm_certificate: Some(inner), signature: None };
    let refused = encrypt_client_identification(&identification_blob(), &certificate);
    assert_eq!(refused.err().map(|e| e.kind()), Some(ErrorKind::OpenSSL));
}

#[test]
fn response_before_the_request_is_refused() {
    let device = device();
    let session = Session::new();
    let refused = session.parse_license(&device.ldm, vec![]);
    assert_eq!(refused.err().map(|e| e.kind()), Some(ErrorKind::State));
}

#[test]
fn session_id_is_read_by_field_and_by_method() {
    let session = Session::new();
    assert_eq!(session.session_id(), &session.session_id);
    assert_eq!(session.session_id().len(), 16);
}

#[test]
fn module_from_what_the_provider_read() {
    let read = Rsa::generate(2048).unwrap().private_key_to_der();
    assert!(LicenseDecryptionModule::from_provider(read, identification_blob(), None).is_ok());
    let failed = Rsa::private_key_from_pem(b"no key").map(|key| key.private_key_to_der().unwrap());
    let refused = LicenseDecryptionModule::from_provider(failed, identification_blob(), None);
    assert_eq!(refused.err().map(|e| e.kind()), Some(ErrorKind::OpenSSL));
}

#[test]
fn device_key_behind_a_passphrase_is_a_provider_error() {
    let key = Rsa::generate(2048).unwrap();
    let pem = key.private_key_to_pem_passphrase(Cipher::aes_128_cbc(), b"secret").unwrap();
    let refused = LicenseDecryptionModule::new(&pem, identification_blob(), None);
    assert_eq!(refused.err().map(|e| e.kind()), Some(ErrorKind::OpenSSL));
}

#[test]
fn module_signs_with_the_key_of_its_pem_text() {
    let one = device();
    let other = device();
    let mut session = Session::new();
    let out = session.create_license_request(&one.ldm, bitmovin_pssh()).unwrap();
    let signed = SignedMessage::decode(&out).unwrap();
    let raw = signed.msg.unwrap();
    let signature = signed.signature.unwrap();
    assert!(verifies_pss(&one.key.public_key_to_der_pkcs1().unwrap(), &raw, &signature));
    assert!(!verifies_pss(&other.key.public_key_to_der_pkcs1().unwrap(), &raw, &signature));
}
