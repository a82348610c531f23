use base64::Engine;
use openssl::hash::MessageDigest;
use openssl::pkey::PKey;
use openssl::rsa::{Padding, Rsa};
use openssl::sign::Signer;
use openssl::symm::Cipher;
use widevine::error::ErrorKind;
use widevine::license::LicenseKeyContainer;
use widevine::response::{key_id, key_type_name, unwrap_key, unwrap_keys};
use widevine::signed_message::SignedMessage;
use widevine::wire::{encode_fields, Field, WireValue};
use widevine::{KeyContainer, LicenseDecryptionModule, Session};

const BITMOVIN_PSSH_B64: &str = "AAAAW3Bzc2gAAAAA7e+LqXnWSs6jyCfc1R0h7QAAADsIARIQ62dqu8s0Xpa7z2FmMPGj2hoNd2lkZXZpbmVfdGVzdCIQZmtqM2xqYVNkZmFsa3IzaioCSEQyAA==";

fn bitmovin_pssh() -> Vec<u8> {
    base64::engine::general_purpose::STANDARD.decode(BITMOVIN_PSSH_B64).unwrap()
}

fn unhex(text: &str) -> Vec<u8> {
    hex::decode(text).unwrap()
}

fn message(fields: Vec<Field>) -> Vec<u8> {
    let mut out = Vec::new();
    encode_fields(&fields, &mut out);
    out
}

fn bytes_field(number: u32, value: &[u8]) -> Field {
    Field { number, value: WireValue::Bytes(value.to_vec()) }
}

fn varint_field(number: u32, value: u64) -> Field {
    Field { number, value: WireValue::Varint(value) }
}

fn cmac(key: &[u8], data: &[u8]) -> Vec<u8> {
    let key = PKey::cmac(&Cipher::aes_128_cbc(), key).unwrap();
    let mut signer = Signer::new_without_digest(&key).unwrap();
    signer.update(data).unwrap();
    signer.sign_to_vec().unwrap()
}

fn hmac(key: &[u8], data: &[u8]) -> Vec<u8> {
    let key = PKey::hmac(key).unwrap();
    let mut signer = Signer::new(MessageDigest::sha256(), &key).unwrap();
    signer.update(data).unwrap();
    signer.sign_to_vec().unwrap()
}

fn context(counter: u8, label: &[u8], request: &[u8], trailer: [u8; 4]) -> Vec<u8> {
    let mut out = vec![counter];
    out.extend_from_slice(label);
    out.extend_from_slice(request);
    out.extend_from_slice(&trailer);
    out
}

/// What a license service does with a request: it picks a session key, wraps
/// it for the device, derives the keys of the session and signs its license.
struct Service {
    session_key: Vec<u8>,
    encryption_key: Vec<u8>,
    authentication_key: Vec<u8>,
    wrapped_session_key: Vec<u8>,
}

fn service(device: &Rsa<openssl::pkey::Private>, request: &[u8], session_key: &[u8]) -> Service {
    let encryption_key =
        cmac(&session_key[..16], &context(1, b"ENCRYPTION\x00", request, [0, 0, 0, 0x80]));
    let mut authentication_key =
        cmac(&session_key[..16], &context(1, b"AUTHENTICATION\x00", request, [0, 0, 2, 0]));
    authentication_key.extend_from_slice(&cmac(
        &session_key[..16],
        &context(2, b"AUTHENTICATION\x00", request, [0, 0, 2, 0]),
    ));
    let mut wrapped = vec![0u8; device.size() as usize];
    let written = device.public_encrypt(session_key, &mut wrapped, Padding::PKCS1_OAEP).unwrap();
    wrapped.truncate(written);
    Service {
        session_key: session_key.to_vec(),
        encryption_key,
        authentication_key,
        wrapped_session_key: wrapped,
    }
}

impl Service {
    fn key_container(&self, id: &[u8], iv: &[u8; 16], key: &[u8], key_type: u64) -> Vec<u8> {
        let wrapped =
            openssl::symm::encrypt(Cipher::aes_128_cbc(), &self.encryption_key, Some(iv), key)
                .unwrap();
        let mut fields = Vec::new();
        if !id.is_empty() {
            fields.push(bytes_field(1, id));
        }
        fields.push(bytes_field(2, iv));
        fields.push(bytes_field(3, &wrapped));
        fields.push(varint_field(4, key_type));
        message(fields)
    }

    fn respond(&self, license: &[u8]) -> SignedMessage {
        SignedMessage {
            message_type: Some(2),
            msg: Some(license.to_vec()),
            signature: Some(hmac(&self.authentication_key, license)),
            session_key: Some(self.wrapped_session_key.clone()),
        }
    }
}

struct Exchange {
    ldm: LicenseDecryptionModule,
    session: Session,
    service: Service,
}

fn exchange_with_session_key(session_key: &[u8]) -> Exchange {
    let device = Rsa::generate(2048).unwrap();
    let blob = message(vec![varint_field(1, 1), bytes_field(2, &[0x42; 32])]);
    let ldm =
        LicenseDecryptionModule::new(&device.private_key_to_pem().unwrap(), blob, None).unwrap();
    let mut session = Session::new();
    let out = session.create_license_request(&ldm, bitmovin_pssh()).unwrap();
    let request = SignedMessage::decode(&out).unwrap().msg.unwrap();
    let service = service(&device, &request, session_key);
    Exchange { ldm, session, service }
}

fn exchange() -> Exchange {
    exchange_with_session_key(&unhex("101112131415161718191a1b1c1d1e1f"))
}

fn sample_license(service: &Service) -> Vec<u8> {
    let signing = service.key_container(&[], &[0x01; 16], &[0x5a; 64], 1);
    let content = service.key_container(
        &unhex("eb676abbcb345e96bbcf616630f1a3da"),
        &[0x02; 16],
        &unhex("100b6c20940f779a4589152b57d2dacb"),
        2,
    );
    message(vec![
        bytes_field(1, &[0x0a, 0x00]),
        bytes_field(3, &signing),
        bytes_field(3, &content),
        varint_field(4, 1_700_000_000),
    ])
}

fn kinds(keys: &[KeyContainer]) -> Vec<(String, String)> {
    keys.iter().map(|key| (key.kid.clone(), key.key.clone())).collect()
}

#[test]
fn license_gives_its_keys_in_order() {
    let exchange = exchange();
    let response = exchange.service.respond(&sample_license(&exchange.service));
    let keys = exchange.session.parse_license(&exchange.ldm, response.encode_to_vec()).unwrap();
    assert_eq!(
        kinds(&keys),
        vec![
            ("SIGNING".to_string(), "5a".repeat(64)),
            (
                "eb676abbcb345e96bbcf616630f1a3da".to_string(),
                "100b6c20940f779a4589152b57d2dacb".to_string()
            ),
        ]
    );
    assert_eq!(keys[1].kid.len(), 32);
    assert_eq!(keys[1].key.len(), 32);
}

#[test]
fn license_without_keys_gives_none() {
    let exchange = exchange();
    let response = exchange.service.respond(&[]);
    let keys = exchange.session.parse_license(&exchange.ldm, response.encode_to_vec()).unwrap();
    assert!(keys.is_empty());
}

#[test]
fn session_key_longer_than_sixteen_bytes_counts_by_its_start() {
    let exchange = exchange_with_session_key(&[0x77; 32]);
    assert_eq!(exchange.service.session_key.len(), 32);
    let response = exchange.service.respond(&sample_license(&exchange.service));
    let keys = exchange.session.parse_license(&exchange.ldm, response.encode_to_vec()).unwrap();
    assert_eq!(keys.len(), 2);
}

#[test]
fn license_with_a_changed_signature_is_refused() {
    for at in [0usize, 15, 31] {
        let exchange = exchange();
        let mut response = exchange.service.respond(&sample_license(&exchange.service));
        response.signature.as_mut().unwrap()[at] ^= 0x01;
        let refused = exchange.session.parse_license(&exchange.ldm, response.encode_to_vec());
        let error = refused.err().unwrap();
        assert_eq!(error.kind(), ErrorKind::Input);
        match error {
            widevine::error::Error::Input { message } => {
                assert_eq!(message, "license signature invalid")
            }
            _ => unreachable!(),
        }
    }
}

#[test]
fn license_with_a_shortened_signature_is_refused() {
    let exchange = exchange();
    let mut response = exchange.service.respond(&sample_license(&exchange.service));
    response.signature.as_mut().unwrap().pop();
    let refused = exchange.session.parse_license(&exchange.ldm, response.encode_to_vec());
    assert_eq!(refused.err().map(|e| e.kind()), Some(ErrorKind::Input));
}

#[test]
fn license_without_signature_is_refused() {
    let exchange = exchange();
    let mut response = exchange.service.respond(&sample_license(&exchange.service));
    response.signature = None;
    let refused = exchange.session.parse_license(&exchange.ldm, response.encode_to_vec());
    assert_eq!(refused.err().map(|e| e.kind()), Some(ErrorKind::Input));
}

#[test]
fn license_with_a_changed_message_is_refused() {
    let exchange = exchange();
    let license = sample_license(&exchange.service);
    for at in [0usize, license.len() / 2, license.len() - 1] {
        let exchange = self::exchange();
        let license = sample_license(&exchange.service);
        let mut response = exchange.service.respond(&license);
        response.msg.as_mut().unwrap()[at] ^= 0x01;
        let refused = exchange.session.parse_license(&exchange.ldm, response.encode_to_vec());
        assert_eq!(refused.err().map(|e| e.kind()), Some(ErrorKind::Input));
    }
}

#[test]
fn license_for_another_request_is_refused() {
    let one = exchange();
    let other = exchange();
    // signed under the keys of another session, wrapped for this device
    let mut response = other.service.respond(&sample_license(&other.service));
    response.session_key = Some(one.service.wrapped_session_key.clone());
    let refused = one.session.parse_license(&one.ldm, response.encode_to_vec());
    assert_eq!(refused.err().map(|e| e.kind()), Some(ErrorKind::Input));
}

#[test]
fn response_that_is_no_signed_message_is_refused() {
    let exchange = exchange();
    let refused = exchange.session.parse_license(&exchange.ldm, vec![0x08]);
    assert_eq!(refused.err().map(|e| e.kind()), Some(ErrorKind::Input));
}

#[test]
fn response_with_a_session_key_that_does_not_open_is_a_provider_error() {
    let exchange = exchange();
    let mut response = exchange.service.respond(&sample_license(&exchange.service));
    response.session_key = Some(vec![0x01; 256]);
    let refused = exchange.session.parse_license(&exchange.ldm, response.encode_to_vec());
    assert_eq!(refused.err().map(|e| e.kind()), Some(ErrorKind::OpenSSL));
}

#[test]
fn response_without_session_key_is_a_provider_error() {
    let exchange = exchange();
    let mut response = exchange.service.respond(&sample_license(&exchange.service));
    response.session_key = None;
    let refused = exchange.session.parse_license(&exchange.ldm, response.encode_to_vec());
    assert_eq!(refused.err().map(|e| e.kind()), Some(ErrorKind::OpenSSL));
}

#[test]
fn signed_message_that_holds_no_license_is_refused() {
    let exchange = exchange();
    let response = exchange.service.respond(&[0x1a, 0x02, 0x08, 0x01]);
    let refused = exchange.session.parse_license(&exchange.ldm, response.encode_to_vec());
    assert_eq!(refused.err().map(|e| e.kind()), Some(ErrorKind::Input));
}

#[test]
fn key_with_a_short_vector_is_refused() {
    let exchange = exchange();
    let container = message(vec![bytes_field(2, &[0x01; 8]), bytes_field(3, &[0x02; 16])]);
    let response = exchange.service.respond(&message(vec![bytes_field(3, &container)]));
    let refused = exchange.session.parse_license(&exchange.ldm, response.encode_to_vec());
    assert_eq!(refused.err().map(|e| e.kind()), Some(ErrorKind::Input));
}

#[test]
fn key_with_a_wrong_padding_is_a_provider_error() {
    let exchange = exchange();
    let container = message(vec![bytes_field(2, &[0x01; 16]), bytes_field(3, &[0x02; 15])]);
    let response = exchange.service.respond(&message(vec![bytes_field(3, &container)]));
    let refused = exchange.session.parse_license(&exchange.ldm, response.encode_to_vec());
    assert_eq!(refused.err().map(|e| e.kind()), Some(ErrorKind::OpenSSL));
}

#[test]
fn key_is_decrypted_and_named() {
    let key = unhex("2b7e151628aed2a6abf7158809cf4f3c");
    let container = LicenseKeyContainer {
        id: Some(vec![0x00, 0x1f, 0xa0, 0xff]),
        iv: Some(unhex("000102030405060708090a0b0c0d0e0f")),
        key: Some(unhex("b577ed00e35432951e2f6e82cbe2717779d78c148f2828086e83a6ba1890a63c")),
        key_type: Some(2),
    };
    let opened = unwrap_key(&key, &container).unwrap();
    assert_eq!(opened.kid, "001fa0ff");
    assert_eq!(opened.key, "00112233445566778899aabbccddeeff");
}

#[test]
fn first_key_that_fails_decides() {
    let key = unhex("2b7e151628aed2a6abf7158809cf4f3c");
    let good = LicenseKeyContainer {
        id: None,
        iv: Some(unhex("000102030405060708090a0b0c0d0e0f")),
        key: Some(unhex("b577ed00e35432951e2f6e82cbe2717779d78c148f2828086e83a6ba1890a63c")),
        key_type: Some(2),
    };
    let short_vector = LicenseKeyContainer { iv: Some(vec![0; 4]), ..good.clone() };
    let bad_padding = LicenseKeyContainer { key: Some(vec![0; 5]), ..good.clone() };
    let all = unwrap_keys(&key, &vec![good.clone(), good.clone()]).unwrap();
    assert_eq!(all.len(), 2);
    assert_eq!(all[0].kid, "CONTENT");
    let refused = unwrap_keys(&key, &vec![good.clone(), short_vector.clone(), bad_padding.clone()]);
    assert_eq!(refused.err().map(|e| e.kind()), Some(ErrorKind::Input));
    let refused = unwrap_keys(&key, &vec![bad_padding, short_vector, good]);
    assert_eq!(refused.err().map(|e| e.kind()), Some(ErrorKind::OpenSSL));
}

#[test]
fn key_without_id_is_named_by_its_type() {
    let names = [
        (Some(1), "SIGNING"),
        (Some(2), "CONTENT"),
        (Some(3), "KEY_CONTROL"),
        (Some(4), "OPERATOR_SESSION"),
        (Some(5), "ENTITLEMENT"),
        (Some(6), "SIGNING"),
        (None, "SIGNING"),
        (Some(0), "SIGNING"),
        (Some(7), "SIGNING"),
        (Some(-1), "SIGNING"),
    ];
    for (key_type, name) in names {
        assert_eq!(key_type_name(key_type), name);
        let container = LicenseKeyContainer { id: None, iv: None, key: None, key_type };
        assert_eq!(key_id(&container), name);
        let empty = LicenseKeyContainer { id: Some(vec![]), iv: None, key: None, key_type };
        assert_eq!(key_id(&empty), name);
    }
}

#[test]
fn key_with_id_is_named_by_its_hex() {
    let container = LicenseKeyContainer {
        id: Some(vec![0x00, 0x09, 0x0a, 0x0f, 0x10, 0x9a, 0xbc, 0xde, 0xf0, 0xff]),
        iv: None,
        key: None,
        key_type: Some(2),
    };
    assert_eq!(key_id(&container), "00090a0f109abcdef0ff");
}

#[test]
fn encryption_key_of_another_size_opens_nothing() {
    let container = LicenseKeyContainer {
        id: None,
        iv: Some(vec![0; 16]),
        key: Some(vec![0; 16]),
        key_type: Some(2),
    };
    for size in [0usize, 15, 17, 32] {
        let refused = unwrap_key(&vec![0x11; size], &container);
        assert_eq!(refused.err().map(|e| e.kind()), Some(ErrorKind::Internal), "{}", size);
        let refused = unwrap_keys(&vec![0x11; size], &vec![container.clone()]);
        assert_eq!(refused.err().map(|e| e.kind()), Some(ErrorKind::Internal), "{}", size);
    }
    assert!(unwrap_keys(&[0x11; 3], &vec![]).unwrap().is_empty());
}
