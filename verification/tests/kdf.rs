use widevine::error::ErrorKind;
use widevine::kdf::{
    authentication_context, derive_keys, encryption_context, session_key, SESSION_KEY_SIZE,
    TAG_SIZE,
};

fn unhex(text: &str) -> Vec<u8> {
    hex::decode(text).unwrap()
}

#[test]
fn encryption_context_has_counter_label_request_and_trailer() {
    let context = encryption_context(&[0xaa, 0xbb]);
    let mut expected = vec![0x01];
    expected.extend_from_slice(b"ENCRYPTION\x00");
    expected.extend_from_slice(&[0xaa, 0xbb]);
    expected.extend_from_slice(&[0x00, 0x00, 0x00, 0x80]);
    assert_eq!(context, expected);
}

#[test]
fn authentication_context_has_counter_label_request_and_trailer() {
    for counter in [1u8, 2u8] {
        let context = authentication_context(counter, &[0xaa, 0xbb]);
        let mut expected = vec![counter];
        expected.extend_from_slice(b"AUTHENTICATION\x00");
        expected.extend_from_slice(&[0xaa, 0xbb]);
        expected.extend_from_slice(&[0x00, 0x00, 0x02, 0x00]);
        assert_eq!(context, expected);
    }
}

#[test]
fn contexts_of_an_empty_request() {
    assert_eq!(encryption_context(&[]), unhex("01454e4352595054494f4e0000000080"));
    assert_eq!(
        authentication_context(2, &[]),
        unhex("0241555448454e5449434154494f4e0000000200")
    );
}

#[test]
fn session_key_is_the_first_sixteen_bytes() {
    let plaintext: Vec<u8> = (0u8..40).collect();
    assert_eq!(session_key(&plaintext), (0u8..16).collect::<Vec<u8>>());
    let exact: Vec<u8> = (0u8..16).collect();
    assert_eq!(session_key(&exact), exact);
}

#[test]
fn session_key_is_filled_up_with_zeros() {
    assert_eq!(session_key(&[1, 2, 3]), vec![1, 2, 3, 0, 0, 0, 0, 0, 0, 0, 0, 0, 0, 0, 0, 0]);
    assert_eq!(session_key(&[]), vec![0; 16]);
}

#[test]
fn derived_keys_are_the_three_tags() {
    let key = unhex("000102030405060708090a0b0c0d0e0f");
    let keys = derive_keys(&key, &[0x0a, 0x0b, 0x0c]).unwrap();
    assert_eq!(keys.encryption, unhex("f2708fe04794ec14703024a0f06a77a8"));
    assert_eq!(
        keys.authentication,
        unhex("ca233d6c7c7c6e6acf10adcf2d1f1757dbfb7cd811cebf27aa20d68a0887b75c")
    );
}

#[test]
fn derived_keys_depend_on_the_request() {
    let key = unhex("000102030405060708090a0b0c0d0e0f");
    let one = derive_keys(&key, &[0x0a, 0x0b, 0x0c]).unwrap();
    let other = derive_keys(&key, &[0x0a, 0x0b, 0x0d]).unwrap();
    assert_ne!(one.encryption, other.encryption);
    assert_ne!(one.authentication, other.authentication);
    assert_eq!(one.encryption.len(), 16);
    assert_eq!(one.authentication.len(), 32);
}

#[test]
fn session_key_of_another_size_derives_nothing() {
    for size in [0usize, 15, 17, 32] {
        let refused = derive_keys(&vec![0x11; size], &[0x0a]);
        assert_eq!(refused.err().map(|e| e.kind()), Some(ErrorKind::Internal), "{}", size);
    }
}

#[test]
fn authentication_key_is_the_tag_of_counter_one_then_of_counter_two() {
    assert_eq!(SESSION_KEY_SIZE, 16);
    assert_eq!(TAG_SIZE, 16);
    let key = unhex("000102030405060708090a0b0c0d0e0f");
    let keys = derive_keys(&key, &[0x0a, 0x0b, 0x0c]).unwrap();
    assert_eq!(keys.encryption.len(), 16);
    assert_eq!(keys.authentication.len(), 32);
    assert_eq!(&keys.authentication[..16], &unhex("ca233d6c7c7c6e6acf10adcf2d1f1757")[..]);
    assert_eq!(&keys.authentication[16..], &unhex("dbfb7cd811cebf27aa20d68a0887b75c")[..]);
    assert_ne!(keys.authentication[..16], keys.authentication[16..]);
    assert_ne!(keys.encryption[..], keys.authentication[..16]);
}
