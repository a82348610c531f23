use base64::Engine;
use widevine::pssh::{check_pssh, has_widevine_system_id};
use widevine::WIDEVINE_SYSTEM_ID;

const BITMOVIN_PSSH_B64: &str = "AAAAW3Bzc2gAAAAA7e+LqXnWSs6jyCfc1R0h7QAAADsIARIQ62dqu8s0Xpa7z2FmMPGj2hoNd2lkZXZpbmVfdGVzdCIQZmtqM2xqYVNkZmFsa3IzaioCSEQyAA==";

fn bitmovin_pssh() -> Vec<u8> {
    base64::engine::general_purpose::STANDARD.decode(BITMOVIN_PSSH_B64).unwrap()
}

#[test]
fn system_id_is_the_widevine_one() {
    assert_eq!(
        WIDEVINE_SYSTEM_ID,
        [
            0xED, 0xEF, 0x8B, 0xA9, 0x79, 0xD6, 0x4A, 0xCE, 0xA3, 0xC8, 0x27, 0xDC, 0xD5, 0x1D,
            0x21, 0xED
        ]
    );
}

#[test]
fn bitmovin_box_is_accepted() {
    let pssh = bitmovin_pssh();
    assert_eq!(pssh.len(), 91);
    assert!(has_widevine_system_id(&pssh));
    assert!(check_pssh(&pssh));
}

#[test]
fn box_with_zero_system_id_is_refused() {
    let mut pssh = bitmovin_pssh();
    for byte in pssh[12..28].iter_mut() {
        *byte = 0;
    }
    assert!(!has_widevine_system_id(&pssh));
}

#[test]
fn box_with_one_changed_system_id_byte_is_refused() {
    for at in 12..28 {
        let mut pssh = bitmovin_pssh();
        pssh[at] ^= 0x01;
        assert!(!has_widevine_system_id(&pssh), "byte {}", at);
    }
}

#[test]
fn box_shorter_than_its_system_id_is_refused() {
    let pssh = bitmovin_pssh();
    assert!(!has_widevine_system_id(&pssh[..27].to_vec()));
    assert!(has_widevine_system_id(&pssh[..28].to_vec()));
    assert!(!has_widevine_system_id(&Vec::new()));
}

#[test]
fn box_without_data_start_is_refused() {
    let pssh = bitmovin_pssh();
    assert!(!check_pssh(&pssh[..31].to_vec()));
    assert!(check_pssh(&pssh[..32].to_vec()));
}

#[test]
fn box_with_data_cut_short_is_refused() {
    let pssh = bitmovin_pssh();
    assert!(!check_pssh(&pssh[..pssh.len() - 1].to_vec()));
    let mut broken = pssh.clone();
    broken.push(0x08);
    assert!(!check_pssh(&broken));
}
