//! The constants of the protocol that are visible on the wire.

use vstd::prelude::*;
use vstd::slice::slice_to_vec;

verus! {

/// The system id that marks a PSSH box as Widevine's.
pub const WIDEVINE_SYSTEM_ID: [u8; 16] = [
    0xED, 0xEF, 0x8B, 0xA9, 0x79, 0xD6, 0x4A, 0xCE, 0xA3, 0xC8, 0x27, 0xDC, 0xD5, 0x1D, 0x21, 0xED,
];

/// The request that some license services answer with their service
/// certificate, wrapped in a signed message.
pub const SERVICE_CERTIFICATE_CHALLENGE: [u8; 2] = [0x08, 0x04];

/// The Widevine root public key, PKCS#1 DER. Service certificates are checked
/// against it.
pub const WIDEVINE_ROOT_PUBLIC_KEY: [u8; 398] = [
    0x30, 0x82, 0x01, 0x8A, 0x02, 0x82, 0x01, 0x81, 0x00, 0xB4, 0xFE, 0x39, 0xC3, 0x65, 0x90, 0x03,
    0xDB, 0x3C, 0x11, 0x97, 0x09, 0xE8, 0x68, 0xCD, 0xF2, 0xC3, 0x5E, 0x9B, 0xF2, 0xE7, 0x4D, 0x23,
    0xB1, 0x10, 0xDB, 0x87, 0x65, 0xDF, 0xDC, 0xFB, 0x9F, 0x35, 0xA0, 0x57, 0x03, 0x53, 0x4C, 0xF6,
    0x6D, 0x35, 0x7D, 0xA6, 0x78, 0xDB, 0xB3, 0x36, 0xD2, 0x3F, 0x9C, 0x40, 0xA9, 0x95, 0x26, 0x72,
    0x7F, 0xB8, 0xBE, 0x66, 0xDF, 0xC5, 0x21, 0x98, 0x78, 0x15, 0x16, 0x68, 0x5D, 0x2F, 0x46, 0x0E,
    0x43, 0xCB, 0x8A, 0x84, 0x39, 0xAB, 0xFB, 0xB0, 0x35, 0x80, 0x22, 0xBE, 0x34, 0x23, 0x8B, 0xAB,
    0x53, 0x5B, 0x72, 0xEC, 0x4B, 0xB5, 0x48, 0x69, 0x53, 0x3E, 0x47, 0x5F, 0xFD, 0x09, 0xFD, 0xA7,
    0x76, 0x13, 0x8F, 0x0F, 0x92, 0xD6, 0x4C, 0xDF, 0xAE, 0x76, 0xA9, 0xBA, 0xD9, 0x22, 0x10, 0xA9,
    0x9D, 0x71, 0x45, 0xD6, 0xD7, 0xE1, 0x19, 0x25, 0x85, 0x9C, 0x53, 0x9A, 0x97, 0xEB, 0x84, 0xD7,
    0xCC, 0xA8, 0x88, 0x82, 0x20, 0x70, 0x26, 0x20, 0xFD, 0x7E, 0x40, 0x50, 0x27, 0xE2, 0x25, 0x93,
    0x6F, 0xBC, 0x3E, 0x72, 0xA0, 0xFA, 0xC1, 0xBD, 0x29, 0xB4, 0x4D, 0x82, 0x5C, 0xC1, 0xB4, 0xCB,
    0x9C, 0x72, 0x7E, 0xB0, 0xE9, 0x8A, 0x17, 0x3E, 0x19, 0x63, 0xFC, 0xFD, 0x82, 0x48, 0x2B, 0xB7,
    0xB2, 0x33, 0xB9, 0x7D, 0xEC, 0x4B, 0xBA, 0x89, 0x1F, 0x27, 0xB8, 0x9B, 0x88, 0x48, 0x84, 0xAA,
    0x18, 0x92, 0x0E, 0x65, 0xF5, 0xC8, 0x6C, 0x11, 0xFF, 0x6B, 0x36, 0xE4, 0x74, 0x34, 0xCA, 0x8C,
    0x33, 0xB1, 0xF9, 0xB8, 0x8E, 0xB4, 0xE6, 0x12, 0xE0, 0x02, 0x98, 0x79, 0x52, 0x5E, 0x45, 0x33,
    0xFF, 0x11, 0xDC, 0xEB, 0xC3, 0x53, 0xBA, 0x7C, 0x60, 0x1A, 0x11, 0x3D, 0x00, 0xFB, 0xD2, 0xB7,
    0xAA, 0x30, 0xFA, 0x4F, 0x5E, 0x48, 0x77, 0x5B, 0x17, 0xDC, 0x75, 0xEF, 0x6F, 0xD2, 0x19, 0x6D,
    0xDC, 0xBE, 0x7F, 0xB0, 0x78, 0x8F, 0xDC, 0x82, 0x60, 0x4C, 0xBF, 0xE4, 0x29, 0x06, 0x5E, 0x69,
    0x8C, 0x39, 0x13, 0xAD, 0x14, 0x25, 0xED, 0x19, 0xB2, 0xF2, 0x9F, 0x01, 0x82, 0x0D, 0x56, 0x44,
    0x88, 0xC8, 0x35, 0xEC, 0x1F, 0x11, 0xB3, 0x24, 0xE0, 0x59, 0x0D, 0x37, 0xE4, 0x47, 0x3C, 0xEA,
    0x4B, 0x7F, 0x97, 0x31, 0x1C, 0x81, 0x7C, 0x94, 0x8A, 0x4C, 0x7D, 0x68, 0x15, 0x84, 0xFF, 0xA5,
    0x08, 0xFD, 0x18, 0xE7, 0xE7, 0x2B, 0xE4, 0x47, 0x27, 0x12, 0x11, 0xB8, 0x23, 0xEC, 0x58, 0x93,
    0x3C, 0xAC, 0x12, 0xD2, 0x88, 0x6D, 0x41, 0x3D, 0xC5, 0xFE, 0x1C, 0xDC, 0xB9, 0xF8, 0xD4, 0x51,
    0x3E, 0x07, 0xE5, 0x03, 0x6F, 0xA7, 0x12, 0xE8, 0x12, 0xF7, 0xB5, 0xCE, 0xA6, 0x96, 0x55, 0x3F,
    0x78, 0xB4, 0x64, 0x82, 0x50, 0xD2, 0x33, 0x5F, 0x91, 0x02, 0x03, 0x01, 0x00, 0x01,
];

/// The service certificate of the common license service, as a signed message.
pub const COMMON_SERVICE_CERTIFICATE: [u8; 716] = [
    0x08, 0x05, 0x12, 0xC7, 0x05, 0x0A, 0xC1, 0x02, 0x08, 0x03, 0x12, 0x10, 0x17, 0x05, 0xB9, 0x17,
    0xCC, 0x12, 0x04, 0x86, 0x8B, 0x06, 0x33, 0x3A, 0x2F, 0x77, 0x2A, 0x8C, 0x18, 0x82, 0xB4, 0x82,
    0x92, 0x05, 0x22, 0x8E, 0x02, 0x30, 0x82, 0x01, 0x0A, 0x02, 0x82, 0x01, 0x01, 0x00, 0x99, 0xED,
    0x5B, 0x3B, 0x32, 0x7D, 0xAB, 0x5E, 0x24, 0xEF, 0xC3, 0xB6, 0x2A, 0x95, 0xB5, 0x98, 0x52, 0x0A,
    0xD5, 0xBC, 0xCB, 0x37, 0x50, 0x3E, 0x06, 0x45, 0xB8, 0x14, 0xD8, 0x76, 0xB8, 0xDF, 0x40, 0x51,
    0x04, 0x41, 0xAD, 0x8C, 0xE3, 0xAD, 0xB1, 0x1B, 0xB8, 0x8C, 0x4E, 0x72, 0x5A, 0x5E, 0x4A, 0x9E,
    0x07, 0x95, 0x29, 0x1D, 0x58, 0x58, 0x40, 0x23, 0xA7, 0xE1, 0xAF, 0x0E, 0x38, 0xA9, 0x12, 0x79,
    0x39, 0x30, 0x08, 0x61, 0x0B, 0x6F, 0x15, 0x8C, 0x87, 0x8C, 0x7E, 0x21, 0xBF, 0xFB, 0xFE, 0xEA,
    0x77, 0xE1, 0x01, 0x9E, 0x1E, 0x57, 0x81, 0xE8, 0xA4, 0x5F, 0x46, 0x26, 0x3D, 0x14, 0xE6, 0x0E,
    0x80, 0x58, 0xA8, 0x60, 0x7A, 0xDC, 0xE0, 0x4F, 0xAC, 0x84, 0x57, 0xB1, 0x37, 0xA8, 0xD6, 0x7C,
    0xCD, 0xEB, 0x33, 0x70, 0x5D, 0x98, 0x3A, 0x21, 0xFB, 0x4E, 0xEC, 0xBD, 0x4A, 0x10, 0xCA, 0x47,
    0x49, 0x0C, 0xA4, 0x7E, 0xAA, 0x5D, 0x43, 0x82, 0x18, 0xDD, 0xBA, 0xF1, 0xCA, 0xDE, 0x33, 0x92,
    0xF1, 0x3D, 0x6F, 0xFB, 0x64, 0x42, 0xFD, 0x31, 0xE1, 0xBF, 0x40, 0xB0, 0xC6, 0x04, 0xD1, 0xC4,
    0xBA, 0x4C, 0x95, 0x20, 0xA4, 0xBF, 0x97, 0xEE, 0xBD, 0x60, 0x92, 0x9A, 0xFC, 0xEE, 0xF5, 0x5B,
    0xBA, 0xF5, 0x64, 0xE2, 0xD0, 0xE7, 0x6C, 0xD7, 0xC5, 0x5C, 0x73, 0xA0, 0x82, 0xB9, 0x96, 0x12,
    0x0B, 0x83, 0x59, 0xED, 0xCE, 0x24, 0x70, 0x70, 0x82, 0x68, 0x0D, 0x6F, 0x67, 0xC6, 0xD8, 0x2C,
    0x4A, 0xC5, 0xF3, 0x13, 0x44, 0x90, 0xA7, 0x4E, 0xEC, 0x37, 0xAF, 0x4B, 0x2F, 0x01, 0x0C, 0x59,
    0xE8, 0x28, 0x43, 0xE2, 0x58, 0x2F, 0x0B, 0x6B, 0x9F, 0x5D, 0xB0, 0xFC, 0x5E, 0x6E, 0xDF, 0x64,
    0xFB, 0xD3, 0x08, 0xB4, 0x71, 0x1B, 0xCF, 0x12, 0x50, 0x01, 0x9C, 0x9F, 0x5A, 0x09, 0x02, 0x03,
    0x01, 0x00, 0x01, 0x3A, 0x14, 0x6C, 0x69, 0x63, 0x65, 0x6E, 0x73, 0x65, 0x2E, 0x77, 0x69, 0x64,
    0x65, 0x76, 0x69, 0x6E, 0x65, 0x2E, 0x63, 0x6F, 0x6D, 0x12, 0x80, 0x03, 0xAE, 0x34, 0x73, 0x14,
    0xB5, 0xA8, 0x35, 0x29, 0x7F, 0x27, 0x13, 0x88, 0xFB, 0x7B, 0xB8, 0xCB, 0x52, 0x77, 0xD2, 0x49,
    0x82, 0x3C, 0xDD, 0xD1, 0xDA, 0x30, 0xB9, 0x33, 0x39, 0x51, 0x1E, 0xB3, 0xCC, 0xBD, 0xEA, 0x04,
    0xB9, 0x44, 0xB9, 0x27, 0xC1, 0x21, 0x34, 0x6E, 0xFD, 0xBD, 0xEA, 0xC9, 0xD4, 0x13, 0x91, 0x7E,
    0x6E, 0xC1, 0x76, 0xA1, 0x04, 0x38, 0x46, 0x0A, 0x50, 0x3B, 0xC1, 0x95, 0x2B, 0x9B, 0xA4, 0xE4,
    0xCE, 0x0F, 0xC4, 0xBF, 0xC2, 0x0A, 0x98, 0x08, 0xAA, 0xAF, 0x4B, 0xFC, 0xD1, 0x9C, 0x1D, 0xCF,
    0xCD, 0xF5, 0x74, 0xCC, 0xAC, 0x28, 0xD1, 0xB4, 0x10, 0x41, 0x6C, 0xF9, 0xDE, 0x88, 0x04, 0x30,
    0x1C, 0xBD, 0xB3, 0x34, 0xCA, 0xFC, 0xD0, 0xD4, 0x09, 0x78, 0x42, 0x3A, 0x64, 0x2E, 0x54, 0x61,
    0x3D, 0xF0, 0xAF, 0xCF, 0x96, 0xCA, 0x4A, 0x92, 0x49, 0xD8, 0x55, 0xE4, 0x2B, 0x3A, 0x70, 0x3E,
    0xF1, 0x76, 0x7F, 0x6A, 0x9B, 0xD3, 0x6D, 0x6B, 0xF8, 0x2B, 0xE7, 0x6B, 0xBF, 0x0C, 0xBA, 0x4F,
    0xDE, 0x59, 0xD2, 0xAB, 0xCC, 0x76, 0xFE, 0xB6, 0x42, 0x47, 0xB8, 0x5C, 0x43, 0x1F, 0xBC, 0xA5,
    0x22, 0x66, 0xB6, 0x19, 0xFC, 0x36, 0x97, 0x95, 0x43, 0xFC, 0xA9, 0xCB, 0xBD, 0xBB, 0xFA, 0xFA,
    0x0E, 0x1A, 0x55, 0xE7, 0x55, 0xA3, 0xC7, 0xBC, 0xE6, 0x55, 0xF9, 0x64, 0x6F, 0x58, 0x2A, 0xB9,
    0xCF, 0x70, 0xAA, 0x08, 0xB9, 0x79, 0xF8, 0x67, 0xF6, 0x3A, 0x0B, 0x2B, 0x7F, 0xDB, 0x36, 0x2C,
    0x5B, 0xC4, 0xEC, 0xD5, 0x55, 0xD8, 0x5B, 0xCA, 0xA9, 0xC5, 0x93, 0xC3, 0x83, 0xC8, 0x57, 0xD4,
    0x9D, 0xAA, 0xB7, 0x7E, 0x40, 0xB7, 0x85, 0x1D, 0xDF, 0xD2, 0x49, 0x98, 0x80, 0x8E, 0x35, 0xB2,
    0x58, 0xE7, 0x5D, 0x78, 0xEA, 0xC0, 0xCA, 0x16, 0xF7, 0x04, 0x73, 0x04, 0xC2, 0x0D, 0x93, 0xED,
    0xE4, 0xE8, 0xFF, 0x1C, 0x6F, 0x17, 0xE6, 0x24, 0x3E, 0x3F, 0x3D, 0xA8, 0xFC, 0x17, 0x09, 0x87,
    0x0E, 0xC4, 0x5F, 0xBA, 0x82, 0x3A, 0x26, 0x3F, 0x0C, 0xEF, 0xA1, 0xF7, 0x09, 0x3B, 0x19, 0x09,
    0x92, 0x83, 0x26, 0x33, 0x37, 0x05, 0x04, 0x3A, 0x29, 0xBD, 0xA6, 0xF9, 0xB4, 0x34, 0x2C, 0xC8,
    0xDF, 0x54, 0x3C, 0xB1, 0xA1, 0x18, 0x2F, 0x7C, 0x5F, 0xFF, 0x33, 0xF1, 0x04, 0x90, 0xFA, 0xCA,
    0x5B, 0x25, 0x36, 0x0B, 0x76, 0x01, 0x5E, 0x9C, 0x5A, 0x06, 0xAB, 0x8E, 0xE0, 0x2F, 0x00, 0xD2,
    0xE8, 0xD5, 0x98, 0x61, 0x04, 0xAA, 0xCC, 0x4D, 0xD4, 0x75, 0xFD, 0x96, 0xEE, 0x9C, 0xE4, 0xE3,
    0x26, 0xF2, 0x1B, 0x83, 0xC7, 0x05, 0x85, 0x77, 0xB3, 0x87, 0x32, 0xCD, 0xDA, 0xBC, 0x6A, 0x6B,
    0xED, 0x13, 0xFB, 0x0D, 0x49, 0xD3, 0x8A, 0x45, 0xEB, 0x87, 0xA5, 0xF4,
];

/// The bytes of the Widevine root public key.
#[verifier::opaque]
pub open spec fn spec_root_public_key() -> Seq<u8> {
    WIDEVINE_ROOT_PUBLIC_KEY@
}

/// The bytes of the bundled service certificate.
#[verifier::opaque]
pub open spec fn spec_common_service_certificate() -> Seq<u8> {
    COMMON_SERVICE_CERTIFICATE@
}

/// A copy of the Widevine root public key.
pub fn root_public_key() -> (key: Vec<u8>)
    ensures
        key@ == spec_root_public_key(),
{
    reveal(spec_root_public_key);
    let key = slice_to_vec(WIDEVINE_ROOT_PUBLIC_KEY.as_slice());
    key
}

/// A copy of the bundled service certificate.
pub fn common_service_certificate() -> (certificate: Vec<u8>)
    ensures
        certificate@ == spec_common_service_certificate(),
{
    reveal(spec_common_service_certificate);
    let certificate = slice_to_vec(COMMON_SERVICE_CERTIFICATE.as_slice());
    certificate
}

} // verus!
