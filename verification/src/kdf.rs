//! Key derivation for a license response: the session key unwrapped from the
//! response yields, by AES-128-CMAC in counter mode over the signed request,
//! the key that decrypts content keys and the key that authenticates the
//! response.

use crate::crypto::{cmac_aes128, spec_cmac_aes128};
use crate::error::{Error, ErrorKind};
use crate::wire::append_bytes;
use vstd::prelude::*;

verus! {

/// Size in bytes of the session key.
pub const SESSION_KEY_SIZE: usize = 16;

/// The label of the encryption key: `ENCRYPTION` and a zero byte.
pub open spec fn spec_encryption_label() -> Seq<u8> {
    seq![0x45u8, 0x4e, 0x43, 0x52, 0x59, 0x50, 0x54, 0x49, 0x4f, 0x4e, 0x00]
}

/// The label of the authentication keys: `AUTHENTICATION` and a zero byte.
pub open spec fn spec_authentication_label() -> Seq<u8> {
    seq![
        0x41u8,
        0x55,
        0x54,
        0x48,
        0x45,
        0x4e,
        0x54,
        0x49,
        0x43,
        0x41,
        0x54,
        0x49,
        0x4f,
        0x4e,
        0x00,
    ]
}

/// The length of the encryption key in bits, 128, as four bytes big endian.
pub open spec fn spec_encryption_trailer() -> Seq<u8> {
    seq![0x00u8, 0x00, 0x00, 0x80]
}

/// The length of the authentication key material in bits, 512, as four bytes
/// big endian.
pub open spec fn spec_authentication_trailer() -> Seq<u8> {
    seq![0x00u8, 0x00, 0x02, 0x00]
}

/// The input of the CMAC that gives the encryption key: the counter 1, the
/// label, the request as it was signed, and the trailer.
pub open spec fn spec_encryption_context(request: Seq<u8>) -> Seq<u8> {
    seq![0x01u8] + spec_encryption_label() + request + spec_encryption_trailer()
}

/// The input of the CMAC that gives one half of the authentication key: the
/// counter, the label, the request as it was signed, and the trailer.
pub open spec fn spec_authentication_context(counter: u8, request: Seq<u8>) -> Seq<u8> {
    seq![counter] + spec_authentication_label() + request + spec_authentication_trailer()
}

/// The session key that a decrypted key block holds: its first 16 bytes,
/// filled up with zero bytes where it is shorter.
pub open spec fn spec_session_key(plaintext: Seq<u8>) -> Seq<u8> {
    Seq::new(
        SESSION_KEY_SIZE as nat,
        |i: int|
            if i < plaintext.len() {
                plaintext[i]
            } else {
                0u8
            },
    )
}

/// The keys of a session.
#[derive(Clone, Debug, PartialEq, Eq)]
pub struct DerivedKeys {
    /// Decrypts the keys of the license.
    pub encryption: Vec<u8>,
    /// Authenticates the license: both halves, the first before the second.
    pub authentication: Vec<u8>,
}

/// What a [`DerivedKeys`] holds, as mathematical values.
pub struct SpecDerivedKeys {
    pub encryption: Seq<u8>,
    pub authentication: Seq<u8>,
}

impl View for DerivedKeys {
    type V = SpecDerivedKeys;

    open spec fn view(&self) -> SpecDerivedKeys {
        SpecDerivedKeys { encryption: self.encryption@, authentication: self.authentication@ }
    }
}

/// Size in bytes of a tag that a key is made of.
pub const TAG_SIZE: usize = 16;

/// The keys that follow from a session key and the request. The encryption
/// key is the tag of the encryption context; the authentication key is the tag
/// of the authentication context with counter 1 followed by the tag of the one
/// with counter 2. `Internal` where the session key is not 16 bytes, the
/// provider's error where it fails on one of the three tags, `Internal` again
/// where a tag is not 16 bytes.
pub open spec fn spec_derive_keys(session_key: Seq<u8>, request: Seq<u8>) -> Result<
    SpecDerivedKeys,
    ErrorKind,
> {
    if session_key.len() != SESSION_KEY_SIZE {
        Err(ErrorKind::Internal)
    } else {
        match (
            spec_cmac_aes128(session_key, spec_encryption_context(request)),
            spec_cmac_aes128(session_key, spec_authentication_context(1, request)),
            spec_cmac_aes128(session_key, spec_authentication_context(2, request)),
        ) {
            (Some(encryption), Some(first), Some(second)) => if encryption.len() == TAG_SIZE
                && first.len() == TAG_SIZE && second.len() == TAG_SIZE {
                Ok(SpecDerivedKeys { encryption, authentication: first + second })
            } else {
                Err(ErrorKind::Internal)
            },
            _ => Err(ErrorKind::OpenSSL),
        }
    }
}

/// The keys of a session have their sizes and their places: the encryption key
/// is 16 bytes, the tag under counter 1 of the `ENCRYPTION` context; the
/// authentication key is 32 bytes, of which the first 16 are the tag under
/// counter 1 of the `AUTHENTICATION` context and the last 16 the tag under
/// counter 2.
pub proof fn lemma_derived_keys(session_key: Seq<u8>, request: Seq<u8>)
    requires
        spec_derive_keys(session_key, request) is Ok,
    ensures
        ({
            let keys = spec_derive_keys(session_key, request)->Ok_0;
            &&& keys.encryption.len() == 16
            &&& keys.authentication.len() == 32
            &&& Some(keys.encryption) == spec_cmac_aes128(
                session_key,
                spec_encryption_context(request),
            )
            &&& Some(keys.authentication.subrange(0, 16)) == spec_cmac_aes128(
                session_key,
                spec_authentication_context(1, request),
            )
            &&& Some(keys.authentication.subrange(16, 32)) == spec_cmac_aes128(
                session_key,
                spec_authentication_context(2, request),
            )
            &&& spec_encryption_context(request)[0] == 1
            &&& spec_authentication_context(1, request)[0] == 1
            &&& spec_authentication_context(2, request)[0] == 2
        }),
{
    let first = spec_cmac_aes128(session_key, spec_authentication_context(1, request))->0;
    let second = spec_cmac_aes128(session_key, spec_authentication_context(2, request))->0;
    assert((first + second).subrange(0, 16) =~= first);
    assert((first + second).subrange(16, 32) =~= second);
}

/// Where each part of the derivation inputs stands: the counter first (1 for
/// the encryption key, 1 and 2 for the halves of the authentication key), then
/// the label, then the request, then the trailer (`00 00 00 80` and
/// `00 00 02 00`).
pub proof fn lemma_kdf_layout(request: Seq<u8>, counter: u8)
    ensures
        ({
            let n = request.len() as int;
            let e = spec_encryption_context(request);
            let a = spec_authentication_context(counter, request);
            &&& e.len() == 16 + n
            &&& e[0] == 1
            &&& e.subrange(1, 12) == spec_encryption_label()
            &&& e.subrange(12, 12 + n) == request
            &&& e.subrange(12 + n, 16 + n) == seq![0x00u8, 0x00, 0x00, 0x80]
            &&& a.len() == 20 + n
            &&& a[0] == counter
            &&& a.subrange(1, 16) == spec_authentication_label()
            &&& a.subrange(16, 16 + n) == request
            &&& a.subrange(16 + n, 20 + n) == seq![0x00u8, 0x00, 0x02, 0x00]
        }),
{
    let n = request.len() as int;
    let e = spec_encryption_context(request);
    let a = spec_authentication_context(counter, request);
    assert(e.subrange(1, 12) =~= spec_encryption_label());
    assert(e.subrange(12, 12 + n) =~= request);
    assert(e.subrange(12 + n, 16 + n) =~= seq![0x00u8, 0x00, 0x00, 0x80]);
    assert(a.subrange(1, 16) =~= spec_authentication_label());
    assert(a.subrange(16, 16 + n) =~= request);
    assert(a.subrange(16 + n, 20 + n) =~= seq![0x00u8, 0x00, 0x02, 0x00]);
}

/// The session key that a decrypted key block holds.
pub fn session_key(plaintext: &[u8]) -> (key: Vec<u8>)
    ensures
        key@ == spec_session_key(plaintext@),
{
    let mut key: Vec<u8> = Vec::new();
    let mut i: usize = 0;
    while i < SESSION_KEY_SIZE
        invariant
            i <= SESSION_KEY_SIZE,
            key@.len() == i,
            forall|k: int| 0 <= k < i ==> key@[k] == spec_session_key(plaintext@)[k],
        decreases SESSION_KEY_SIZE - i,
    {
        if i < plaintext.len() {
            key.push(plaintext[i]);
        } else {
            key.push(0);
        }
        i = i + 1;
    }
    assert(key@ =~= spec_session_key(plaintext@));
    key
}

/// The input of the CMAC that gives the encryption key.
pub fn encryption_context(request: &[u8]) -> (context: Vec<u8>)
    ensures
        context@ == spec_encryption_context(request@),
{
    let mut context: Vec<u8> = Vec::new();
    context.push(0x01);
    let label: [u8; 11] = [0x45, 0x4e, 0x43, 0x52, 0x59, 0x50, 0x54, 0x49, 0x4f, 0x4e, 0x00];
    append_bytes(&mut context, label.as_slice());
    append_bytes(&mut context, request);
    let trailer: [u8; 4] = [0x00, 0x00, 0x00, 0x80];
    append_bytes(&mut context, trailer.as_slice());
    assert(label@ =~= spec_encryption_label());
    assert(trailer@ =~= spec_encryption_trailer());
    assert(context@ =~= spec_encryption_context(request@));
    context
}

/// The input of the CMAC that gives one half of the authentication key.
pub fn authentication_context(counter: u8, request: &[u8]) -> (context: Vec<u8>)
    ensures
        context@ == spec_authentication_context(counter, request@),
{
    let mut context: Vec<u8> = Vec::new();
    context.push(counter);
    let label: [u8; 15] = [
        0x41,
        0x55,
        0x54,
        0x48,
        0x45,
        0x4e,
        0x54,
        0x49,
        0x43,
        0x41,
        0x54,
        0x49,
        0x4f,
        0x4e,
        0x00,
    ];
    append_bytes(&mut context, label.as_slice());
    append_bytes(&mut context, request);
    let trailer: [u8; 4] = [0x00, 0x00, 0x02, 0x00];
    append_bytes(&mut context, trailer.as_slice());
    assert(label@ =~= spec_authentication_label());
    assert(trailer@ =~= spec_authentication_trailer());
    assert(context@ =~= spec_authentication_context(counter, request@));
    context
}

/// Derives the keys of a session from its session key and the request as it
/// was signed. Fails with `Internal` where the session key or a tag is not 16
/// bytes, and with the provider's error where a tag cannot be computed.
pub fn derive_keys(session_key: &[u8], request: &[u8]) -> (r: Result<DerivedKeys, Error>)
    ensures
        match r {
            Ok(keys) => spec_derive_keys(session_key@, request@) == Ok::<_, ErrorKind>(keys@),
            Err(e) => spec_derive_keys(session_key@, request@) == Err::<SpecDerivedKeys, _>(
                e.spec_kind(),
            ),
        },
{
    if session_key.len() != SESSION_KEY_SIZE {
        return Err(Error::internal("the session key does not have 16 bytes"));
    }
    let encryption = match cmac_aes128(session_key, encryption_context(request).as_slice()) {
        Ok(tag) => tag,
        Err(stack) => {
            return Err(Error::provider("could not derive the encryption key", stack));
        },
    };
    let first = match cmac_aes128(session_key, authentication_context(1, request).as_slice()) {
        Ok(tag) => tag,
        Err(stack) => {
            return Err(Error::provider("could not derive the authentication key", stack));
        },
    };
    let second = match cmac_aes128(session_key, authentication_context(2, request).as_slice()) {
        Ok(tag) => tag,
        Err(stack) => {
            return Err(Error::provider("could not derive the authentication key", stack));
        },
    };
    if encryption.len() != TAG_SIZE || first.len() != TAG_SIZE || second.len() != TAG_SIZE {
        return Err(Error::internal("a derived key does not have 16 bytes"));
    }
    let mut authentication = first;
    append_bytes(&mut authentication, second.as_slice());
    Ok(DerivedKeys { encryption, authentication })
}

} // verus!
