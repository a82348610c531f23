//! Reading a license response: the check of its signature, the names of its
//! keys and their decryption.

use crate::crypto::{
    aes128_cbc_decrypt, spec_aes128_cbc_decrypt, spec_hmac_sha256, spec_rsa_oaep_sha1_decrypt,
    AES_BLOCK, MAX_PROVIDER_INPUT,
};
use crate::error::{Error, ErrorKind};
use crate::kdf::{spec_derive_keys, spec_session_key};
use crate::license::{
    key_containers_view, LicenseKeyContainer, SpecLicense, SpecLicenseKeyContainer,
};
use crate::lookup::{bytes_or_empty, or_empty};
use crate::platform::{hex_encode, spec_hex};
use crate::signed_message::{lemma_signed_message_roundtrip, SpecSignedMessage};
use vstd::prelude::*;

verus! {

/// A content key as it is handed out: its id and the key, both in hex; where
/// the license gives a key no id, the name of its type stands for it.
#[derive(Clone, Debug, PartialEq, Eq)]
pub struct KeyContainer {
    pub kid: String,
    pub key: String,
}

/// What a [`KeyContainer`] holds, as mathematical values.
pub struct SpecKeyContainer {
    pub kid: Seq<char>,
    pub key: Seq<char>,
}

impl View for KeyContainer {
    type V = SpecKeyContainer;

    open spec fn view(&self) -> SpecKeyContainer {
        SpecKeyContainer { kid: self.kid@, key: self.key@ }
    }
}

/// The keys of `v`, each by its view.
pub open spec fn keys_view(v: Seq<KeyContainer>) -> Seq<SpecKeyContainer> {
    Seq::new(v.len(), |i: int| v[i]@)
}

/// The name of a key type in the schema: `SIGNING` for 1, `CONTENT` for 2,
/// `KEY_CONTROL` for 3, `OPERATOR_SESSION` for 4 and `ENTITLEMENT` for 5. A
/// key without a type, or with another one, counts as a signing key, the first
/// of the schema.
pub open spec fn spec_key_type_name(key_type: Option<i32>) -> Seq<char> {
    if key_type == Some(2i32) {
        "CONTENT"@
    } else if key_type == Some(3i32) {
        "KEY_CONTROL"@
    } else if key_type == Some(4i32) {
        "OPERATOR_SESSION"@
    } else if key_type == Some(5i32) {
        "ENTITLEMENT"@
    } else {
        "SIGNING"@
    }
}

/// Whether a text is one of the five names of key types.
pub open spec fn spec_is_key_type_name(name: Seq<char>) -> bool {
    name == "SIGNING"@ || name == "CONTENT"@ || name == "KEY_CONTROL"@ || name
        == "OPERATOR_SESSION"@ || name == "ENTITLEMENT"@
}

/// The name of a key type in the schema.
pub fn key_type_name(key_type: Option<i32>) -> (name: String)
    ensures
        name@ == spec_key_type_name(key_type),
{
    let name: &str = match key_type {
        Some(2) => "CONTENT",
        Some(3) => "KEY_CONTROL",
        Some(4) => "OPERATOR_SESSION",
        Some(5) => "ENTITLEMENT",
        _ => "SIGNING",
    };
    name.to_owned()
}

/// What a key is called: the hex of its id where it has one that is not
/// empty, else the name of its type.
pub open spec fn spec_key_id(container: SpecLicenseKeyContainer) -> Seq<char> {
    if or_empty(container.id).len() > 0 {
        spec_hex(or_empty(container.id))
    } else {
        spec_key_type_name(container.key_type)
    }
}

/// What a key is called.
pub fn key_id(container: &LicenseKeyContainer) -> (kid: String)
    ensures
        kid@ == spec_key_id(container@),
{
    match &container.id {
        Some(id) => {
            if id.len() > 0 {
                hex_encode(id.as_slice())
            } else {
                key_type_name(container.key_type)
            }
        },
        None => key_type_name(container.key_type),
    }
}

/// What one key of a license comes to under the encryption key of the
/// session: `Internal` where the encryption key is not 16 bytes, `Input` where
/// the initialisation vector is not 16 bytes or the ciphertext is longer than
/// the provider takes, the provider's error where the decryption fails, else
/// its name and the hex of the decrypted key.
pub open spec fn spec_unwrap_key(
    encryption_key: Seq<u8>,
    container: SpecLicenseKeyContainer,
) -> Result<SpecKeyContainer, ErrorKind> {
    let iv = or_empty(container.iv);
    let ciphertext = or_empty(container.key);
    if encryption_key.len() != AES_BLOCK {
        Err(ErrorKind::Internal)
    } else if iv.len() != AES_BLOCK || ciphertext.len() > MAX_PROVIDER_INPUT {
        Err(ErrorKind::Input)
    } else {
        match spec_aes128_cbc_decrypt(encryption_key, iv, ciphertext) {
            None => Err(ErrorKind::OpenSSL),
            Some(key) => Ok(SpecKeyContainer { kid: spec_key_id(container), key: spec_hex(key) }),
        }
    }
}

/// What the keys of a license come to, in their order: the first that fails
/// decides the error.
pub open spec fn spec_unwrap_keys(
    encryption_key: Seq<u8>,
    containers: Seq<SpecLicenseKeyContainer>,
) -> Result<Seq<SpecKeyContainer>, ErrorKind>
    decreases containers.len(),
{
    if containers.len() == 0 {
        Ok(Seq::empty())
    } else {
        match spec_unwrap_keys(encryption_key, containers.drop_last()) {
            Err(kind) => Err(kind),
            Ok(before) => match spec_unwrap_key(encryption_key, containers.last()) {
                Err(kind) => Err(kind),
                Ok(key) => Ok(before.push(key)),
            },
        }
    }
}

/// Where the first `n` keys fail, all of them fail in the same way.
pub proof fn lemma_unwrap_keys_prefix(
    encryption_key: Seq<u8>,
    containers: Seq<SpecLicenseKeyContainer>,
    n: int,
)
    requires
        0 <= n <= containers.len(),
        spec_unwrap_keys(encryption_key, containers.subrange(0, n)) is Err,
    ensures
        spec_unwrap_keys(encryption_key, containers) == spec_unwrap_keys(
            encryption_key,
            containers.subrange(0, n),
        ),
    decreases containers.len() - n,
{
    if n < containers.len() {
        assert(containers.subrange(0, n + 1).drop_last() =~= containers.subrange(0, n));
        lemma_unwrap_keys_prefix(encryption_key, containers, n + 1);
    } else {
        assert(containers.subrange(0, n) =~= containers);
    }
}

/// Decrypts one key of a license and names it.
pub fn unwrap_key(encryption_key: &[u8], container: &LicenseKeyContainer) -> (r: Result<
    KeyContainer,
    Error,
>)
    ensures
        match r {
            Ok(key) => spec_unwrap_key(encryption_key@, container@) == Ok::<_, ErrorKind>(key@),
            Err(e) => spec_unwrap_key(encryption_key@, container@) == Err::<SpecKeyContainer, _>(
                e.spec_kind(),
            ),
        },
{
    if encryption_key.len() != AES_BLOCK {
        return Err(Error::internal("the encryption key does not have 16 bytes"));
    }
    let iv = bytes_or_empty(&container.iv);
    let ciphertext = bytes_or_empty(&container.key);
    if iv.len() != AES_BLOCK {
        return Err(Error::input("a key of the license has no initialisation vector of 16 bytes"));
    }
    if ciphertext.len() > MAX_PROVIDER_INPUT {
        return Err(Error::input("a key of the license is too long"));
    }
    let kid = key_id(container);
    match aes128_cbc_decrypt(encryption_key, iv.as_slice(), ciphertext.as_slice()) {
        Ok(key) => Ok(KeyContainer { kid, key: hex_encode(key.as_slice()) }),
        Err(stack) => Err(Error::provider("a key of the license could not be decrypted", stack)),
    }
}

/// Decrypts the keys of a license and names them, in the order of the
/// license.
pub fn unwrap_keys(encryption_key: &[u8], containers: &Vec<LicenseKeyContainer>) -> (r: Result<
    Vec<KeyContainer>,
    Error,
>)
    ensures
        match r {
            Ok(keys) => spec_unwrap_keys(encryption_key@, key_containers_view(containers@))
                == Ok::<_, ErrorKind>(keys_view(keys@)),
            Err(e) => spec_unwrap_keys(encryption_key@, key_containers_view(containers@)) == Err::<
                Seq<SpecKeyContainer>,
                _,
            >(e.spec_kind()),
        },
{
    let ghost all = key_containers_view(containers@);
    let mut keys: Vec<KeyContainer> = Vec::new();
    let mut i: usize = 0;
    assert(all.subrange(0, 0) =~= Seq::empty());
    assert(keys_view(keys@) =~= Seq::empty());
    while i < containers.len()
        invariant
            i <= containers.len(),
            all == key_containers_view(containers@),
            spec_unwrap_keys(encryption_key@, all.subrange(0, i as int)) == Ok::<_, ErrorKind>(
                keys_view(keys@),
            ),
        decreases containers.len() - i,
    {
        let ghost prefix = all.subrange(0, i + 1);
        let ghost before = keys_view(keys@);
        assert(prefix.drop_last() =~= all.subrange(0, i as int));
        assert(prefix.last() == containers@[i as int]@);
        match unwrap_key(encryption_key, &containers[i]) {
            Ok(key) => {
                keys.push(key);
                assert(keys_view(keys@) =~= before.push(key@));
            },
            Err(e) => {
                proof {
                    lemma_unwrap_keys_prefix(encryption_key@, all, i + 1);
                }
                return Err(e);
            },
        }
        i = i + 1;
    }
    assert(all.subrange(0, i as int) =~= all);
    Ok(keys)
}

/// What a license response comes to for a device key and the request of the
/// session, step by step:
/// - `State` where the session has made no request;
/// - `Input` where the response is no signed message, or its wrapped session
///   key is longer than the provider takes;
/// - the provider's error where the session key cannot be unwrapped or a key
///   of the session cannot be derived, `Internal` where a derived key does not
///   have its size;
/// - the provider's error where the tag over the inner message cannot be
///   computed, and `Input` where it is not the signature of the response;
/// - `Input` where the inner message is no license;
/// - else what the keys of the license come to.
pub open spec fn spec_parse_license(
    private_key: Seq<u8>,
    request: Option<Seq<u8>>,
    response: Seq<u8>,
) -> Result<Seq<SpecKeyContainer>, ErrorKind> {
    match (request, SpecSignedMessage::decode(response)) {
        (None, _) => Err(ErrorKind::State),
        (Some(_), None) => Err(ErrorKind::Input),
        (Some(signed_request), Some(message)) => spec_open_license(
            private_key,
            signed_request,
            message,
        ),
    }
}

/// What a signed message comes to as the response to a request.
pub open spec fn spec_open_license(
    private_key: Seq<u8>,
    request: Seq<u8>,
    message: SpecSignedMessage,
) -> Result<Seq<SpecKeyContainer>, ErrorKind> {
    if message.session_key_or_empty().len() > MAX_PROVIDER_INPUT {
        Err(ErrorKind::Input)
    } else {
        match spec_rsa_oaep_sha1_decrypt(private_key, message.session_key_or_empty()) {
            None => Err(ErrorKind::OpenSSL),
            Some(plaintext) => match spec_derive_keys(spec_session_key(plaintext), request) {
                Err(kind) => Err(kind),
                Ok(keys) => spec_authenticated_license(
                    keys.encryption,
                    keys.authentication,
                    message,
                ),
            },
        }
    }
}

/// What a signed message comes to under the keys of the session: its
/// signature must be the HMAC-SHA-256 tag of its inner message under the
/// authentication key.
pub open spec fn spec_authenticated_license(
    encryption_key: Seq<u8>,
    authentication_key: Seq<u8>,
    message: SpecSignedMessage,
) -> Result<Seq<SpecKeyContainer>, ErrorKind> {
    match spec_hmac_sha256(authentication_key, message.msg_or_empty()) {
        None => Err(ErrorKind::OpenSSL),
        Some(tag) => if tag != message.signature_or_empty() {
            Err(ErrorKind::Input)
        } else {
            match SpecLicense::decode(message.msg_or_empty()) {
                None => Err(ErrorKind::Input),
                Some(license) => spec_unwrap_keys(encryption_key, license.key),
            }
        },
    }
}

/// Whether a response gets as far as the check of its signature and fails it:
/// the session has made its request, the response is a signed message, its
/// session key opens, the keys of the session follow, and the HMAC-SHA-256 tag
/// of the inner message under the authentication key is not the signature.
pub open spec fn spec_signature_refused(
    private_key: Seq<u8>,
    request: Option<Seq<u8>>,
    response: Seq<u8>,
) -> bool {
    &&& request matches Some(signed_request)
    &&& SpecSignedMessage::decode(response) matches Some(message)
    &&& message.session_key_or_empty().len() <= MAX_PROVIDER_INPUT
    &&& spec_rsa_oaep_sha1_decrypt(private_key, message.session_key_or_empty()) matches Some(
        plaintext,
    )
    &&& spec_derive_keys(spec_session_key(plaintext), signed_request) matches Ok(keys)
    &&& spec_hmac_sha256(keys.authentication, message.msg_or_empty()) matches Some(tag)
    &&& tag != message.signature_or_empty()
}

/// A response that fails the check of its signature comes to `Input`.
pub proof fn lemma_signature_refused_is_input(
    private_key: Seq<u8>,
    request: Option<Seq<u8>>,
    response: Seq<u8>,
)
    requires
        spec_signature_refused(private_key, request, response),
    ensures
        spec_parse_license(private_key, request, response) == Err::<Seq<SpecKeyContainer>, _>(
            ErrorKind::Input,
        ),
{
}

/// A response whose signature is not the tag of its inner message is refused
/// with `Input`, whatever its license holds: a response that was accepted is
/// refused once its signature is changed in any way.
pub proof fn lemma_changed_signature_refused(
    private_key: Seq<u8>,
    request: Seq<u8>,
    message: SpecSignedMessage,
    signature: Seq<u8>,
)
    requires
        message.wf(),
        signature.len() <= u64::MAX,
        spec_parse_license(private_key, Some(request), message.encode()) is Ok,
        signature != message.signature_or_empty(),
    ensures
        spec_parse_license(
            private_key,
            Some(request),
            SpecSignedMessage { signature: Some(signature), ..message }.encode(),
        ) == Err::<Seq<SpecKeyContainer>, _>(ErrorKind::Input),
        spec_signature_refused(
            private_key,
            Some(request),
            SpecSignedMessage { signature: Some(signature), ..message }.encode(),
        ),
{
    let changed = SpecSignedMessage { signature: Some(signature), ..message };
    lemma_signed_message_roundtrip(message);
    lemma_signed_message_roundtrip(changed);
}

/// A response that was accepted is refused with `Input` once its inner message
/// is changed, unless the changed message has the same tag under the
/// authentication key of the session.
pub proof fn lemma_changed_message_refused(
    private_key: Seq<u8>,
    request: Seq<u8>,
    message: SpecSignedMessage,
    inner: Seq<u8>,
    authentication_key: Seq<u8>,
)
    requires
        message.wf(),
        inner.len() <= u64::MAX,
        spec_parse_license(private_key, Some(request), message.encode()) is Ok,
        spec_rsa_oaep_sha1_decrypt(private_key, message.session_key_or_empty()) matches Some(
            plaintext,
        ) && spec_derive_keys(spec_session_key(plaintext), request) matches Ok(keys)
            && keys.authentication == authentication_key,
        spec_hmac_sha256(authentication_key, inner) is Some,
        spec_hmac_sha256(authentication_key, inner) != spec_hmac_sha256(
            authentication_key,
            message.msg_or_empty(),
        ),
    ensures
        spec_parse_license(
            private_key,
            Some(request),
            SpecSignedMessage { msg: Some(inner), ..message }.encode(),
        ) == Err::<Seq<SpecKeyContainer>, _>(ErrorKind::Input),
        spec_signature_refused(
            private_key,
            Some(request),
            SpecSignedMessage { msg: Some(inner), ..message }.encode(),
        ),
{
    let changed = SpecSignedMessage { msg: Some(inner), ..message };
    lemma_signed_message_roundtrip(message);
    lemma_signed_message_roundtrip(changed);
}

/// Each key that a license response gives is named by the hex of its id where
/// the license gives it one that is not empty, else by the name of its type,
/// and the keys come in the order of the license.
pub proof fn lemma_keys_named(
    encryption_key: Seq<u8>,
    containers: Seq<SpecLicenseKeyContainer>,
)
    requires
        spec_unwrap_keys(encryption_key, containers) is Ok,
    ensures
        spec_unwrap_keys(encryption_key, containers)->Ok_0.len() == containers.len(),
        forall|i: int|
            0 <= i < containers.len() ==> (#[trigger] spec_unwrap_keys(
                encryption_key,
                containers,
            )->Ok_0[i]).kid == spec_key_id(containers[i]),
        forall|i: int|
            0 <= i < containers.len() && or_empty(containers[i].id).len() == 0
                ==> spec_is_key_type_name(
                (#[trigger] spec_unwrap_keys(encryption_key, containers)->Ok_0[i]).kid,
            ),
        forall|i: int|
            0 <= i < containers.len() && or_empty(containers[i].id).len() > 0 ==> (
            #[trigger] spec_unwrap_keys(encryption_key, containers)->Ok_0[i]).kid == spec_hex(
                or_empty(containers[i].id),
            ),
    decreases containers.len(),
{
    if containers.len() > 0 {
        lemma_keys_named(encryption_key, containers.drop_last());
    }
}

} // verus!
