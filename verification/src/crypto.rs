//! The crypto provider: RSA, AES and the two MACs of the protocol, each behind
//! a function whose contract is taken on trust.

use openssl::error::ErrorStack;
use openssl::hash::MessageDigest;
use openssl::pkey::PKey;
use openssl::rsa::{Padding, Rsa};
use openssl::sign::{RsaPssSaltlen, Signer, Verifier};
use openssl::symm::Cipher;
use vstd::prelude::*;

verus! {

/// Longest input that the provider's interface takes in one call.
pub const MAX_PROVIDER_INPUT: usize = 0x7fff_ff00;

/// Size in bytes of an AES-128 key, of a CBC initialisation vector and of a
/// CMAC tag.
pub const AES_BLOCK: usize = 16;

/// The RSA private key that the PEM text `pem` holds, as PKCS#1 DER, read with
/// `passphrase` where the text is encrypted. `None` where the provider reports
/// an error, such as a text that holds no key or a passphrase that does not
/// open it.
pub uninterp spec fn spec_rsa_private_key_der(pem: Seq<u8>, passphrase: Seq<u8>) -> Option<
    Seq<u8>,
>;

/// Whether the RSA-PSS signature over `message` verifies under the PKCS#1
/// public key `public_key_der`, with SHA-1 for the hash and the mask, and the
/// given salt length. `None` where the provider reports an error, such as a key
/// that does not parse.
pub uninterp spec fn spec_rsa_pss_sha1_verify(
    public_key_der: Seq<u8>,
    salt_len: int,
    message: Seq<u8>,
    signature: Seq<u8>,
) -> Option<bool>;

/// The plaintext that RSA-OAEP (SHA-1, empty label) recovers from `ciphertext`
/// under the PKCS#1 private key `private_key_der`. `None` where the provider
/// reports an error.
pub uninterp spec fn spec_rsa_oaep_sha1_decrypt(
    private_key_der: Seq<u8>,
    ciphertext: Seq<u8>,
) -> Option<Seq<u8>>;

/// AES-128-CBC encryption of `plaintext` with PKCS#7 padding. `None` where the
/// provider reports an error.
pub uninterp spec fn spec_aes128_cbc_encrypt(
    key: Seq<u8>,
    iv: Seq<u8>,
    plaintext: Seq<u8>,
) -> Option<Seq<u8>>;

/// AES-128-CBC decryption of `ciphertext`, the PKCS#7 padding removed. `None`
/// where the provider reports an error, such as a wrong padding.
pub uninterp spec fn spec_aes128_cbc_decrypt(
    key: Seq<u8>,
    iv: Seq<u8>,
    ciphertext: Seq<u8>,
) -> Option<Seq<u8>>;

/// The AES-128-CMAC tag of `data` under `key`. `None` where the provider
/// reports an error.
pub uninterp spec fn spec_cmac_aes128(key: Seq<u8>, data: Seq<u8>) -> Option<Seq<u8>>;

/// The HMAC-SHA-256 tag of `data` under `key`. `None` where the provider
/// reports an error.
pub uninterp spec fn spec_hmac_sha256(key: Seq<u8>, data: Seq<u8>) -> Option<Seq<u8>>;

/// What a provider call gave, as the named results state it.
pub open spec fn outcome(r: Result<Vec<u8>, ErrorStack>) -> Option<Seq<u8>> {
    match r {
        Ok(bytes) => Some(bytes@),
        Err(_) => None,
    }
}

/// `Rsa::private_key_from_pem_passphrase`, its key handed back as PKCS#1 DER by
/// `Rsa::private_key_to_der`: the named result for the PEM text and the
/// passphrase. The passphrase is given with the call, so the provider asks
/// nobody for one. The PEM text is kept within what the provider's memory BIO
/// takes, and the passphrase free of zero bytes, which a C string cannot hold.
#[verifier::external_body]
pub(crate) fn rsa_private_key_pem_to_der(pem: &[u8], passphrase: &[u8]) -> (r: Result<
    Vec<u8>,
    ErrorStack,
>)
    requires
        pem@.len() <= MAX_PROVIDER_INPUT,
        forall|i: int| 0 <= i < passphrase@.len() ==> passphrase@[i] != 0,
    ensures
        outcome(r) == spec_rsa_private_key_der(pem@, passphrase@),
{
    Rsa::private_key_from_pem_passphrase(pem, passphrase)?.private_key_to_der()
}

/// `Signer::sign_to_vec` on a signer set up for RSA-PSS with SHA-1: signs
/// `message` with the PKCS#1 private key. The signature is salted at random, so
/// nothing is claimed of it.
#[verifier::external_body]
pub(crate) fn rsa_pss_sha1_sign(private_key_der: &[u8], salt_len: i32, message: &[u8]) -> (r:
    Result<Vec<u8>, ErrorStack>) {
    let key = PKey::from_rsa(Rsa::private_key_from_der(private_key_der)?)?;
    let mut signer = Signer::new(MessageDigest::sha1(), &key)?;
    signer.set_rsa_padding(Padding::PKCS1_PSS)?;
    signer.set_rsa_pss_saltlen(RsaPssSaltlen::custom(salt_len))?;
    signer.update(message)?;
    signer.sign_to_vec()
}

/// `Verifier::verify` on a verifier set up for RSA-PSS with SHA-1: the answer
/// is the named result for the key, the salt length, the message and the
/// signature.
#[verifier::external_body]
pub(crate) fn rsa_pss_sha1_verify(
    public_key_der: &[u8],
    salt_len: i32,
    message: &[u8],
    signature: &[u8],
) -> (r: Result<bool, ErrorStack>)
    ensures
        match r {
            Ok(valid) => spec_rsa_pss_sha1_verify(
                public_key_der@,
                salt_len as int,
                message@,
                signature@,
            ) == Some(valid),
            Err(_) => spec_rsa_pss_sha1_verify(
                public_key_der@,
                salt_len as int,
                message@,
                signature@,
            ) is None,
        },
{
    let key = PKey::from_rsa(Rsa::public_key_from_der_pkcs1(public_key_der)?)?;
    let mut verifier = Verifier::new(MessageDigest::sha1(), &key)?;
    verifier.set_rsa_padding(Padding::PKCS1_PSS)?;
    verifier.set_rsa_pss_saltlen(RsaPssSaltlen::custom(salt_len))?;
    verifier.update(message)?;
    verifier.verify(signature)
}

/// `Rsa::public_encrypt` with OAEP padding under the PKCS#1 public key, the
/// output cut to the length the provider reports. OAEP is seeded at random, so
/// nothing is claimed of the ciphertext.
#[verifier::external_body]
pub(crate) fn rsa_oaep_sha1_encrypt(public_key_der: &[u8], plaintext: &[u8]) -> (r: Result<
    Vec<u8>,
    ErrorStack,
>)
    requires
        plaintext@.len() <= MAX_PROVIDER_INPUT,
{
    let key = Rsa::public_key_from_der_pkcs1(public_key_der)?;
    let mut buffer = vec![0u8; key.size() as usize];
    let written = key.public_encrypt(plaintext, &mut buffer, Padding::PKCS1_OAEP)?;
    buffer.truncate(written);
    Ok(buffer)
}

/// `Rsa::private_decrypt` with OAEP padding under the PKCS#1 private key, the
/// output cut to the length the provider reports: the named result for the key
/// and the ciphertext.
#[verifier::external_body]
pub(crate) fn rsa_oaep_sha1_decrypt(private_key_der: &[u8], ciphertext: &[u8]) -> (r: Result<
    Vec<u8>,
    ErrorStack,
>)
    requires
        ciphertext@.len() <= MAX_PROVIDER_INPUT,
    ensures
        outcome(r) == spec_rsa_oaep_sha1_decrypt(private_key_der@, ciphertext@),
{
    let key = Rsa::private_key_from_der(private_key_der)?;
    let mut buffer = vec![0u8; key.size() as usize];
    let written = key.private_decrypt(ciphertext, &mut buffer, Padding::PKCS1_OAEP)?;
    buffer.truncate(written);
    Ok(buffer)
}

/// `openssl::symm::encrypt` with AES-128-CBC: the named result for the key, the
/// initialisation vector and the plaintext.
#[verifier::external_body]
pub(crate) fn aes128_cbc_encrypt(key: &[u8], iv: &[u8], plaintext: &[u8]) -> (r: Result<
    Vec<u8>,
    ErrorStack,
>)
    requires
        key@.len() == AES_BLOCK,
        iv@.len() == AES_BLOCK,
        plaintext@.len() <= MAX_PROVIDER_INPUT,
    ensures
        outcome(r) == spec_aes128_cbc_encrypt(key@, iv@, plaintext@),
{
    openssl::symm::encrypt(Cipher::aes_128_cbc(), key, Some(iv), plaintext)
}

/// `openssl::symm::decrypt` with AES-128-CBC: the named result for the key, the
/// initialisation vector and the ciphertext.
#[verifier::external_body]
pub(crate) fn aes128_cbc_decrypt(key: &[u8], iv: &[u8], ciphertext: &[u8]) -> (r: Result<
    Vec<u8>,
    ErrorStack,
>)
    requires
        key@.len() == AES_BLOCK,
        iv@.len() == AES_BLOCK,
        ciphertext@.len() <= MAX_PROVIDER_INPUT,
    ensures
        outcome(r) == spec_aes128_cbc_decrypt(key@, iv@, ciphertext@),
{
    openssl::symm::decrypt(Cipher::aes_128_cbc(), key, Some(iv), ciphertext)
}

/// `Signer::sign_to_vec` on a signer over a `PKey::cmac` key for AES-128: the
/// named result for the key and the data.
#[verifier::external_body]
pub(crate) fn cmac_aes128(key: &[u8], data: &[u8]) -> (r: Result<Vec<u8>, ErrorStack>)
    requires
        key@.len() == AES_BLOCK,
    ensures
        outcome(r) == spec_cmac_aes128(key@, data@),
{
    let key = PKey::cmac(&Cipher::aes_128_cbc(), key)?;
    let mut signer = Signer::new_without_digest(&key)?;
    signer.update(data)?;
    signer.sign_to_vec()
}

/// `Signer::sign_to_vec` on a SHA-256 signer over a `PKey::hmac` key: the named
/// result for the key and the data.
#[verifier::external_body]
pub(crate) fn hmac_sha256(key: &[u8], data: &[u8]) -> (r: Result<Vec<u8>, ErrorStack>)
    requires
        key@.len() <= MAX_PROVIDER_INPUT,
    ensures
        outcome(r) == spec_hmac_sha256(key@, data@),
{
    let key = PKey::hmac(key)?;
    let mut signer = Signer::new(MessageDigest::sha256(), &key)?;
    signer.update(data)?;
    signer.sign_to_vec()
}

} // verus!
