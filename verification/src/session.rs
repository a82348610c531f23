//! The session of one license exchange, the device credentials it works with
//! and the keys it ends in.

use crate::certificate::{SignedDrmCertificate, SpecSignedDrmCertificate};
use crate::constants::{
    common_service_certificate, root_public_key, spec_common_service_certificate,
    spec_root_public_key,
};
use crate::crypto::{
    hmac_sha256, rsa_oaep_sha1_decrypt, rsa_private_key_pem_to_der, rsa_pss_sha1_sign,
    rsa_pss_sha1_verify, spec_rsa_private_key_der, spec_rsa_pss_sha1_verify,
    MAX_PROVIDER_INPUT,
};
use crate::error::{Error, ErrorKind};
use crate::fieldset::opt_view;
use crate::kdf::{derive_keys, session_key};
use crate::license::License;
use crate::lookup::{bytes_or_empty, opt_bytes_view, or_empty};
use crate::platform::{current_time, random_u32, random_word};
use crate::pssh::{
    check_pssh, has_widevine_system_id, spec_pssh_accepted, spec_pssh_payload, PSSH_DATA_START,
};
use crate::request::{
    encrypt_client_identification, license_request_bytes, request_time_of, spec_is_request_for,
    spec_sealable, wrap_signed_request,
};
use crate::response::{
    keys_view, spec_parse_license, spec_signature_refused, unwrap_keys, KeyContainer,
    SpecKeyContainer,
};
use crate::signed_message::{SignedMessage, SpecSignedMessage, MESSAGE_LICENSE_REQUEST};
use crate::wire::{append_bytes, copy_range, parse_fields, spec_parse_fields};
use openssl::error::ErrorStack;
use vstd::prelude::*;
use vstd::slice::slice_subrange;

verus! {

/// Salt length of the RSA-PSS signatures of the protocol.
pub const PSS_SALT_LENGTH: i32 = 20;

/// The device key that a PEM text holds, as PKCS#1 DER: what the provider
/// reads of it with an empty passphrase. `None` where it reads no key, as of a
/// text that holds none or holds one behind a passphrase.
pub open spec fn spec_device_key(pem: Seq<u8>) -> Option<Seq<u8>> {
    spec_rsa_private_key_der(pem, Seq::empty())
}

/// The credentials of a device: its RSA private key and the identification
/// that the license service knows it by. Made once and shared by sessions.
pub struct LicenseDecryptionModule {
    private_key_der: Vec<u8>,
    identification_blob: Vec<u8>,
    vmp_blob: Option<Vec<u8>>,
}

impl LicenseDecryptionModule {
    /// The private key, as PKCS#1 DER.
    pub closed spec fn private_key(&self) -> Seq<u8> {
        self.private_key_der@
    }

    /// The client identification, as the bytes of its message.
    pub closed spec fn identification(&self) -> Seq<u8> {
        self.identification_blob@
    }

    /// The verified media path data, carried along and not used.
    pub closed spec fn vmp(&self) -> Option<Seq<u8>> {
        opt_bytes_view(self.vmp_blob)
    }

    /// The credentials that follow from what the provider read of the private
    /// key: the module holds the key as it was read, the identification and
    /// the verified media path data, byte for byte; where the provider failed,
    /// its error is handed on.
    pub fn from_provider(
        read: Result<Vec<u8>, ErrorStack>,
        identification_blob: Vec<u8>,
        vmp_blob: Option<Vec<u8>>,
    ) -> (r: Result<LicenseDecryptionModule, Error>)
        ensures
            match read {
                Ok(der) => {
                    &&& r matches Ok(ldm)
                    &&& ldm.private_key() == der@
                    &&& ldm.identification() == identification_blob@
                    &&& ldm.vmp() == opt_bytes_view(vmp_blob)
                },
                Err(_) => r matches Err(e) && e.spec_kind() == ErrorKind::OpenSSL,
            },
    {
        match read {
            Ok(private_key_der) => Ok(
                LicenseDecryptionModule { private_key_der, identification_blob, vmp_blob },
            ),
            Err(stack) => Err(Error::provider("the private key could not be read", stack)),
        }
    }

    /// Takes the credentials of a device: its private key in PEM, its
    /// identification and, if there is one, its verified media path data. The
    /// module holds the key that the PEM text holds, and the two blobs as they
    /// came. Fails with `Input` where the text is longer than the provider
    /// takes, and with the provider's error where it holds no key that reads
    /// without a passphrase.
    pub fn new(
        private_key: &Vec<u8>,
        identification_blob: Vec<u8>,
        vmp_blob: Option<Vec<u8>>,
    ) -> (r: Result<LicenseDecryptionModule, Error>)
        ensures
            match r {
                Ok(ldm) => {
                    &&& private_key@.len() <= MAX_PROVIDER_INPUT
                    &&& spec_device_key(private_key@) == Some(ldm.private_key())
                    &&& ldm.identification() == identification_blob@
                    &&& ldm.vmp() == opt_bytes_view(vmp_blob)
                },
                Err(e) => if private_key@.len() > MAX_PROVIDER_INPUT {
                    e.spec_kind() == ErrorKind::Input
                } else {
                    spec_device_key(private_key@) is None && e.spec_kind() == ErrorKind::OpenSSL
                },
            },
    {
        if private_key.len() > MAX_PROVIDER_INPUT {
            return Err(Error::input("the private key is too long"));
        }
        let passphrase: Vec<u8> = Vec::new();
        let read = rsa_private_key_pem_to_der(private_key.as_slice(), passphrase.as_slice());
        LicenseDecryptionModule::from_provider(read, identification_blob, vmp_blob)
    }
}

/// Whether two byte strings are the same.
pub fn bytes_equal(a: &[u8], b: &[u8]) -> (same: bool)
    ensures
        same == (a@ == b@),
{
    if a.len() != b.len() {
        return false;
    }
    let mut i: usize = 0;
    while i < a.len()
        invariant
            i <= a.len(),
            a.len() == b.len(),
            forall|k: int| 0 <= k < i ==> a@[k] == b@[k],
        decreases a.len() - i,
    {
        if a[i] != b[i] {
            return false;
        }
        i = i + 1;
    }
    assert(a@ =~= b@);
    true
}

/// The session id that follows from four random bytes: these, four zero bytes
/// and the number 1 as eight bytes little endian.
pub open spec fn spec_session_token(random: Seq<u8>) -> Seq<u8> {
    random + seq![0u8, 0, 0, 0] + seq![1u8, 0, 0, 0, 0, 0, 0, 0]
}

/// The session id that follows from four random bytes.
pub fn session_token(random: &[u8; 4]) -> (token: Vec<u8>)
    ensures
        token@ == spec_session_token(random@),
        token@.len() == 16,
{
    let mut token: Vec<u8> = Vec::new();
    append_bytes(&mut token, random.as_slice());
    let zeros: [u8; 4] = [0, 0, 0, 0];
    append_bytes(&mut token, zeros.as_slice());
    let one: [u8; 8] = [1, 0, 0, 0, 0, 0, 0, 0];
    append_bytes(&mut token, one.as_slice());
    assert(token@ =~= spec_session_token(random@));
    token
}

/// A fresh session id.
fn generate_session_token() -> (token: Vec<u8>)
    ensures
        exists|random: Seq<u8>|
            random.len() == 4 && token@ == #[trigger] spec_session_token(random),
{
    let random = random_word();
    let token = session_token(&random);
    assert(random@.len() == 4 && token@ == spec_session_token(random@));
    token
}

/// Whether the issuer's signature over a certificate verifies under the root
/// key: RSA-PSS with SHA-1 and a salt of 20 bytes. `None` where the provider
/// reports an error.
pub open spec fn spec_certificate_valid(
    root_key: Seq<u8>,
    certificate: SpecSignedDrmCertificate,
) -> Option<bool> {
    spec_rsa_pss_sha1_verify(
        root_key,
        PSS_SALT_LENGTH as int,
        or_empty(certificate.drm_certificate),
        or_empty(certificate.signature),
    )
}

/// Checks the issuer's signature over a certificate under the given root key.
pub fn verify_service_certificate(
    root_key: &[u8],
    certificate: &SignedDrmCertificate,
) -> (r: Result<bool, ErrorStack>)
    ensures
        match r {
            Ok(valid) => spec_certificate_valid(root_key@, certificate@) == Some(valid),
            Err(_) => spec_certificate_valid(root_key@, certificate@) is None,
        },
{
    let message = bytes_or_empty(&certificate.drm_certificate);
    let signature = bytes_or_empty(&certificate.signature);
    rsa_pss_sha1_verify(root_key, PSS_SALT_LENGTH, message.as_slice(), signature.as_slice())
}

/// The signed certificate that `raw` holds: either bare, or as the inner
/// message of a signed message.
pub open spec fn spec_certificate_of(raw: Seq<u8>) -> Option<SpecSignedDrmCertificate> {
    match SpecSignedDrmCertificate::decode(raw) {
        Some(certificate) => Some(certificate),
        None => match SpecSignedMessage::decode(raw) {
            Some(message) => SpecSignedDrmCertificate::decode(message.msg_or_empty()),
            None => None,
        },
    }
}

/// Reads a signed certificate that stands bare or inside a signed message.
pub fn read_certificate(raw: &[u8]) -> (r: Option<SignedDrmCertificate>)
    ensures
        opt_view(r) == spec_certificate_of(raw@),
{
    match SignedDrmCertificate::decode(raw) {
        Some(certificate) => Some(certificate),
        None => match SignedMessage::decode(raw) {
            Some(message) => {
                let inner = bytes_or_empty(&message.msg);
                SignedDrmCertificate::decode(inner.as_slice())
            },
            None => None,
        },
    }
}

/// What pinning `raw` comes to under a root key: the certificate where it
/// reads and verifies, `Input` where it does not read or its signature is
/// wrong, the provider's error where the check itself fails.
pub open spec fn spec_pin_outcome(root_key: Seq<u8>, raw: Seq<u8>) -> Result<
    SpecSignedDrmCertificate,
    ErrorKind,
> {
    match spec_certificate_of(raw) {
        None => Err(ErrorKind::Input),
        Some(certificate) => match spec_certificate_valid(root_key, certificate) {
            None => Err(ErrorKind::OpenSSL),
            Some(false) => Err(ErrorKind::Input),
            Some(true) => Ok(certificate),
        },
    }
}

/// Whether `raw` holds a certificate whose signature the provider finds wrong
/// under the root key.
pub open spec fn spec_signature_invalid(root_key: Seq<u8>, raw: Seq<u8>) -> bool {
    spec_certificate_of(raw) matches Some(certificate) && spec_certificate_valid(
        root_key,
        certificate,
    ) == Some(false)
}

/// What a certificate that reads comes to once the check of its signature has
/// answered: the certificate where the signature verifies, `Input` where it
/// does not, the provider's error where the check itself failed.
pub fn checked_certificate(
    certificate: SignedDrmCertificate,
    verified: Result<bool, ErrorStack>,
) -> (r: Result<SignedDrmCertificate, Error>)
    ensures
        match verified {
            Ok(true) => r == Ok::<_, Error>(certificate),
            Ok(false) => r matches Err(e) && e.spec_kind() == ErrorKind::Input && e.spec_message()
                == "signature invalid"@,
            Err(_) => r matches Err(e) && e.spec_kind() == ErrorKind::OpenSSL,
        },
{
    match verified {
        Ok(true) => Ok(certificate),
        Ok(false) => Err(Error::input("signature invalid")),
        Err(stack) => Err(
            Error::provider("An error occurred while verifying the service certificate", stack),
        ),
    }
}

/// Reads the certificate in `raw` and checks it under the root key.
pub fn check_certificate(root_key: &[u8], raw: &[u8]) -> (r: Result<SignedDrmCertificate, Error>)
    ensures
        match r {
            Ok(certificate) => spec_pin_outcome(root_key@, raw@) == Ok::<_, ErrorKind>(
                certificate@,
            ),
            Err(e) => spec_pin_outcome(root_key@, raw@) == Err::<SpecSignedDrmCertificate, _>(
                e.spec_kind(),
            ),
        },
        spec_signature_invalid(root_key@, raw@) ==> (r matches Err(e) && e.spec_message()
            == "signature invalid"@),
{
    let certificate = match read_certificate(raw) {
        Some(certificate) => certificate,
        None => {
            return Err(Error::input("Provided data is not a signed service certificate."));
        },
    };
    let verified = verify_service_certificate(root_key, &certificate);
    checked_certificate(certificate, verified)
}

/// One license exchange: made, optionally given a service certificate, used
/// for one request and consumed by the response to it.
pub struct Session {
    pub session_id: Vec<u8>,
    signed_service_certificate: Option<SignedDrmCertificate>,
    raw_license_request: Option<Vec<u8>>,
}

impl Session {
    /// The id of the session.
    pub closed spec fn id(&self) -> Seq<u8> {
        self.session_id@
    }

    /// The service certificate that is pinned, if one is.
    pub closed spec fn certificate(&self) -> Option<SpecSignedDrmCertificate> {
        opt_view(self.signed_service_certificate)
    }

    /// The license request as it was signed, once one was made.
    pub closed spec fn request(&self) -> Option<Seq<u8>> {
        opt_bytes_view(self.raw_license_request)
    }

    /// What pinning `raw` comes to in a session: `State` where a certificate is
    /// pinned already or the request is made, else what the certificate
    /// itself comes to under the Widevine root key.
    pub open spec fn spec_pin(&self, raw: Seq<u8>) -> Result<SpecSignedDrmCertificate, ErrorKind> {
        if self.certificate() is Some || self.request() is Some {
            Err(ErrorKind::State)
        } else {
            spec_pin_outcome(spec_root_public_key(), raw)
        }
    }

    /// Why no request can be built from a PSSH box, if none can: `Input` for a
    /// box that is not accepted, `State` where the request is made already,
    /// `Input` again where the identification of the device is no message or
    /// cannot be sealed for the pinned certificate.
    pub open spec fn spec_request_refusal(
        &self,
        ldm: &LicenseDecryptionModule,
        pssh: Seq<u8>,
    ) -> Option<ErrorKind> {
        if !spec_pssh_accepted(pssh) {
            Some(ErrorKind::Input)
        } else if self.request() is Some {
            Some(ErrorKind::State)
        } else if spec_parse_fields(ldm.identification()) is None {
            Some(ErrorKind::Input)
        } else if self.certificate() matches Some(pinned) && !spec_sealable(
            pinned,
            ldm.identification(),
        ) {
            Some(ErrorKind::Input)
        } else {
            None
        }
    }

    /// A new session with a fresh id, no certificate and no request.
    pub fn new() -> (session: Session)
        ensures
            session.id().len() == 16,
            session.id().subrange(4, 16) == seq![0u8, 0, 0, 0, 1, 0, 0, 0, 0, 0, 0, 0],
            session.certificate() is None,
            session.request() is None,
    {
        let session_id = generate_session_token();
        assert(session_id@.subrange(4, 16) =~= seq![0u8, 0, 0, 0, 1, 0, 0, 0, 0, 0, 0, 0]);
        Session { session_id, signed_service_certificate: None, raw_license_request: None }
    }

    /// The id of the session.
    pub fn session_id(&self) -> (id: &Vec<u8>)
        ensures
            id@ == self.id(),
    {
        &self.session_id
    }

    /// Whether a service certificate is pinned.
    pub fn has_service_certificate(&self) -> (pinned: bool)
        ensures
            pinned == self.certificate() is Some,
    {
        self.signed_service_certificate.is_some()
    }

    /// Whether the license request is made.
    pub fn has_license_request(&self) -> (made: bool)
        ensures
            made == self.request() is Some,
    {
        self.raw_license_request.is_some()
    }

    /// Pins the service certificate that is bundled with the library.
    pub fn set_default_service_certificate(&mut self) -> (r: Result<(), Error>)
        ensures
            match old(self).spec_pin(spec_common_service_certificate()) {
                Ok(certificate) => {
                    &&& r is Ok
                    &&& final(self).certificate() == Some(certificate)
                    &&& final(self).request() is None
                    &&& final(self).id() == old(self).id()
                },
                Err(kind) => {
                    &&& r matches Err(e)
                    &&& e.spec_kind() == kind
                    &&& *final(self) == *old(self)
                },
            },
    {
        self.set_service_certificate(common_service_certificate())
    }

    /// Pins the service certificate that a service sent as the inner message
    /// of a signed message. Fails with `Input` where `signed_message` is none.
    pub fn set_service_certificate_from_message(&mut self, signed_message: Vec<u8>) -> (r: Result<
        (),
        Error,
    >)
        ensures
            match SpecSignedMessage::decode(signed_message@) {
                Some(message) => match old(self).spec_pin(message.msg_or_empty()) {
                    Ok(certificate) => {
                        &&& r is Ok
                        &&& final(self).certificate() == Some(certificate)
                        &&& final(self).request() is None
                        &&& final(self).id() == old(self).id()
                    },
                    Err(kind) => {
                        &&& r matches Err(e)
                        &&& e.spec_kind() == kind
                        &&& *final(self) == *old(self)
                    },
                },
                None => {
                    &&& r matches Err(e)
                    &&& e.spec_kind() == ErrorKind::Input
                    &&& *final(self) == *old(self)
                },
            },
    {
        let message = match SignedMessage::decode(signed_message.as_slice()) {
            Some(message) => message,
            None => {
                return Err(Error::input("Provided data is not a signed message."));
            },
        };
        self.set_service_certificate(bytes_or_empty(&message.msg))
    }

    /// Pins a service certificate, given bare or inside a signed message, once
    /// its signature has verified under the Widevine root key. A certificate
    /// that is refused leaves the session as it was.
    pub fn set_service_certificate(&mut self, raw_service_certificate: Vec<u8>) -> (r: Result<
        (),
        Error,
    >)
        ensures
            match old(self).spec_pin(raw_service_certificate@) {
                Ok(certificate) => {
                    &&& r is Ok
                    &&& final(self).certificate() == Some(certificate)
                    &&& final(self).request() is None
                    &&& final(self).id() == old(self).id()
                },
                Err(kind) => {
                    &&& r matches Err(e)
                    &&& e.spec_kind() == kind
                    &&& *final(self) == *old(self)
                },
            },
            old(self).certificate() is None && old(self).request() is None
                && spec_signature_invalid(spec_root_public_key(), raw_service_certificate@) ==> (r
                matches Err(e) && e.spec_message() == "signature invalid"@),
    {
        if self.signed_service_certificate.is_some() || self.raw_license_request.is_some() {
            return Err(Error::state("a service certificate can only be set on a new session"));
        }
        match check_certificate(root_public_key().as_slice(), raw_service_certificate.as_slice()) {
            Ok(certificate) => {
                self.signed_service_certificate = Some(certificate);
                Ok(())
            },
            Err(e) => Err(e),
        }
    }

    /// Builds the signed license request for a PSSH box and keeps the request
    /// as it was signed, for the keys of the response are derived from it.
    ///
    /// A box that does not carry the Widevine system id in its bytes 12 to 27,
    /// or whose bytes from 32 on are no message, is refused with `Input`,
    /// whatever the state of the session. A second request is refused with
    /// `State`. Every failure leaves the session as it was.
    ///
    /// The request holds the time and random numbers, and its signature is
    /// salted at random: what is returned is stated by what it reads back as.
    pub fn create_license_request(&mut self, ldm: &LicenseDecryptionModule, pssh: Vec<u8>) -> (r:
        Result<Vec<u8>, Error>)
        ensures
            match old(self).spec_request_refusal(ldm, pssh@) {
                Some(kind) => r matches Err(e) && e.spec_kind() == kind,
                None => r matches Err(e) ==> e.spec_kind() == ErrorKind::OpenSSL || e.spec_kind()
                    == ErrorKind::Internal,
            },
            r is Err ==> *final(self) == *old(self),
            r matches Ok(out) ==> {
                &&& final(self).id() == old(self).id()
                &&& final(self).certificate() == old(self).certificate()
                &&& final(self).request() matches Some(request)
                &&& spec_is_request_for(
                    request,
                    old(self).id(),
                    pssh@,
                    ldm.identification(),
                    old(self).certificate(),
                )
                &&& SpecSignedMessage::decode(out@) matches Some(message)
                &&& message.encode() == out@
                &&& message.message_type == Some(MESSAGE_LICENSE_REQUEST)
                &&& message.msg == Some(request)
                &&& message.signature is Some
                &&& message.session_key is None
            },
    {
        if !has_widevine_system_id(&pssh) {
            return Err(Error::input("the PSSH box does not carry the Widevine system id"));
        }
        if !check_pssh(&pssh) {
            return Err(Error::input("the PSSH box does not hold Widevine data"));
        }
        if self.raw_license_request.is_some() {
            return Err(Error::state("the session has made its license request already"));
        }
        let client_identification = ldm.identification_blob.as_slice();
        if parse_fields(client_identification).is_none() {
            return Err(Error::input("the identification blob is not a client identification"));
        }
        let sealed = match &self.signed_service_certificate {
            Some(certificate) => match encrypt_client_identification(
                client_identification,
                certificate,
            ) {
                Ok(sealed) => Some(sealed),
                Err(e) => {
                    return Err(e);
                },
            },
            None => None,
        };
        let request_time: i64 = match request_time_of(current_time()) {
            Ok(request_time) => request_time,
            Err(e) => {
                return Err(e);
            },
        };
        let key_control_nonce: u32 = random_u32();
        let payload = slice_subrange(pssh.as_slice(), PSSH_DATA_START, pssh.len());
        assert(payload@ =~= spec_pssh_payload(pssh@));
        let raw_license_request = license_request_bytes(
            &self.session_id,
            payload,
            client_identification,
            sealed,
            request_time,
            key_control_nonce,
        );
        let signature = match rsa_pss_sha1_sign(
            ldm.private_key_der.as_slice(),
            PSS_SALT_LENGTH,
            raw_license_request.as_slice(),
        ) {
            Ok(signature) => signature,
            Err(stack) => {
                return Err(Error::provider("the license request could not be signed", stack));
            },
        };
        let kept = copy_range(raw_license_request.as_slice(), 0, raw_license_request.len());
        assert(kept@ =~= raw_license_request@);
        self.raw_license_request = Some(kept);
        Ok(wrap_signed_request(raw_license_request, signature))
    }

    /// Reads the signed license response to the request of this session and
    /// hands out its keys. The session is used up by it.
    ///
    /// The session key of the response is unwrapped with the device key; from
    /// it and from the request as it was signed follow the encryption key and
    /// the authentication key; the signature of the response must be the
    /// HMAC-SHA-256 tag of its inner message under the authentication key, and
    /// each key of the license inside is decrypted under the encryption key.
    pub fn parse_license(self, ldm: &LicenseDecryptionModule, license: Vec<u8>) -> (r: Result<
        Vec<KeyContainer>,
        Error,
    >)
        ensures
            match r {
                Ok(keys) => spec_parse_license(ldm.private_key(), self.request(), license@)
                    == Ok::<_, ErrorKind>(keys_view(keys@)),
                Err(e) => spec_parse_license(ldm.private_key(), self.request(), license@) == Err::<
                    Seq<SpecKeyContainer>,
                    _,
                >(e.spec_kind()),
            },
            spec_signature_refused(ldm.private_key(), self.request(), license@) ==> (r matches Err(
                e,
            ) && e.spec_message() == "license signature invalid"@),
    {
        let raw_license_request = match &self.raw_license_request {
            Some(request) => request,
            None => {
                return Err(Error::state("the session has made no license request"));
            },
        };
        let signed_message = match SignedMessage::decode(license.as_slice()) {
            Some(message) => message,
            None => {
                return Err(Error::input("the license response is not a signed message"));
            },
        };
        let wrapped_key = bytes_or_empty(&signed_message.session_key);
        if wrapped_key.len() > MAX_PROVIDER_INPUT {
            return Err(Error::input("the session key of the license response is too long"));
        }
        let decrypted_session_key = match rsa_oaep_sha1_decrypt(
            ldm.private_key_der.as_slice(),
            wrapped_key.as_slice(),
        ) {
            Ok(plaintext) => plaintext,
            Err(stack) => {
                return Err(Error::provider("the session key could not be decrypted", stack));
            },
        };
        let key = session_key(decrypted_session_key.as_slice());
        let keys = match derive_keys(key.as_slice(), raw_license_request.as_slice()) {
            Ok(keys) => keys,
            Err(e) => {
                return Err(e);
            },
        };
        let msg = bytes_or_empty(&signed_message.msg);
        let calculated_signature = match hmac_sha256(
            keys.authentication.as_slice(),
            msg.as_slice(),
        ) {
            Ok(tag) => tag,
            Err(stack) => {
                return Err(Error::provider("the license signature could not be computed", stack));
            },
        };
        let signature = bytes_or_empty(&signed_message.signature);
        if !bytes_equal(calculated_signature.as_slice(), signature.as_slice()) {
            return Err(Error::input("license signature invalid"));
        }
        let license = match License::decode(msg.as_slice()) {
            Some(license) => license,
            None => {
                return Err(Error::input("the license response does not hold a license"));
            },
        };
        unwrap_keys(keys.encryption.as_slice(), &license.key)
    }
}

} // verus!
