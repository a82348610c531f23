//! Service certificates: the signed wrapper and the certificate inside it.

use crate::lookup::{
    all_typed, last_bytes, opt_bytes_view, spec_bytes_field, spec_typed, WIRE_BYTES,
};
use crate::platform::is_utf8;
use crate::wire::{parse_fields, spec_parse_fields, SpecField};
use vstd::prelude::*;
use vstd::utf8::valid_utf8;

verus! {

/// A certificate and the signature of its issuer over its bytes.
#[derive(Clone, Debug, PartialEq, Eq)]
pub struct SignedDrmCertificate {
    pub drm_certificate: Option<Vec<u8>>,
    pub signature: Option<Vec<u8>>,
}

/// What a [`SignedDrmCertificate`] holds, as mathematical values.
pub struct SpecSignedDrmCertificate {
    pub drm_certificate: Option<Seq<u8>>,
    pub signature: Option<Seq<u8>>,
}

impl View for SignedDrmCertificate {
    type V = SpecSignedDrmCertificate;

    open spec fn view(&self) -> SpecSignedDrmCertificate {
        SpecSignedDrmCertificate {
            drm_certificate: opt_bytes_view(self.drm_certificate),
            signature: opt_bytes_view(self.signature),
        }
    }
}

impl SpecSignedDrmCertificate {
    /// The certificate that a list of fields stands for. Fields 1 and 2 must
    /// be length-delimited; other fields are passed over.
    pub open spec fn from_fields(fs: Seq<SpecField>) -> Option<SpecSignedDrmCertificate> {
        if spec_typed(fs, 1, 2) && spec_typed(fs, 2, 2) {
            Some(
                SpecSignedDrmCertificate {
                    drm_certificate: spec_bytes_field(fs, 1),
                    signature: spec_bytes_field(fs, 2),
                },
            )
        } else {
            None
        }
    }

    /// The signed certificate that `bytes` hold, if they hold one.
    pub open spec fn decode(bytes: Seq<u8>) -> Option<SpecSignedDrmCertificate> {
        match spec_parse_fields(bytes) {
            Some(fs) => Self::from_fields(fs),
            None => None,
        }
    }
}

impl SignedDrmCertificate {
    /// Reads a signed certificate. `None` where the bytes are no message, or
    /// where field 1 or 2 is not length-delimited.
    pub fn decode(bytes: &[u8]) -> (r: Option<SignedDrmCertificate>)
        ensures
            match r {
                Some(c) => SpecSignedDrmCertificate::decode(bytes@) == Some(c@),
                None => SpecSignedDrmCertificate::decode(bytes@) is None,
            },
    {
        let fields = match parse_fields(bytes) {
            Some(fields) => fields,
            None => { return None; },
        };
        if !(all_typed(&fields, 1, WIRE_BYTES) && all_typed(&fields, 2, WIRE_BYTES)) {
            return None;
        }
        Some(
            SignedDrmCertificate {
                drm_certificate: last_bytes(&fields, 1),
                signature: last_bytes(&fields, 2),
            },
        )
    }
}

/// What the client reads of a service certificate: its serial number, its
/// PKCS#1 public key and the provider it was issued to.
#[derive(Clone, Debug, PartialEq, Eq)]
pub struct DrmCertificate {
    pub serial_number: Option<Vec<u8>>,
    pub public_key: Option<Vec<u8>>,
    pub provider_id: Option<Vec<u8>>,
}

/// What a [`DrmCertificate`] holds, as mathematical values.
pub struct SpecDrmCertificate {
    pub serial_number: Option<Seq<u8>>,
    pub public_key: Option<Seq<u8>>,
    pub provider_id: Option<Seq<u8>>,
}

impl View for DrmCertificate {
    type V = SpecDrmCertificate;

    open spec fn view(&self) -> SpecDrmCertificate {
        SpecDrmCertificate {
            serial_number: opt_bytes_view(self.serial_number),
            public_key: opt_bytes_view(self.public_key),
            provider_id: opt_bytes_view(self.provider_id),
        }
    }
}

/// Whether optional text is well-formed UTF-8.
pub open spec fn opt_utf8(value: Option<Seq<u8>>) -> bool {
    value matches Some(b) ==> valid_utf8(b)
}

impl SpecDrmCertificate {
    /// The certificate that a list of fields stands for. Fields 2, 4 and 7
    /// must be length-delimited and the provider id well-formed UTF-8; other
    /// fields are passed over.
    pub open spec fn from_fields(fs: Seq<SpecField>) -> Option<SpecDrmCertificate> {
        if spec_typed(fs, 2, 2) && spec_typed(fs, 4, 2) && spec_typed(fs, 7, 2) && opt_utf8(
            spec_bytes_field(fs, 7),
        ) {
            Some(
                SpecDrmCertificate {
                    serial_number: spec_bytes_field(fs, 2),
                    public_key: spec_bytes_field(fs, 4),
                    provider_id: spec_bytes_field(fs, 7),
                },
            )
        } else {
            None
        }
    }

    /// The certificate that `bytes` hold, if they hold one.
    pub open spec fn decode(bytes: Seq<u8>) -> Option<SpecDrmCertificate> {
        match spec_parse_fields(bytes) {
            Some(fs) => Self::from_fields(fs),
            None => None,
        }
    }
}

/// Whether optional text is well-formed UTF-8.
pub fn check_opt_utf8(value: &Option<Vec<u8>>) -> (ok: bool)
    ensures
        ok == opt_utf8(opt_bytes_view(*value)),
{
    match value {
        Some(text) => is_utf8(text.as_slice()),
        None => true,
    }
}

impl DrmCertificate {
    /// Reads a certificate. `None` where the bytes are no message, where field
    /// 2, 4 or 7 is not length-delimited, or where the provider id is no UTF-8.
    pub fn decode(bytes: &[u8]) -> (r: Option<DrmCertificate>)
        ensures
            match r {
                Some(c) => SpecDrmCertificate::decode(bytes@) == Some(c@),
                None => SpecDrmCertificate::decode(bytes@) is None,
            },
    {
        let fields = match parse_fields(bytes) {
            Some(fields) => fields,
            None => { return None; },
        };
        if !(all_typed(&fields, 2, WIRE_BYTES) && all_typed(&fields, 4, WIRE_BYTES) && all_typed(
            &fields,
            7,
            WIRE_BYTES,
        )) {
            return None;
        }
        let provider_id = last_bytes(&fields, 7);
        if !check_opt_utf8(&provider_id) {
            return None;
        }
        Some(
            DrmCertificate {
                serial_number: last_bytes(&fields, 2),
                public_key: last_bytes(&fields, 4),
                provider_id,
            },
        )
    }
}

} // verus!
