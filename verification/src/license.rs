//! The license that a server answers with: a list of wrapped keys.

use crate::fieldset::{int32, spec_int32};
use crate::lookup::{
    all_bytes, all_typed, bytes_list_view, last_bytes, last_varint, opt_bytes_view,
    spec_bytes_field, spec_repeated_bytes, spec_typed, spec_varint_field, WIRE_BYTES,
    WIRE_VARINT,
};
use crate::wire::{fields_view, parse_fields, spec_parse_fields, SpecField};
use vstd::prelude::*;

verus! {

/// One key of a license: its id, and the key itself encrypted under the
/// session's encryption key with the given initialisation vector.
#[derive(Clone, Debug, PartialEq, Eq)]
pub struct LicenseKeyContainer {
    pub id: Option<Vec<u8>>,
    pub iv: Option<Vec<u8>>,
    pub key: Option<Vec<u8>>,
    pub key_type: Option<i32>,
}

/// What a [`LicenseKeyContainer`] holds, as mathematical values.
pub struct SpecLicenseKeyContainer {
    pub id: Option<Seq<u8>>,
    pub iv: Option<Seq<u8>>,
    pub key: Option<Seq<u8>>,
    pub key_type: Option<i32>,
}

impl View for LicenseKeyContainer {
    type V = SpecLicenseKeyContainer;

    open spec fn view(&self) -> SpecLicenseKeyContainer {
        SpecLicenseKeyContainer {
            id: opt_bytes_view(self.id),
            iv: opt_bytes_view(self.iv),
            key: opt_bytes_view(self.key),
            key_type: self.key_type,
        }
    }
}

impl SpecLicenseKeyContainer {
    /// The key container that a list of fields stands for. Fields 1 to 3 must
    /// be length-delimited and field 4 a varint; other fields are passed over.
    pub open spec fn from_fields(fs: Seq<SpecField>) -> Option<SpecLicenseKeyContainer> {
        if spec_typed(fs, 1, 2) && spec_typed(fs, 2, 2) && spec_typed(fs, 3, 2) && spec_typed(
            fs,
            4,
            0,
        ) {
            Some(
                SpecLicenseKeyContainer {
                    id: spec_bytes_field(fs, 1),
                    iv: spec_bytes_field(fs, 2),
                    key: spec_bytes_field(fs, 3),
                    key_type: spec_int32(spec_varint_field(fs, 4)),
                },
            )
        } else {
            None
        }
    }

    /// The key container that `bytes` hold, if they hold one.
    pub open spec fn decode(bytes: Seq<u8>) -> Option<SpecLicenseKeyContainer> {
        match spec_parse_fields(bytes) {
            Some(fs) => Self::from_fields(fs),
            None => None,
        }
    }

    /// The key containers that a list of payloads holds, if each holds one.
    pub open spec fn decode_all(payloads: Seq<Seq<u8>>) -> Option<Seq<SpecLicenseKeyContainer>>
        decreases payloads.len(),
    {
        if payloads.len() == 0 {
            Some(Seq::empty())
        } else {
            match (Self::decode_all(payloads.drop_last()), Self::decode(payloads.last())) {
                (Some(before), Some(last)) => Some(before.push(last)),
                _ => None,
            }
        }
    }
}

impl LicenseKeyContainer {
    /// Reads a key container. `None` where the bytes are no message, or where
    /// one of the fields 1 to 4 has another wire type than its schema gives it.
    pub fn decode(bytes: &[u8]) -> (r: Option<LicenseKeyContainer>)
        ensures
            match r {
                Some(k) => SpecLicenseKeyContainer::decode(bytes@) == Some(k@),
                None => SpecLicenseKeyContainer::decode(bytes@) is None,
            },
    {
        let fields = match parse_fields(bytes) {
            Some(fields) => fields,
            None => { return None; },
        };
        if !(all_typed(&fields, 1, WIRE_BYTES) && all_typed(&fields, 2, WIRE_BYTES) && all_typed(
            &fields,
            3,
            WIRE_BYTES,
        ) && all_typed(&fields, 4, WIRE_VARINT)) {
            return None;
        }
        Some(
            LicenseKeyContainer {
                id: last_bytes(&fields, 1),
                iv: last_bytes(&fields, 2),
                key: last_bytes(&fields, 3),
                key_type: int32(last_varint(&fields, 4)),
            },
        )
    }
}

/// The keys of a license, in the order the server gave them.
#[derive(Clone, Debug, PartialEq, Eq)]
pub struct License {
    pub key: Vec<LicenseKeyContainer>,
}

/// What a [`License`] holds, as mathematical values.
pub struct SpecLicense {
    pub key: Seq<SpecLicenseKeyContainer>,
}

/// The key containers of `v`, each by its view.
pub open spec fn key_containers_view(v: Seq<LicenseKeyContainer>) -> Seq<SpecLicenseKeyContainer> {
    Seq::new(v.len(), |i: int| v[i]@)
}

impl View for License {
    type V = SpecLicense;

    open spec fn view(&self) -> SpecLicense {
        SpecLicense { key: key_containers_view(self.key@) }
    }
}

impl SpecLicense {
    /// The license that a list of fields stands for. Each field 3 must be
    /// length-delimited and hold a key container; other fields are passed over.
    pub open spec fn from_fields(fs: Seq<SpecField>) -> Option<SpecLicense> {
        if spec_typed(fs, 3, 2) {
            match SpecLicenseKeyContainer::decode_all(spec_repeated_bytes(fs, 3)) {
                Some(key) => Some(SpecLicense { key }),
                None => None,
            }
        } else {
            None
        }
    }

    /// The license that `bytes` hold, if they hold one.
    pub open spec fn decode(bytes: Seq<u8>) -> Option<SpecLicense> {
        match spec_parse_fields(bytes) {
            Some(fs) => Self::from_fields(fs),
            None => None,
        }
    }
}

impl License {
    /// Reads a license. `None` where the bytes are no message, where a field 3
    /// is not length-delimited, or where one of them holds no key container.
    pub fn decode(bytes: &[u8]) -> (r: Option<License>)
        ensures
            match r {
                Some(l) => SpecLicense::decode(bytes@) == Some(l@),
                None => SpecLicense::decode(bytes@) is None,
            },
    {
        let fields = match parse_fields(bytes) {
            Some(fields) => fields,
            None => { return None; },
        };
        if !all_typed(&fields, 3, WIRE_BYTES) {
            return None;
        }
        let payloads = all_bytes(&fields, 3);
        let ghost all = bytes_list_view(payloads@);
        let mut key: Vec<LicenseKeyContainer> = Vec::new();
        let mut i: usize = 0;
        assert(all.subrange(0, 0) =~= Seq::empty());
        assert(key_containers_view(key@) =~= Seq::empty());
        while i < payloads.len()
            invariant
                i <= payloads.len(),
                all == bytes_list_view(payloads@),
                spec_parse_fields(bytes@) == Some(fields_view(fields@)),
                spec_typed(fields_view(fields@), 3, 2),
                all == spec_repeated_bytes(fields_view(fields@), 3),
                SpecLicenseKeyContainer::decode_all(all.subrange(0, i as int)) == Some(
                    key_containers_view(key@),
                ),
            decreases payloads.len() - i,
        {
            let ghost prefix = all.subrange(0, i + 1);
            let ghost before = key_containers_view(key@);
            assert(prefix.drop_last() =~= all.subrange(0, i as int));
            assert(prefix.last() == payloads@[i as int]@);
            match LicenseKeyContainer::decode(payloads[i].as_slice()) {
                Some(container) => {
                    key.push(container);
                    assert(key_containers_view(key@) =~= before.push(container@));
                },
                None => {
                    proof {
                        lemma_decode_all_prefix(all, i + 1);
                    }
                    return None;
                },
            }
            i = i + 1;
        }
        assert(all.subrange(0, i as int) =~= all);
        Some(License { key })
    }
}

/// Where the first `n` payloads do not all hold a key container, the whole
/// list does not.
pub proof fn lemma_decode_all_prefix(payloads: Seq<Seq<u8>>, n: int)
    requires
        0 <= n <= payloads.len(),
        SpecLicenseKeyContainer::decode_all(payloads.subrange(0, n)) is None,
    ensures
        SpecLicenseKeyContainer::decode_all(payloads) is None,
    decreases payloads.len() - n,
{
    if n < payloads.len() {
        assert(payloads.subrange(0, n + 1).drop_last() =~= payloads.subrange(0, n));
        lemma_decode_all_prefix(payloads, n + 1);
    } else {
        assert(payloads.subrange(0, n) =~= payloads);
    }
}

} // verus!
