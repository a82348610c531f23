//! Which PSSH boxes a request may be built from.

use crate::constants::WIDEVINE_SYSTEM_ID;
use crate::wire::{parse_fields, spec_parse_fields};
use vstd::prelude::*;
use vstd::slice::slice_subrange;

verus! {

/// Where the system id starts in a PSSH box.
pub const SYSTEM_ID_START: usize = 12;

/// Where the system id ends in a PSSH box.
pub const SYSTEM_ID_END: usize = 28;

/// Where the Widevine data starts in a PSSH box.
pub const PSSH_DATA_START: usize = 32;

/// The bytes of the box where the system id stands, if the box is long enough
/// to hold one.
pub open spec fn spec_system_id_of(pssh: Seq<u8>) -> Option<Seq<u8>> {
    if pssh.len() >= SYSTEM_ID_END {
        Some(pssh.subrange(SYSTEM_ID_START as int, SYSTEM_ID_END as int))
    } else {
        None
    }
}

/// Whether the box names Widevine as its system.
pub open spec fn spec_has_widevine_system_id(pssh: Seq<u8>) -> bool {
    spec_system_id_of(pssh) == Some(WIDEVINE_SYSTEM_ID@)
}

/// The Widevine data of the box: what follows its first 32 bytes.
pub open spec fn spec_pssh_payload(pssh: Seq<u8>) -> Seq<u8> {
    pssh.skip(PSSH_DATA_START as int)
}

/// Whether the box holds Widevine data that reads as a message.
pub open spec fn spec_check_pssh(pssh: Seq<u8>) -> bool {
    pssh.len() >= PSSH_DATA_START && spec_parse_fields(spec_pssh_payload(pssh)) is Some
}

/// Whether a request may be built from the box: it names Widevine as its
/// system and holds data that reads as a message.
pub open spec fn spec_pssh_accepted(pssh: Seq<u8>) -> bool {
    spec_has_widevine_system_id(pssh) && spec_check_pssh(pssh)
}

/// Whether the box names Widevine as its system.
pub fn has_widevine_system_id(pssh: &Vec<u8>) -> (ok: bool)
    ensures
        ok == spec_has_widevine_system_id(pssh@),
{
    if pssh.len() < SYSTEM_ID_END {
        return false;
    }
    let ghost found = pssh@.subrange(SYSTEM_ID_START as int, SYSTEM_ID_END as int);
    let mut i: usize = 0;
    while i < 16
        invariant
            i <= 16,
            pssh.len() >= SYSTEM_ID_END,
            found == pssh@.subrange(SYSTEM_ID_START as int, SYSTEM_ID_END as int),
            forall|k: int| 0 <= k < i ==> found[k] == WIDEVINE_SYSTEM_ID@[k],
        decreases 16 - i,
    {
        if pssh[SYSTEM_ID_START + i] != WIDEVINE_SYSTEM_ID[i] {
            assert(found[i as int] != WIDEVINE_SYSTEM_ID@[i as int]);
            return false;
        }
        i = i + 1;
    }
    assert(found =~= WIDEVINE_SYSTEM_ID@);
    true
}

/// Whether the box holds Widevine data that reads as a message.
pub fn check_pssh(pssh: &Vec<u8>) -> (ok: bool)
    ensures
        ok == spec_check_pssh(pssh@),
{
    if pssh.len() < PSSH_DATA_START {
        return false;
    }
    let payload = slice_subrange(pssh.as_slice(), PSSH_DATA_START, pssh.len());
    assert(payload@ =~= spec_pssh_payload(pssh@));
    parse_fields(payload).is_some()
}

/// A box whose bytes 12 to 27 are not the Widevine system id is not accepted,
/// whatever else it holds.
pub proof fn lemma_foreign_system_rejected(pssh: Seq<u8>)
    requires
        pssh.len() < SYSTEM_ID_END || pssh.subrange(SYSTEM_ID_START as int, SYSTEM_ID_END as int)
            != WIDEVINE_SYSTEM_ID@,
    ensures
        !spec_pssh_accepted(pssh),
{
}

} // verus!
