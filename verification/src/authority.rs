//! Authority resolution.
//!
//! A record may be mutated by its stored explicit authority or, for a
//! canonical record, by the owning program's current upgrade authority.
//! The upgrade authority is read from two external loader records at fixed
//! offsets: the program account names its delegate record, and the
//! delegate record holds the authority key. A malformed external record is
//! fatal for the instruction, never silently "not authorized".

use vstd::prelude::*;

use crate::account::{Account, AccountView};
use crate::error::ProgramError;
use crate::spec_loader_v3_id;
use crate::spec_program_id;
use crate::state::header::{spec_header_mutable, spec_parse_header, Header};
use crate::state::HEADER_LEN;
use crate::support::bytes_eq;

verus! {

use vstd::slice::{slice_index_get, slice_subrange};

/// Whether `claimed` is the key allowed to upgrade `program`, per the
/// loader records supplied by the caller.
///
/// A program not owned by the upgradeable loader vouches for itself: the
/// claimed key must be the executable program's own address. For an
/// upgradeable program, the program account must name `program_data`, and
/// `program_data` must be a live delegate record whose stored authority
/// equals the claimed key. A malformed record of either kind is
/// `InvalidAccountData`.
pub open spec fn spec_is_program_authority(
    program: AccountView,
    program_data: AccountView,
    claimed: Seq<u8>,
) -> Result<bool, ProgramError> {
    if program.owner != spec_loader_v3_id() {
        Ok(program.executable && program.key == claimed)
    } else if program_data.key == spec_program_id() {
        Ok(false)
    } else if !(program.data.len() >= 36 && program.data[0] == 2 && program.executable) {
        Err(ProgramError::InvalidAccountData)
    } else if program.data.subrange(4, 36) != program_data.key {
        Err(ProgramError::InvalidAccountData)
    } else if !(program_data.data.len() >= 13 && program_data.data[0] == 3
        && !program_data.executable) {
        Err(ProgramError::InvalidAccountData)
    } else if program_data.data[12] == 1 {
        if program_data.data.len() < 45 {
            Err(ProgramError::InvalidAccountData)
        } else {
            Ok(claimed == program_data.data.subrange(13, 45))
        }
    } else {
        Ok(false)
    }
}

/// Decides whether `claimed` is the upgrade authority of `program`.
pub fn is_program_authority(program: &Account, program_data: &Account, claimed: &[u8]) -> (r:
    Result<bool, ProgramError>)
    requires
        program.wf(),
        program_data.wf(),
    ensures
        r == spec_is_program_authority(program@, program_data@, claimed@),
{
    let loader = crate::loader_v3_id();
    if !bytes_eq(program.owner.as_slice(), loader.as_slice()) {
        return Ok(program.executable && bytes_eq(program.key.as_slice(), claimed));
    }
    let own_id = crate::program_id();
    if bytes_eq(program_data.key.as_slice(), own_id.as_slice()) {
        return Ok(false);
    }
    let pdata = program.data.as_slice();
    if !(pdata.len() >= 36 && *slice_index_get(pdata, 0) == 2 && program.executable) {
        return Err(ProgramError::InvalidAccountData);
    }
    if !bytes_eq(slice_subrange(pdata, 4, 36), program_data.key.as_slice()) {
        return Err(ProgramError::InvalidAccountData);
    }
    let ddata = program_data.data.as_slice();
    if !(ddata.len() >= 13 && *slice_index_get(ddata, 0) == 3 && !program_data.executable) {
        return Err(ProgramError::InvalidAccountData);
    }
    if *slice_index_get(ddata, 12) == 1 {
        if ddata.len() < 45 {
            return Err(ProgramError::InvalidAccountData);
        }
        Ok(bytes_eq(claimed, slice_subrange(ddata, 13, 45)))
    } else {
        Ok(false)
    }
}

/// Whether a record whose stored authority is `stored` and whose canonical
/// standing for the supplied program account is `canonical_for_program`
/// may be mutated by `authority`.
///
/// The signer flag must be set; then the stored explicit authority
/// decides, and only when it is absent or different may a canonical
/// record fall back to the owning program's upgrade authority.
pub open spec fn spec_validate_authority(
    stored: Option<Seq<u8>>,
    canonical_for_program: bool,
    authority: AccountView,
    program: AccountView,
    program_data: AccountView,
) -> Result<(), ProgramError> {
    if !authority.is_signer {
        Err(ProgramError::MissingRequiredSignature)
    } else if stored matches Some(k) && k == authority.key {
        Ok(())
    } else if canonical_for_program {
        match spec_is_program_authority(program, program_data, authority.key) {
            Ok(true) => Ok(()),
            Ok(false) => Err(ProgramError::IncorrectAuthority),
            Err(e) => Err(e),
        }
    } else {
        Err(ProgramError::IncorrectAuthority)
    }
}

/// Checks that `authority` may mutate a record with stored authority
/// `stored` and canonical standing `canonical_for_program`.
pub fn validate_authority(
    stored: &Option<Vec<u8>>,
    canonical_for_program: bool,
    authority: &Account,
    program: &Account,
    program_data: &Account,
) -> (r: Result<(), ProgramError>)
    requires
        program.wf(),
        program_data.wf(),
    ensures
        r == spec_validate_authority(
            match stored {
                Option::None => Option::None,
                Option::Some(k) => Option::Some(k@),
            },
            canonical_for_program,
            authority@,
            program@,
            program_data@,
        ),
{
    if !authority.is_signer {
        return Err(ProgramError::MissingRequiredSignature);
    }
    let explicit = match stored {
        Some(k) => bytes_eq(k.as_slice(), authority.key.as_slice()),
        None => false,
    };
    if explicit {
        return Ok(());
    }
    if canonical_for_program {
        match is_program_authority(program, program_data, authority.key.as_slice()) {
            Ok(true) => Ok(()),
            Ok(false) => Err(ProgramError::IncorrectAuthority),
            Err(e) => Err(e),
        }
    } else {
        Err(ProgramError::IncorrectAuthority)
    }
}

/// Whether `metadata` holds a live, still-mutable metadata record:
/// `UninitializedAccount` when the account is not a metadata record,
/// `InvalidAccountData` when the record is immutable.
pub open spec fn spec_validate_metadata(metadata: AccountView) -> Result<(), ProgramError> {
    if !(metadata.data.len() >= HEADER_LEN && metadata.data[0] == 2) {
        Err(ProgramError::UninitializedAccount)
    } else if !spec_header_mutable(metadata.data) {
        Err(ProgramError::InvalidAccountData)
    } else {
        Ok(())
    }
}

/// Checks that `metadata` holds a live, still-mutable metadata record and
/// returns its parsed header.
pub fn validate_metadata(metadata: &Account) -> (r: Result<Header, ProgramError>)
    ensures
        match r {
            Ok(h) => {
                &&& spec_validate_metadata(metadata@) is Ok
                &&& h@ == spec_parse_header(metadata@.data)
                &&& h@.wf()
                &&& h@.mutable
            },
            Err(e) => spec_validate_metadata(metadata@) == Err::<(), ProgramError>(e),
        },
{
    let data = metadata.data.as_slice();
    if !(data.len() >= HEADER_LEN && *slice_index_get(data, 0) == 2) {
        return Err(ProgramError::UninitializedAccount);
    }
    let header = match Header::from_bytes(data) {
        Ok(h) => h,
        Err(_) => {
            return Err(ProgramError::UninitializedAccount);
        },
    };
    if !header.mutable {
        return Err(ProgramError::InvalidAccountData);
    }
    Ok(header)
}

} // verus!
