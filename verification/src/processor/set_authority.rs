//! Changes the stored authority of a buffer or metadata account.
//!
//! A buffer must always keep an authority, so removal is refused there. A
//! metadata record must be canonical: a third-party record's address is
//! permanently tied to its original authority, so re-delegation would
//! break its derivation. Clearing a canonical record's authority defers
//! its management entirely to the owning program's upgrade authority.

use vstd::prelude::*;

use crate::account::{Account, AccountView};
use crate::authority::{spec_validate_authority, validate_authority};
use crate::error::ProgramError;
use crate::processor::{buffer_canonical_for, metadata_canonical_for, spec_buffer_canonical_for,
    spec_metadata_canonical_for};
use crate::state::buffer::spec_buffer_authority;
use crate::state::header::{spec_header_authority, spec_header_canonical, spec_header_mutable};
use crate::state::HEADER_LEN;
use crate::support::{read_zeroable_key, spec_splice, write_bytes, zero_bytes, zeroed};

verus! {

use vstd::slice::{slice_index_get, slice_subrange};

/// What the set-authority instruction does to a buffer account: the
/// current authority must sign, a new authority is mandatory, and the
/// stored authority field is overwritten with it.
pub open spec fn spec_set_authority_buffer(
    account: AccountView,
    authority: AccountView,
    program: AccountView,
    program_data: AccountView,
    has_new: u8,
    new_key: Seq<u8>,
) -> Result<AccountView, ProgramError> {
    if account.data.len() < HEADER_LEN {
        Err(ProgramError::InvalidAccountData)
    } else {
        match spec_validate_authority(
            spec_buffer_authority(account.data),
            spec_buffer_canonical_for(account.data, program.key),
            authority,
            program,
            program_data,
        ) {
            Err(e) => Err(e),
            Ok(_) => {
                if has_new == 0 {
                    Err(ProgramError::InvalidInstructionData)
                } else if new_key.len() != 32 {
                    Err(ProgramError::InvalidInstructionData)
                } else {
                    Ok(account.with_data(spec_splice(account.data, 33, new_key)))
                }
            },
        }
    }
}

/// What the set-authority instruction does to a metadata record: the
/// record must be canonical and mutable, the current authority must sign,
/// and the stored authority is replaced by the new key or cleared.
pub open spec fn spec_set_authority_metadata(
    account: AccountView,
    authority: AccountView,
    program: AccountView,
    program_data: AccountView,
    has_new: u8,
    new_key: Seq<u8>,
) -> Result<AccountView, ProgramError> {
    if account.data.len() < HEADER_LEN {
        Err(ProgramError::InvalidAccountData)
    } else if !spec_header_canonical(account.data) {
        Err(ProgramError::InvalidAccountData)
    } else if !spec_header_mutable(account.data) {
        Err(ProgramError::InvalidAccountData)
    } else {
        match spec_validate_authority(
            spec_header_authority(account.data),
            spec_metadata_canonical_for(account.data, program.key),
            authority,
            program,
            program_data,
        ) {
            Err(e) => Err(e),
            Ok(_) => {
                if has_new == 0 {
                    Ok(account.with_data(spec_splice(account.data, 33, zero_bytes(32))))
                } else if new_key.len() != 32 {
                    Err(ProgramError::InvalidInstructionData)
                } else {
                    Ok(account.with_data(spec_splice(account.data, 33, new_key)))
                }
            },
        }
    }
}

/// What the set-authority instruction does, dispatching on the account's
/// discriminator.
pub open spec fn spec_set_authority(
    account: AccountView,
    authority: AccountView,
    program: AccountView,
    program_data: AccountView,
    ixd: Seq<u8>,
) -> Result<AccountView, ProgramError> {
    if ixd.len() < 1 {
        Err(ProgramError::InvalidInstructionData)
    } else if !authority.is_signer {
        Err(ProgramError::MissingRequiredSignature)
    } else if account.data.len() == 0 {
        Err(ProgramError::InvalidAccountData)
    } else if account.data[0] == 1 {
        spec_set_authority_buffer(account, authority, program, program_data, ixd[0], ixd.skip(1))
    } else if account.data[0] == 2 {
        spec_set_authority_metadata(account, authority, program, program_data, ixd[0], ixd.skip(1))
    } else {
        Err(ProgramError::InvalidAccountData)
    }
}

/// Sets, replaces or (for canonical metadata) removes the authority of
/// `account`.
pub fn set_authority(
    account: &mut Account,
    authority: &Account,
    program: &Account,
    program_data: &Account,
    instruction_data: &[u8],
) -> (r: Result<(), ProgramError>)
    requires
        old(account).wf(),
        authority.wf(),
        program.wf(),
        program_data.wf(),
    ensures
        final(account).wf(),
        match spec_set_authority(
            old(account)@,
            authority@,
            program@,
            program_data@,
            instruction_data@,
        ) {
            Ok(a) => r is Ok && final(account)@ == a,
            Err(e) => r == Err::<(), ProgramError>(e) && final(account)@ == old(account)@,
        },
{
    if instruction_data.len() < 1 {
        return Err(ProgramError::InvalidInstructionData);
    }
    let has_new = *slice_index_get(instruction_data, 0);
    let new_key = slice_subrange(instruction_data, 1, instruction_data.len());
    if !authority.is_signer {
        return Err(ProgramError::MissingRequiredSignature);
    }
    if account.data.len() == 0 {
        return Err(ProgramError::InvalidAccountData);
    }
    let disc = *slice_index_get(account.data.as_slice(), 0);
    if disc == 1 {
        if account.data.len() < HEADER_LEN {
            return Err(ProgramError::InvalidAccountData);
        }
        let stored = read_zeroable_key(account.data.as_slice(), 33);
        let canonical_for = buffer_canonical_for(account.data.as_slice(), program.key.as_slice());
        match validate_authority(&stored, canonical_for, authority, program, program_data) {
            Ok(_) => {},
            Err(e) => {
                return Err(e);
            },
        }
        if has_new == 0 {
            return Err(ProgramError::InvalidInstructionData);
        }
        if new_key.len() != 32 {
            return Err(ProgramError::InvalidInstructionData);
        }
        write_bytes(&mut account.data, 33, new_key);
        Ok(())
    } else if disc == 2 {
        if account.data.len() < HEADER_LEN {
            return Err(ProgramError::InvalidAccountData);
        }
        if *slice_index_get(account.data.as_slice(), 66) == 0 {
            return Err(ProgramError::InvalidAccountData);
        }
        if *slice_index_get(account.data.as_slice(), 65) == 0 {
            return Err(ProgramError::InvalidAccountData);
        }
        let stored = read_zeroable_key(account.data.as_slice(), 33);
        let canonical_for = metadata_canonical_for(account.data.as_slice(), program.key.as_slice());
        match validate_authority(&stored, canonical_for, authority, program, program_data) {
            Ok(_) => {},
            Err(e) => {
                return Err(e);
            },
        }
        if has_new == 0 {
            let z = zeroed(32);
            write_bytes(&mut account.data, 33, z.as_slice());
            Ok(())
        } else if new_key.len() != 32 {
            Err(ProgramError::InvalidInstructionData)
        } else {
            write_bytes(&mut account.data, 33, new_key);
            Ok(())
        }
    } else {
        Err(ProgramError::InvalidAccountData)
    }
}

/// Re-delegation is canonical-only: on a third-party (non-canonical)
/// metadata record the instruction fails whatever signer and whatever new
/// authority are supplied.
pub proof fn lemma_set_authority_non_canonical_fails(
    account: AccountView,
    authority: AccountView,
    program: AccountView,
    program_data: AccountView,
    ixd: Seq<u8>,
)
    requires
        account.data.len() >= HEADER_LEN,
        account.data[0] == 2,
        !spec_header_canonical(account.data),
    ensures
        spec_set_authority(account, authority, program, program_data, ixd) is Err,
{
}

/// A successful set-authority preserves the authority invariant: on a
/// buffer the record is not a metadata record at all, and on a metadata
/// record the instruction is canonical-only, so the record stays
/// canonical whatever the authority field becomes.
pub proof fn lemma_set_authority_authority_invariant(
    account: AccountView,
    authority: AccountView,
    program: AccountView,
    program_data: AccountView,
    ixd: Seq<u8>,
)
    requires
        crate::state::header::spec_metadata_authority_invariant(account.data),
        spec_set_authority(account, authority, program, program_data, ixd) is Ok,
    ensures
        crate::state::header::spec_metadata_authority_invariant(
            spec_set_authority(account, authority, program, program_data, ixd)->Ok_0.data,
        ),
{
    let d = account.data;
    let nd = spec_set_authority(account, authority, program, program_data, ixd)->Ok_0.data;
    if d[0] == 1 {
        assert(nd[0] == 1);
    } else {
        assert(nd[66] == d[66]);
        assert(spec_header_canonical(nd));
    }
}

} // verus!
