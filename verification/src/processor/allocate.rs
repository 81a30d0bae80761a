//! Sets up a buffer account so data can be staged into it.
//!
//! The buffer is either a plain funded account whose key is the signer
//! itself, or a derived-address account bound to a program and seed. A
//! zero-length account is allocated to the header size and assigned to
//! this program (the host's system program performs both on its behalf);
//! a pre-allocated account must still be unclaimed. The buffer header is
//! then written whole.

use vstd::prelude::*;

use crate::account::{Account, AccountView};
use crate::authority::{is_program_authority, spec_is_program_authority};
use crate::error::{ProgramError, ProgramMetadataError};
use crate::pda::{derive_for, spec_derivation};
use crate::spec_program_id;
use crate::state::buffer::{spec_buffer_bytes, Buffer, BufferView};
use crate::state::{HEADER_LEN, SEED_LEN};
use crate::support::{bytes_eq, spec_splice, write_bytes, zero_bytes, zeroed};

verus! {

use vstd::slice::{slice_index_get, slice_to_vec};

/// The derivation gate of the allocate instruction: a buffer that is the
/// signer itself takes no seed; any other buffer must be this program's
/// derived address for the program, seed and (for third-party records)
/// signer. Yields whether the buffer is derived and whether it is
/// canonical.
pub open spec fn spec_allocate_classify(
    buffer: AccountView,
    authority: AccountView,
    program: AccountView,
    program_data: AccountView,
    ixd: Seq<u8>,
) -> Result<(bool, bool), ProgramError> {
    if buffer.key == authority.key {
        if ixd.len() != 0 {
            Err(ProgramError::InvalidInstructionData)
        } else {
            Ok((false, false))
        }
    } else if ixd.len() != SEED_LEN {
        Err(ProgramError::InvalidInstructionData)
    } else if !program.executable {
        Err(ProgramMetadataError::NotExecutableAccount.spec_to_program_error())
    } else {
        match spec_is_program_authority(program, program_data, authority.key) {
            Err(e) => Err(e),
            Ok(canonical) => match spec_derivation(program.key, authority.key, ixd, canonical) {
                Option::None => Err(ProgramError::InvalidSeeds),
                Option::Some(p) => if buffer.key != p.0 {
                    Err(ProgramError::InvalidSeeds)
                } else {
                    Ok((true, canonical))
                },
            },
        }
    }
}

/// The space gate of the allocate instruction: a zero-length account must
/// be funded and becomes a header-sized account owned by this program; an
/// account at least header-sized must hold no live record — whoever owns
/// it — and is assigned to this program if needed; anything shorter is
/// malformed.
pub open spec fn spec_allocate_space(buffer: AccountView) -> Result<AccountView, ProgramError> {
    if buffer.data.len() == 0 {
        if buffer.lamports == 0 {
            Err(ProgramError::AccountNotRentExempt)
        } else {
            Ok(buffer.with_data(zero_bytes(HEADER_LEN as int)).with_owner(spec_program_id()))
        }
    } else if buffer.data.len() >= HEADER_LEN {
        if buffer.data[0] != 0 {
            Err(ProgramError::AccountAlreadyInitialized)
        } else if buffer.owner != spec_program_id() {
            Ok(buffer.with_owner(spec_program_id()))
        } else {
            Ok(buffer)
        }
    } else {
        Err(ProgramError::InvalidAccountData)
    }
}

/// The buffer header the allocate instruction writes.
pub open spec fn spec_allocate_header(
    authority_key: Seq<u8>,
    program_key: Seq<u8>,
    seed: Seq<u8>,
    is_pda: bool,
    canonical: bool,
) -> BufferView {
    BufferView {
        program: if is_pda {
            Option::Some(program_key)
        } else {
            Option::None
        },
        authority: Option::Some(authority_key),
        canonical: is_pda && canonical,
        seed: if is_pda {
            seed
        } else {
            zero_bytes(16)
        },
    }
}

/// What the allocate instruction does: after the signer, derivation and
/// space gates, the account starts with a freshly written buffer header
/// and keeps any payload bytes beyond it.
pub open spec fn spec_allocate(
    buffer: AccountView,
    authority: AccountView,
    program: AccountView,
    program_data: AccountView,
    ixd: Seq<u8>,
) -> Result<AccountView, ProgramError> {
    if !authority.is_signer {
        Err(ProgramError::MissingRequiredSignature)
    } else {
        match spec_allocate_classify(buffer, authority, program, program_data, ixd) {
            Err(e) => Err(e),
            Ok((is_pda, canonical)) => match spec_allocate_space(buffer) {
                Err(e) => Err(e),
                Ok(b) => {
                    let header = spec_allocate_header(
                        authority.key,
                        program.key,
                        ixd,
                        is_pda,
                        canonical,
                    );
                    Ok(b.with_data(spec_splice(b.data, 0, spec_buffer_bytes(header))))
                },
            },
        }
    }
}

/// Allocates and claims `buffer` and writes its buffer header; the seed
/// for a derived-address buffer arrives as the instruction data.
pub fn allocate(
    buffer: &mut Account,
    authority: &Account,
    program: &Account,
    program_data: &Account,
    instruction_data: &[u8],
) -> (r: Result<(), ProgramError>)
    requires
        old(buffer).wf(),
        authority.wf(),
        program.wf(),
        program_data.wf(),
    ensures
        final(buffer).wf(),
        match spec_allocate(old(buffer)@, authority@, program@, program_data@, instruction_data@) {
            Ok(a) => r is Ok && final(buffer)@ == a,
            Err(e) => r == Err::<(), ProgramError>(e) && final(buffer)@ == old(buffer)@,
        },
{
    if !authority.is_signer {
        return Err(ProgramError::MissingRequiredSignature);
    }
    let is_pda: bool;
    let canonical: bool;
    if bytes_eq(buffer.key.as_slice(), authority.key.as_slice()) {
        if instruction_data.len() != 0 {
            return Err(ProgramError::InvalidInstructionData);
        }
        is_pda = false;
        canonical = false;
    } else {
        if instruction_data.len() != SEED_LEN {
            return Err(ProgramError::InvalidInstructionData);
        }
        if !program.executable {
            return Err(ProgramMetadataError::NotExecutableAccount.to_program_error());
        }
        canonical = match is_program_authority(program, program_data, authority.key.as_slice()) {
            Ok(c) => c,
            Err(e) => {
                return Err(e);
            },
        };
        match derive_for(
            program.key.as_slice(),
            authority.key.as_slice(),
            instruction_data,
            canonical,
        ) {
            Some(p) => {
                if !bytes_eq(p.0.as_slice(), buffer.key.as_slice()) {
                    return Err(ProgramError::InvalidSeeds);
                }
            },
            None => {
                return Err(ProgramError::InvalidSeeds);
            },
        }
        is_pda = true;
    }
    if buffer.data.len() == 0 {
        if buffer.lamports == 0 {
            return Err(ProgramError::AccountNotRentExempt);
        }
        buffer.data = zeroed(HEADER_LEN);
        buffer.owner = crate::program_id();
    } else if buffer.data.len() >= HEADER_LEN {
        if *slice_index_get(buffer.data.as_slice(), 0) != 0 {
            return Err(ProgramError::AccountAlreadyInitialized);
        }
        let own_id = crate::program_id();
        if !bytes_eq(buffer.owner.as_slice(), own_id.as_slice()) {
            buffer.owner = own_id;
        }
    } else {
        return Err(ProgramError::InvalidAccountData);
    }
    let header = Buffer {
        program: if is_pda {
            Some(slice_to_vec(program.key.as_slice()))
        } else {
            None
        },
        authority: Some(slice_to_vec(authority.key.as_slice())),
        canonical: is_pda && canonical,
        seed: if is_pda {
            slice_to_vec(instruction_data)
        } else {
            zeroed(16)
        },
    };
    let header_bytes = header.to_bytes();
    write_bytes(&mut buffer.data, 0, header_bytes.as_slice());
    Ok(())
}

} // verus!
