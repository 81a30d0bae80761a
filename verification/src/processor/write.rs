//! Writes bytes into a buffer account at an offset.
//!
//! The bytes come either inline with the instruction or from a source
//! buffer account, never both. The target grows as needed; writing never
//! truncates past the new write's extent.

use vstd::prelude::*;

use crate::account::{Account, AccountView};
use crate::error::ProgramError;
use crate::spec_program_id;
use crate::state::buffer::spec_buffer_authority;
use crate::state::HEADER_LEN;
use crate::support::{bytes_eq, read_zeroable_key, resized, spec_resized, spec_splice, write_bytes,
    MAX_ACCOUNT_DATA_LEN};

verus! {

use vstd::bytes::{spec_u32_from_le_bytes, u32_from_le_bytes};
use vstd::slice::{slice_index_get, slice_subrange};

/// The target data after writing `src` at payload offset `offset`: the
/// account grows to hold the write if needed, and only the written range
/// changes.
pub open spec fn spec_written_data(data: Seq<u8>, offset: int, src: Seq<u8>) -> Result<
    Seq<u8>,
    ProgramError,
> {
    let pos = HEADER_LEN + offset;
    let required = if data.len() >= pos + src.len() {
        data.len() as int
    } else {
        pos + src.len()
    };
    if required > MAX_ACCOUNT_DATA_LEN {
        Err(ProgramError::InvalidRealloc)
    } else {
        Ok(spec_splice(spec_resized(data, required), pos, src))
    }
}

/// The bytes a write instruction supplies: inline instruction bytes or the
/// payload of a source buffer account, exactly one of the two.
pub open spec fn spec_write_source(
    inline: Seq<u8>,
    source: AccountView,
) -> Result<Seq<u8>, ProgramError> {
    let has_inline = inline.len() > 0;
    let has_buffer = source.key != spec_program_id();
    if has_inline && !has_buffer {
        Ok(inline)
    } else if !has_inline && has_buffer {
        if source.data.len() == 0 {
            Err(ProgramError::InvalidAccountData)
        } else if source.data[0] == 1 {
            if source.data.len() < HEADER_LEN {
                Err(ProgramError::InvalidAccountData)
            } else {
                Ok(source.data.skip(HEADER_LEN as int))
            }
        } else {
            Err(ProgramError::InvalidAccountData)
        }
    } else {
        Err(ProgramError::InvalidInstructionData)
    }
}

/// What the write instruction does: the signer must be the buffer's stored
/// authority, and the supplied bytes land at the requested payload offset.
pub open spec fn spec_write(
    target: AccountView,
    authority: AccountView,
    source: AccountView,
    ixd: Seq<u8>,
) -> Result<AccountView, ProgramError> {
    if ixd.len() < 4 {
        Err(ProgramError::InvalidInstructionData)
    } else if !authority.is_signer {
        Err(ProgramError::MissingRequiredSignature)
    } else if target.data.len() == 0 || target.data[0] != 1 {
        Err(ProgramError::InvalidAccountData)
    } else if target.data.len() < HEADER_LEN {
        Err(ProgramError::InvalidAccountData)
    } else if spec_buffer_authority(target.data) != Some(authority.key) {
        Err(ProgramError::IncorrectAuthority)
    } else {
        match spec_write_source(ixd.skip(4), source) {
            Err(e) => Err(e),
            Ok(src) => {
                let offset = spec_u32_from_le_bytes(ixd.subrange(0, 4));
                match spec_written_data(target.data, offset as int, src) {
                    Err(e) => Err(e),
                    Ok(d) => Ok(target.with_data(d)),
                }
            },
        }
    }
}

/// Writes instruction bytes, or a source buffer's payload, into `target`
/// at the offset given in `instruction_data`.
pub fn write(
    target: &mut Account,
    authority: &Account,
    source: &Account,
    instruction_data: &[u8],
) -> (r: Result<(), ProgramError>)
    requires
        old(target).wf(),
        authority.wf(),
        source.wf(),
    ensures
        final(target).wf(),
        match spec_write(old(target)@, authority@, source@, instruction_data@) {
            Ok(a) => r is Ok && final(target)@ == a,
            Err(e) => r == Err::<(), ProgramError>(e) && final(target)@ == old(target)@,
        },
{
    if instruction_data.len() < 4 {
        return Err(ProgramError::InvalidInstructionData);
    }
    if !authority.is_signer {
        return Err(ProgramError::MissingRequiredSignature);
    }
    if target.data.len() == 0 || *slice_index_get(target.data.as_slice(), 0) != 1 {
        return Err(ProgramError::InvalidAccountData);
    }
    if target.data.len() < HEADER_LEN {
        return Err(ProgramError::InvalidAccountData);
    }
    let authorized = match read_zeroable_key(target.data.as_slice(), 33) {
        Some(k) => bytes_eq(k.as_slice(), authority.key.as_slice()),
        None => false,
    };
    if !authorized {
        return Err(ProgramError::IncorrectAuthority);
    }
    let offset = u32_from_le_bytes(slice_subrange(instruction_data, 0, 4));
    let inline = slice_subrange(instruction_data, 4, instruction_data.len());
    let has_inline = inline.len() > 0;
    let own_id = crate::program_id();
    let has_buffer = !bytes_eq(source.key.as_slice(), own_id.as_slice());
    let src: &[u8] = if has_inline && !has_buffer {
        inline
    } else if !has_inline && has_buffer {
        if source.data.len() == 0 {
            return Err(ProgramError::InvalidAccountData);
        }
        if *slice_index_get(source.data.as_slice(), 0) != 1 {
            return Err(ProgramError::InvalidAccountData);
        }
        if source.data.len() < HEADER_LEN {
            return Err(ProgramError::InvalidAccountData);
        }
        slice_subrange(source.data.as_slice(), HEADER_LEN, source.data.len())
    } else {
        return Err(ProgramError::InvalidInstructionData);
    };
    proof {
        assert(instruction_data@.subrange(4, instruction_data@.len() as int)
            =~= instruction_data@.skip(4));
        assert(source@.data.subrange(HEADER_LEN as int, source@.data.len() as int)
            =~= source@.data.skip(HEADER_LEN as int));
        assert(spec_write_source(instruction_data@.skip(4), source@) == Ok::<Seq<u8>, ProgramError>(
            src@,
        ));
    }
    if src.len() > MAX_ACCOUNT_DATA_LEN {
        return Err(ProgramError::InvalidRealloc);
    }
    let pos: u64 = HEADER_LEN as u64 + offset as u64;
    let end: u64 = pos + src.len() as u64;
    let required: u64 = if target.data.len() as u64 >= end {
        target.data.len() as u64
    } else {
        end
    };
    if required > MAX_ACCOUNT_DATA_LEN as u64 {
        return Err(ProgramError::InvalidRealloc);
    }
    let required_len = required as usize;
    let mut nd = resized(&target.data, required_len);
    write_bytes(&mut nd, (pos as usize), src);
    target.data = nd;
    Ok(())
}

} // verus!
