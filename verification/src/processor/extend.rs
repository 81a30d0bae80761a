//! Grows a buffer or metadata account by a requested number of bytes.
//!
//! The added bytes are zero and existing contents, header fields included,
//! are untouched; the caller pre-funds the account for its new size.

use vstd::prelude::*;

use crate::account::{Account, AccountView};
use crate::error::ProgramError;
use crate::processor::{record_authorize, spec_record_authorize};
use crate::support::{resized, spec_resized, MAX_ACCOUNT_DATA_LEN};

verus! {

use vstd::bytes::{spec_u16_from_le_bytes, u16_from_le_bytes};

/// What the extend instruction does: after the shared record authority
/// gate, the account grows by exactly the requested number of zero bytes.
pub open spec fn spec_extend(
    account: AccountView,
    authority: AccountView,
    program: AccountView,
    program_data: AccountView,
    ixd: Seq<u8>,
) -> Result<AccountView, ProgramError> {
    if ixd.len() != 2 {
        Err(ProgramError::InvalidInstructionData)
    } else if account.data.len() == 0 {
        Err(ProgramError::InvalidAccountData)
    } else {
        match spec_record_authorize(account, authority, program, program_data) {
            Err(e) => Err(e),
            Ok(_) => {
                let new_len = account.data.len() + spec_u16_from_le_bytes(ixd);
                if new_len > MAX_ACCOUNT_DATA_LEN {
                    Err(ProgramError::InvalidRealloc)
                } else {
                    Ok(account.with_data(spec_resized(account.data, new_len as int)))
                }
            },
        }
    }
}

/// Grows `account` by the little-endian `u16` in `instruction_data`.
pub fn extend(
    account: &mut Account,
    authority: &Account,
    program: &Account,
    program_data: &Account,
    instruction_data: &[u8],
) -> (r: Result<(), ProgramError>)
    requires
        old(account).wf(),
        authority.wf(),
        program.wf(),
        program_data.wf(),
    ensures
        final(account).wf(),
        match spec_extend(old(account)@, authority@, program@, program_data@, instruction_data@) {
            Ok(a) => r is Ok && final(account)@ == a,
            Err(e) => r == Err::<(), ProgramError>(e) && final(account)@ == old(account)@,
        },
{
    if instruction_data.len() != 2 {
        return Err(ProgramError::InvalidInstructionData);
    }
    let extend_length = u16_from_le_bytes(instruction_data);
    if account.data.len() == 0 {
        return Err(ProgramError::InvalidAccountData);
    }
    match record_authorize(account, authority, program, program_data) {
        Ok(_) => {},
        Err(e) => {
            return Err(e);
        },
    }
    let new_len = account.data.len() + extend_length as usize;
    if new_len > MAX_ACCOUNT_DATA_LEN {
        return Err(ProgramError::InvalidRealloc);
    }
    let nd = resized(&account.data, new_len);
    account.data = nd;
    Ok(())
}

/// A successful extend preserves the authority invariant: the account
/// only grows, so every header byte stays where it was.
pub proof fn lemma_extend_authority_invariant(
    account: AccountView,
    authority: AccountView,
    program: AccountView,
    program_data: AccountView,
    ixd: Seq<u8>,
)
    requires
        crate::state::header::spec_metadata_authority_invariant(account.data),
        spec_extend(account, authority, program, program_data, ixd) is Ok,
    ensures
        crate::state::header::spec_metadata_authority_invariant(
            spec_extend(account, authority, program, program_data, ixd)->Ok_0.data,
        ),
{
    let d = account.data;
    let nd = spec_extend(account, authority, program, program_data, ixd)->Ok_0.data;
    let new_len = d.len() + spec_u16_from_le_bytes(ixd);
    if d[0] == 1 {
        assert(nd[0] == 1);
    } else {
        crate::support::lemma_resized_prefix(d, new_len as int, 33, 65);
        assert(nd[0] == d[0]);
        assert(nd[66] == d[66]);
        crate::state::header::lemma_authority_invariant_from_fields(d, nd);
    }
}

} // verus!
