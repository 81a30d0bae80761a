//! Shrinks an account to its record's length and withdraws the excess
//! balance.
//!
//! The record length is the whole data for a buffer and the header plus
//! stored payload length for a metadata record. The account is resized to
//! that length, and every lamport above the rent-exempt minimum for that
//! length moves to the destination. The balance never drops below the
//! minimum: an underfunded account is an error, not a partial withdrawal.

use vstd::prelude::*;

use crate::account::{Account, AccountView};
use crate::authority::{spec_validate_authority, spec_validate_metadata, validate_authority,
    validate_metadata};
use crate::error::ProgramError;
use crate::processor::{buffer_canonical_for, metadata_canonical_for, spec_buffer_canonical_for,
    spec_metadata_canonical_for};
use crate::rent::{minimum_balance, spec_minimum_balance};
use crate::state::buffer::spec_buffer_authority;
use crate::state::header::{spec_header_authority, spec_header_data_length};
use crate::state::HEADER_LEN;
use crate::support::{read_zeroable_key, resized, spec_resized, MAX_ACCOUNT_DATA_LEN};

verus! {

use vstd::bytes::u32_from_le_bytes;
use vstd::slice::{slice_index_get, slice_subrange};

/// The record length and authority gate the trim instruction resolves, by
/// record kind.
pub open spec fn spec_trim_resolve(
    account: AccountView,
    authority: AccountView,
    program: AccountView,
    program_data: AccountView,
) -> Result<int, ProgramError> {
    if account.data[0] == 1 {
        if account.data.len() < HEADER_LEN {
            Err(ProgramError::InvalidAccountData)
        } else {
            match spec_validate_authority(
                spec_buffer_authority(account.data),
                spec_buffer_canonical_for(account.data, program.key),
                authority,
                program,
                program_data,
            ) {
                Err(e) => Err(e),
                Ok(_) => Ok(account.data.len() as int),
            }
        }
    } else if account.data[0] == 2 {
        match spec_validate_metadata(account) {
            Err(e) => Err(e),
            Ok(_) => match spec_validate_authority(
                spec_header_authority(account.data),
                spec_metadata_canonical_for(account.data, program.key),
                authority,
                program,
                program_data,
            ) {
                Err(e) => Err(e),
                Ok(_) => Ok(HEADER_LEN + spec_header_data_length(account.data)),
            },
        }
    } else {
        Err(ProgramError::UninitializedAccount)
    }
}

/// What the trim instruction does: the account is resized to its record
/// length and every lamport above that length's rent-exempt minimum moves
/// to the destination.
pub open spec fn spec_trim(
    account: AccountView,
    authority: AccountView,
    program: AccountView,
    program_data: AccountView,
    destination: AccountView,
    rent_sysvar: AccountView,
) -> Result<(AccountView, AccountView), ProgramError> {
    if account.data.len() == 0 {
        Err(ProgramError::UninitializedAccount)
    } else {
        match spec_trim_resolve(account, authority, program, program_data) {
            Err(e) => Err(e),
            Ok(length) => match spec_minimum_balance(rent_sysvar.data, length) {
                Err(e) => Err(e),
                Ok(minimum) => {
                    if account.lamports < minimum {
                        Err(ProgramError::ArithmeticOverflow)
                    } else if destination.lamports + (account.lamports - minimum) > u64::MAX {
                        Err(ProgramError::ArithmeticOverflow)
                    } else {
                        Ok(
                            (
                                account.with_data(spec_resized(account.data, length)).with_lamports(
                                    minimum,
                                ),
                                destination.with_lamports(
                                    (destination.lamports + (account.lamports - minimum)) as u64,
                                ),
                            ),
                        )
                    }
                },
            },
        }
    }
}

/// Resizes `account` to its record length and withdraws the excess
/// balance to `destination`, under the rent parameters in `rent_sysvar`.
pub fn trim(
    account: &mut Account,
    authority: &Account,
    program: &Account,
    program_data: &Account,
    destination: &mut Account,
    rent_sysvar: &Account,
) -> (r: Result<(), ProgramError>)
    requires
        old(account).wf(),
        authority.wf(),
        program.wf(),
        program_data.wf(),
        old(destination).wf(),
        rent_sysvar.wf(),
    ensures
        final(account).wf(),
        final(destination).wf(),
        match spec_trim(
            old(account)@,
            authority@,
            program@,
            program_data@,
            old(destination)@,
            rent_sysvar@,
        ) {
            Ok(out) => r is Ok && final(account)@ == out.0 && final(destination)@ == out.1,
            Err(e) => r == Err::<(), ProgramError>(e) && final(account)@ == old(account)@
                && final(destination)@ == old(destination)@,
        },
{
    if account.data.len() == 0 {
        return Err(ProgramError::UninitializedAccount);
    }
    let disc = *slice_index_get(account.data.as_slice(), 0);
    let length: usize;
    if disc == 1 {
        if account.data.len() < HEADER_LEN {
            return Err(ProgramError::InvalidAccountData);
        }
        let stored = read_zeroable_key(account.data.as_slice(), 33);
        let canonical_for = buffer_canonical_for(account.data.as_slice(), program.key.as_slice());
        match validate_authority(&stored, canonical_for, authority, program, program_data) {
            Ok(_) => {},
            Err(e) => {
                return Err(e);
            },
        }
        length = account.data.len();
    } else if disc == 2 {
        match validate_metadata(account) {
            Ok(_) => {},
            Err(e) => {
                return Err(e);
            },
        }
        let stored = read_zeroable_key(account.data.as_slice(), 33);
        let canonical_for = metadata_canonical_for(account.data.as_slice(), program.key.as_slice());
        match validate_authority(&stored, canonical_for, authority, program, program_data) {
            Ok(_) => {},
            Err(e) => {
                return Err(e);
            },
        }
        let stored_len = u32_from_le_bytes(slice_subrange(account.data.as_slice(), 87, 91));
        if stored_len as u64 + HEADER_LEN as u64 > MAX_ACCOUNT_DATA_LEN as u64 {
            return Err(ProgramError::InvalidAccountData);
        }
        length = HEADER_LEN + stored_len as usize;
    } else {
        return Err(ProgramError::UninitializedAccount);
    }
    let minimum = match minimum_balance(rent_sysvar.data.as_slice(), length) {
        Ok(m) => m,
        Err(e) => {
            return Err(e);
        },
    };
    let excess = match account.lamports.checked_sub(minimum) {
        Some(x) => x,
        None => {
            return Err(ProgramError::ArithmeticOverflow);
        },
    };
    let total = match destination.lamports.checked_add(excess) {
        Some(t) => t,
        None => {
            return Err(ProgramError::ArithmeticOverflow);
        },
    };
    let nd = resized(&account.data, length);
    account.data = nd;
    account.lamports = minimum;
    destination.lamports = total;
    Ok(())
}

/// A successful trim preserves the authority invariant: the resize never
/// cuts into the header.
pub proof fn lemma_trim_authority_invariant(
    account: AccountView,
    authority: AccountView,
    program: AccountView,
    program_data: AccountView,
    destination: AccountView,
    rent_sysvar: AccountView,
)
    requires
        crate::state::header::spec_metadata_authority_invariant(account.data),
        spec_trim(account, authority, program, program_data, destination, rent_sysvar) is Ok,
    ensures
        crate::state::header::spec_metadata_authority_invariant(
            spec_trim(
                account,
                authority,
                program,
                program_data,
                destination,
                rent_sysvar,
            )->Ok_0.0.data,
        ),
{
    let d = account.data;
    let length = spec_trim_resolve(account, authority, program, program_data)->Ok_0;
    let nd = spec_resized(d, length);
    if d[0] == 1 {
        assert(nd =~= d);
    } else {
        crate::support::lemma_resized_prefix(d, length, 33, 65);
        assert(nd[0] == d[0]);
        assert(nd[66] == d[66]);
        crate::state::header::lemma_authority_invariant_from_fields(d, nd);
    }
}

/// On a metadata record whose account length already equals the header
/// plus the stored payload length, trim changes no data at all: it only
/// withdraws the excess balance, leaving exactly the rent-exempt minimum.
pub proof fn lemma_trim_without_resize(
    account: AccountView,
    authority: AccountView,
    program: AccountView,
    program_data: AccountView,
    destination: AccountView,
    rent_sysvar: AccountView,
)
    requires
        account.data.len() >= crate::state::HEADER_LEN,
        account.data[0] == 2,
        account.data.len() == crate::state::HEADER_LEN + spec_header_data_length(account.data),
        spec_trim(account, authority, program, program_data, destination, rent_sysvar) is Ok,
    ensures
        ({
            let out = spec_trim(
                account,
                authority,
                program,
                program_data,
                destination,
                rent_sysvar,
            )->Ok_0;
            let minimum = spec_minimum_balance(
                rent_sysvar.data,
                account.data.len() as int,
            )->Ok_0;
            &&& out.0.data == account.data
            &&& account.lamports >= minimum
            &&& out.0.lamports == minimum
            &&& out.1.lamports == destination.lamports + (account.lamports - minimum)
        }),
{
    let length = spec_trim_resolve(account, authority, program, program_data)->Ok_0;
    assert(length == account.data.len());
    assert(spec_resized(account.data, length) =~= account.data);
}

/// Trim never leaves the account's balance below the rent-exempt minimum
/// for its resulting length: on success the balance equals that minimum
/// exactly.
pub proof fn lemma_trim_stays_rent_exempt(
    account: AccountView,
    authority: AccountView,
    program: AccountView,
    program_data: AccountView,
    destination: AccountView,
    rent_sysvar: AccountView,
)
    requires
        spec_trim(account, authority, program, program_data, destination, rent_sysvar) is Ok,
    ensures
        ({
            let trimmed = spec_trim(
                account,
                authority,
                program,
                program_data,
                destination,
                rent_sysvar,
            )->Ok_0.0;
            spec_minimum_balance(rent_sysvar.data, trimmed.data.len() as int) == Ok::<
                u64,
                ProgramError,
            >(trimmed.lamports)
        }),
{
}

} // verus!
