//! Makes a metadata record immutable.
//!
//! Once immutable, no field below the discriminator can change and the
//! record cannot be closed. Repeating the instruction is an error, not a
//! silent success: the record no longer passes the mutability gate.

use vstd::prelude::*;

use crate::account::{Account, AccountView};
use crate::authority::{spec_validate_authority, spec_validate_metadata, validate_authority,
    validate_metadata};
use crate::error::ProgramError;
use crate::processor::{metadata_canonical_for, spec_metadata_canonical_for};
use crate::state::header::spec_header_authority;
use crate::support::read_zeroable_key;

verus! {

/// What the set-immutable instruction does: after the record and authority
/// gates, the mutable flag is cleared and nothing else changes.
pub open spec fn spec_set_immutable(
    metadata: AccountView,
    authority: AccountView,
    program: AccountView,
    program_data: AccountView,
) -> Result<AccountView, ProgramError> {
    match spec_validate_metadata(metadata) {
        Err(e) => Err(e),
        Ok(_) => match spec_validate_authority(
            spec_header_authority(metadata.data),
            spec_metadata_canonical_for(metadata.data, program.key),
            authority,
            program,
            program_data,
        ) {
            Err(e) => Err(e),
            Ok(_) => Ok(metadata.with_data(metadata.data.update(65, 0u8))),
        },
    }
}

/// Clears the mutable flag of `metadata`.
pub fn set_immutable(
    metadata: &mut Account,
    authority: &Account,
    program: &Account,
    program_data: &Account,
) -> (r: Result<(), ProgramError>)
    requires
        old(metadata).wf(),
        authority.wf(),
        program.wf(),
        program_data.wf(),
    ensures
        final(metadata).wf(),
        match spec_set_immutable(old(metadata)@, authority@, program@, program_data@) {
            Ok(a) => r is Ok && final(metadata)@ == a,
            Err(e) => r == Err::<(), ProgramError>(e) && final(metadata)@ == old(metadata)@,
        },
{
    match validate_metadata(metadata) {
        Ok(_) => {},
        Err(e) => {
            return Err(e);
        },
    }
    let stored = read_zeroable_key(metadata.data.as_slice(), 33);
    let canonical_for = metadata_canonical_for(metadata.data.as_slice(), program.key.as_slice());
    match validate_authority(&stored, canonical_for, authority, program, program_data) {
        Ok(_) => {},
        Err(e) => {
            return Err(e);
        },
    }
    metadata.data.set(65, 0u8);
    Ok(())
}

/// Making a record immutable is deliberately not idempotent: a second
/// set-immutable on the result fails, whatever accounts sign for it.
pub proof fn lemma_set_immutable_twice_fails(
    metadata: AccountView,
    authority: AccountView,
    program: AccountView,
    program_data: AccountView,
    authority2: AccountView,
    program2: AccountView,
    program_data2: AccountView,
)
    requires
        spec_set_immutable(metadata, authority, program, program_data) is Ok,
    ensures
        spec_set_immutable(
            spec_set_immutable(metadata, authority, program, program_data)->Ok_0,
            authority2,
            program2,
            program_data2,
        ) == Err::<AccountView, ProgramError>(ProgramError::InvalidAccountData),
{
}

/// A successful set-immutable preserves the authority invariant: only the
/// mutable flag changes.
pub proof fn lemma_set_immutable_authority_invariant(
    metadata: AccountView,
    authority: AccountView,
    program: AccountView,
    program_data: AccountView,
)
    requires
        crate::state::header::spec_metadata_authority_invariant(metadata.data),
        spec_set_immutable(metadata, authority, program, program_data) is Ok,
    ensures
        crate::state::header::spec_metadata_authority_invariant(
            spec_set_immutable(metadata, authority, program, program_data)->Ok_0.data,
        ),
{
    let d = metadata.data;
    let nd = d.update(65, 0u8);
    assert(nd.subrange(33, 65) =~= d.subrange(33, 65));
    crate::state::header::lemma_authority_invariant_from_fields(d, nd);
}

} // verus!
