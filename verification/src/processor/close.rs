//! Closes a buffer or metadata account.
//!
//! The whole balance moves to the destination and the account's data is
//! erased, so the record no longer decodes. An immutable metadata record
//! cannot be closed. A self-funded buffer stores its own address as its
//! authority, so possession of the account's key authorizes the close
//! through the ordinary authority model.

use vstd::prelude::*;

use crate::account::{Account, AccountView};
use crate::error::ProgramError;
use crate::processor::{record_authorize, spec_record_authorize};

verus! {

/// What the close instruction does: after the signer flag and the shared
/// record authority gate, the whole balance moves to the destination and
/// the account's data is erased.
pub open spec fn spec_close(
    account: AccountView,
    authority: AccountView,
    program: AccountView,
    program_data: AccountView,
    destination: AccountView,
) -> Result<(AccountView, AccountView), ProgramError> {
    if !authority.is_signer {
        Err(ProgramError::MissingRequiredSignature)
    } else if account.data.len() == 0 {
        Err(ProgramError::UninitializedAccount)
    } else {
        match spec_record_authorize(account, authority, program, program_data) {
            Err(e) => Err(e),
            Ok(_) => {
                if destination.lamports + account.lamports > u64::MAX {
                    Err(ProgramError::ArithmeticOverflow)
                } else {
                    Ok(
                        (
                            account.with_lamports(0).with_data(Seq::empty()),
                            destination.with_lamports(
                                (destination.lamports + account.lamports) as u64,
                            ),
                        ),
                    )
                }
            },
        }
    }
}

/// Moves the balance of `account` to `destination` and erases its data.
pub fn close(
    account: &mut Account,
    authority: &Account,
    program: &Account,
    program_data: &Account,
    destination: &mut Account,
) -> (r: Result<(), ProgramError>)
    requires
        old(account).wf(),
        authority.wf(),
        program.wf(),
        program_data.wf(),
        old(destination).wf(),
    ensures
        final(account).wf(),
        final(destination).wf(),
        match spec_close(
            old(account)@,
            authority@,
            program@,
            program_data@,
            old(destination)@,
        ) {
            Ok(out) => r is Ok && final(account)@ == out.0 && final(destination)@ == out.1,
            Err(e) => r == Err::<(), ProgramError>(e) && final(account)@ == old(account)@
                && final(destination)@ == old(destination)@,
        },
{
    if !authority.is_signer {
        return Err(ProgramError::MissingRequiredSignature);
    }
    if account.data.len() == 0 {
        return Err(ProgramError::UninitializedAccount);
    }
    match record_authorize(account, authority, program, program_data) {
        Ok(_) => {},
        Err(e) => {
            return Err(e);
        },
    }
    let total = match destination.lamports.checked_add(account.lamports) {
        Some(t) => t,
        None => {
            return Err(ProgramError::ArithmeticOverflow);
        },
    };
    destination.lamports = total;
    account.lamports = 0;
    account.data = Vec::new();
    proof {
        assert(account@.data =~= Seq::<u8>::empty());
    }
    Ok(())
}

} // verus!
