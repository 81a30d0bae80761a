//! Instruction handlers.
//!
//! Each handler is a verified transition over plain account values: it
//! validates the accounts it was given, computes new account states, and
//! either succeeds with every write applied or fails leaving every account
//! exactly as it was. The spec-level model of each handler lives beside it
//! and the exec function is proved to implement it.

use vstd::prelude::*;

use crate::account::{Account, AccountView};
use crate::error::ProgramError;

pub mod allocate;
pub mod close;
pub mod extend;
pub mod initialize;
pub mod set_authority;
pub mod set_data;
pub mod set_immutable;
pub mod trim;
pub mod write;

use crate::state::buffer::{spec_buffer_canonical, spec_buffer_program};
use crate::state::header::{spec_header_canonical, spec_header_program};
use crate::state::HEADER_LEN;
use crate::support::{bytes_eq, read_zeroable_key};

verus! {

use vstd::slice::{slice_index_get, slice_subrange};

/// Whether the buffer header in `d` marks a canonical record of the
/// program account with key `program_key`.
pub open spec fn spec_buffer_canonical_for(d: Seq<u8>, program_key: Seq<u8>) -> bool
    recommends
        d.len() >= HEADER_LEN,
{
    spec_buffer_canonical(d) && spec_buffer_program(d) == Some(program_key)
}

/// Whether the metadata header in `d` marks a canonical record of the
/// program account with key `program_key`.
pub open spec fn spec_metadata_canonical_for(d: Seq<u8>, program_key: Seq<u8>) -> bool
    recommends
        d.len() >= HEADER_LEN,
{
    spec_header_canonical(d) && spec_header_program(d) == program_key
}

/// Reads whether the buffer header in `data` is canonical for `program_key`.
pub fn buffer_canonical_for(data: &[u8], program_key: &[u8]) -> (r: bool)
    requires
        data@.len() >= HEADER_LEN,
    ensures
        r == spec_buffer_canonical_for(data@, program_key@),
{
    if *slice_index_get(data, 65) == 0 {
        return false;
    }
    match read_zeroable_key(data, 1) {
        Some(p) => bytes_eq(p.as_slice(), program_key),
        None => false,
    }
}

/// Reads whether the metadata header in `data` is canonical for
/// `program_key`.
pub fn metadata_canonical_for(data: &[u8], program_key: &[u8]) -> (r: bool)
    requires
        data@.len() >= HEADER_LEN,
    ensures
        r == spec_metadata_canonical_for(data@, program_key@),
{
    if *slice_index_get(data, 66) == 0 {
        return false;
    }
    bytes_eq(slice_subrange(data, 1, 33), program_key)
}

/// The authority gate shared by the record-mutating instructions: the
/// account must hold a buffer or a still-mutable metadata record, and the
/// signer must pass that record's authority model.
pub open spec fn spec_record_authorize(
    account: AccountView,
    authority: AccountView,
    program: AccountView,
    program_data: AccountView,
) -> Result<(), ProgramError>
    recommends
        account.data.len() > 0,
{
    if account.data[0] == 1 {
        if account.data.len() < HEADER_LEN {
            Err(ProgramError::InvalidAccountData)
        } else {
            crate::authority::spec_validate_authority(
                crate::state::buffer::spec_buffer_authority(account.data),
                spec_buffer_canonical_for(account.data, program.key),
                authority,
                program,
                program_data,
            )
        }
    } else if account.data[0] == 2 {
        match crate::authority::spec_validate_metadata(account) {
            Err(e) => Err(e),
            Ok(_) => crate::authority::spec_validate_authority(
                crate::state::header::spec_header_authority(account.data),
                spec_metadata_canonical_for(account.data, program.key),
                authority,
                program,
                program_data,
            ),
        }
    } else {
        Err(ProgramError::InvalidAccountData)
    }
}

/// Checks the shared record authority gate on `account`.
pub fn record_authorize(
    account: &Account,
    authority: &Account,
    program: &Account,
    program_data: &Account,
) -> (r: Result<(), ProgramError>)
    requires
        account@.data.len() > 0,
        program.wf(),
        program_data.wf(),
    ensures
        r == spec_record_authorize(account@, authority@, program@, program_data@),
{
    let disc = *slice_index_get(account.data.as_slice(), 0);
    if disc == 1 {
        if account.data.len() < HEADER_LEN {
            return Err(ProgramError::InvalidAccountData);
        }
        let stored = read_zeroable_key(account.data.as_slice(), 33);
        let canonical_for = buffer_canonical_for(account.data.as_slice(), program.key.as_slice());
        crate::authority::validate_authority(&stored, canonical_for, authority, program, program_data)
    } else if disc == 2 {
        match crate::authority::validate_metadata(account) {
            Ok(_) => {},
            Err(e) => {
                return Err(e);
            },
        }
        let stored = read_zeroable_key(account.data.as_slice(), 33);
        let canonical_for = metadata_canonical_for(account.data.as_slice(), program.key.as_slice());
        crate::authority::validate_authority(&stored, canonical_for, authority, program, program_data)
    } else {
        Err(ProgramError::InvalidAccountData)
    }
}

/// The views of a sequence of accounts.
pub open spec fn spec_views(accounts: Seq<Account>) -> Seq<AccountView> {
    accounts.map_values(|a: Account| a@)
}

/// What one instruction does to the account list: the leading byte routes
/// to a handler, each handler's account list is a fixed-arity prefix, and
/// only the accounts a handler writes change.
pub open spec fn spec_process_instruction(a: Seq<AccountView>, ixd: Seq<u8>) -> Result<
    Seq<AccountView>,
    ProgramError,
> {
    if ixd.len() == 0 {
        Err(ProgramError::InvalidInstructionData)
    } else {
        let rest = ixd.skip(1);
        if ixd[0] == 0 {
            if a.len() < 3 {
                Err(ProgramError::NotEnoughAccountKeys)
            } else {
                match write::spec_write(a[0], a[1], a[2], rest) {
                    Ok(t) => Ok(a.update(0, t)),
                    Err(e) => Err(e),
                }
            }
        } else if ixd[0] == 1 {
            if a.len() < 5 {
                Err(ProgramError::NotEnoughAccountKeys)
            } else {
                match initialize::spec_initialize(a[0], a[1], a[2], a[3], rest) {
                    Ok(t) => Ok(a.update(0, t)),
                    Err(e) => Err(e),
                }
            }
        } else if ixd[0] == 2 {
            if a.len() != 4 {
                Err(ProgramError::NotEnoughAccountKeys)
            } else {
                match set_authority::spec_set_authority(a[0], a[1], a[2], a[3], rest) {
                    Ok(t) => Ok(a.update(0, t)),
                    Err(e) => Err(e),
                }
            }
        } else if ixd[0] == 3 {
            if a.len() < 5 {
                Err(ProgramError::NotEnoughAccountKeys)
            } else {
                match set_data::spec_set_data(a[0], a[1], a[2], a[3], a[4], rest) {
                    Ok(t) => Ok(a.update(0, t)),
                    Err(e) => Err(e),
                }
            }
        } else if ixd[0] == 4 {
            if a.len() != 4 {
                Err(ProgramError::NotEnoughAccountKeys)
            } else {
                match set_immutable::spec_set_immutable(a[0], a[1], a[2], a[3]) {
                    Ok(t) => Ok(a.update(0, t)),
                    Err(e) => Err(e),
                }
            }
        } else if ixd[0] == 5 {
            if a.len() != 6 {
                Err(ProgramError::NotEnoughAccountKeys)
            } else {
                match trim::spec_trim(a[0], a[1], a[2], a[3], a[4], a[5]) {
                    Ok(t) => Ok(a.update(0, t.0).update(4, t.1)),
                    Err(e) => Err(e),
                }
            }
        } else if ixd[0] == 6 {
            if a.len() != 5 {
                Err(ProgramError::NotEnoughAccountKeys)
            } else {
                match close::spec_close(a[0], a[1], a[2], a[3], a[4]) {
                    Ok(t) => Ok(a.update(0, t.0).update(4, t.1)),
                    Err(e) => Err(e),
                }
            }
        } else if ixd[0] == 7 {
            if a.len() < 5 {
                Err(ProgramError::NotEnoughAccountKeys)
            } else {
                match allocate::spec_allocate(a[0], a[1], a[2], a[3], rest) {
                    Ok(t) => Ok(a.update(0, t)),
                    Err(e) => Err(e),
                }
            }
        } else if ixd[0] == 8 {
            if a.len() < 4 {
                Err(ProgramError::NotEnoughAccountKeys)
            } else {
                match extend::spec_extend(a[0], a[1], a[2], a[3], rest) {
                    Ok(t) => Ok(a.update(0, t)),
                    Err(e) => Err(e),
                }
            }
        } else {
            Err(ProgramError::InvalidInstructionData)
        }
    }
}

/// After any successful instruction, every account that holds a metadata
/// record satisfies the authority invariant: an absent authority implies
/// a canonical record. The account list must satisfy the invariant going
/// in, and the signing authority (the second account) must not carry the
/// all-zero key that the wire format reserves as the "absent" sentinel.
pub proof fn lemma_process_preserves_authority_invariant(a: Seq<AccountView>, ixd: Seq<u8>)
    requires
        forall|i: int| 0 <= i < a.len() ==> (#[trigger] a[i]).wf(),
        forall|i: int|
            0 <= i < a.len() ==> crate::state::header::spec_metadata_authority_invariant(
                (#[trigger] a[i]).data,
            ),
        a.len() >= 2 ==> a[1].key != crate::support::zero_bytes(32),
        spec_process_instruction(a, ixd) is Ok,
    ensures
        forall|i: int|
            0 <= i < spec_process_instruction(a, ixd)->Ok_0.len()
                ==> crate::state::header::spec_metadata_authority_invariant(
                (#[trigger] spec_process_instruction(a, ixd)->Ok_0[i]).data,
            ),
{
    let out = spec_process_instruction(a, ixd)->Ok_0;
    let rest = ixd.skip(1);
    if ixd[0] == 0 {
        let t = write::spec_write(a[0], a[1], a[2], rest)->Ok_0;
        let d = a[0].data;
        let src = write::spec_write_source(rest.skip(4), a[2])->Ok_0;
        let offset = vstd::bytes::spec_u32_from_le_bytes(rest.subrange(0, 4));
        let pos = crate::state::HEADER_LEN + offset;
        let required = if d.len() >= pos + src.len() {
            d.len() as int
        } else {
            pos + src.len()
        };
        assert(t.data[0] == 1);
        assert forall|i: int| 0 <= i < out.len() implies
            crate::state::header::spec_metadata_authority_invariant((#[trigger] out[i]).data) by {
            if i != 0 {
                assert(out[i] == a[i]);
            }
        }
    } else if ixd[0] == 1 {
        initialize::lemma_initialize_authority_invariant(a[0], a[1], a[2], a[3], rest);
        assert forall|i: int| 0 <= i < out.len() implies
            crate::state::header::spec_metadata_authority_invariant((#[trigger] out[i]).data) by {
            if i != 0 {
                assert(out[i] == a[i]);
            }
        }
    } else if ixd[0] == 2 {
        set_authority::lemma_set_authority_authority_invariant(a[0], a[1], a[2], a[3], rest);
        assert forall|i: int| 0 <= i < out.len() implies
            crate::state::header::spec_metadata_authority_invariant((#[trigger] out[i]).data) by {
            if i != 0 {
                assert(out[i] == a[i]);
            }
        }
    } else if ixd[0] == 3 {
        set_data::lemma_set_data_authority_invariant(a[0], a[1], a[2], a[3], a[4], rest);
        assert forall|i: int| 0 <= i < out.len() implies
            crate::state::header::spec_metadata_authority_invariant((#[trigger] out[i]).data) by {
            if i != 0 {
                assert(out[i] == a[i]);
            }
        }
    } else if ixd[0] == 4 {
        set_immutable::lemma_set_immutable_authority_invariant(a[0], a[1], a[2], a[3]);
        assert forall|i: int| 0 <= i < out.len() implies
            crate::state::header::spec_metadata_authority_invariant((#[trigger] out[i]).data) by {
            if i != 0 {
                assert(out[i] == a[i]);
            }
        }
    } else if ixd[0] == 5 {
        trim::lemma_trim_authority_invariant(a[0], a[1], a[2], a[3], a[4], a[5]);
        let t = trim::spec_trim(a[0], a[1], a[2], a[3], a[4], a[5])->Ok_0;
        assert(t.1.data == a[4].data);
        assert forall|i: int| 0 <= i < out.len() implies
            crate::state::header::spec_metadata_authority_invariant((#[trigger] out[i]).data) by {
            if i != 0 && i != 4 {
                assert(out[i] == a[i]);
            }
        }
    } else if ixd[0] == 6 {
        let t = close::spec_close(a[0], a[1], a[2], a[3], a[4])->Ok_0;
        assert(t.0.data.len() == 0);
        assert(t.1.data == a[4].data);
        assert forall|i: int| 0 <= i < out.len() implies
            crate::state::header::spec_metadata_authority_invariant((#[trigger] out[i]).data) by {
            if i != 0 && i != 4 {
                assert(out[i] == a[i]);
            }
        }
    } else if ixd[0] == 7 {
        let t = allocate::spec_allocate(a[0], a[1], a[2], a[3], rest)->Ok_0;
        assert(t.data[0] == 1);
        assert forall|i: int| 0 <= i < out.len() implies
            crate::state::header::spec_metadata_authority_invariant((#[trigger] out[i]).data) by {
            if i != 0 {
                assert(out[i] == a[i]);
            }
        }
    } else {
        extend::lemma_extend_authority_invariant(a[0], a[1], a[2], a[3], rest);
        assert forall|i: int| 0 <= i < out.len() implies
            crate::state::header::spec_metadata_authority_invariant((#[trigger] out[i]).data) by {
            if i != 0 {
                assert(out[i] == a[i]);
            }
        }
    }
}

/// Routes one instruction to its handler and returns the new account
/// states. On an error nothing is committed: the caller keeps its original
/// accounts and observes no effect, as the host guarantees.
pub fn process_instruction(accounts: Vec<Account>, instruction_data: &[u8]) -> (r: Result<
    Vec<Account>,
    ProgramError,
>)
    requires
        forall|i: int| 0 <= i < accounts@.len() ==> (#[trigger] accounts@[i]).wf(),
    ensures
        match spec_process_instruction(spec_views(accounts@), instruction_data@) {
            Ok(s) => r is Ok && spec_views(r->Ok_0@) == s && forall|i: int|
                0 <= i < r->Ok_0@.len() ==> (#[trigger] r->Ok_0@[i]).wf(),
            Err(e) => r == Err::<Vec<Account>, ProgramError>(e),
        },
{
    if instruction_data.len() == 0 {
        return Err(ProgramError::InvalidInstructionData);
    }
    let opcode = *vstd::slice::slice_index_get(instruction_data, 0);
    let instruction = match crate::instruction::ProgramMetadataInstruction::try_from(opcode) {
        Ok(i) => i,
        Err(e) => {
            return Err(e);
        },
    };
    let rest = slice_subrange(instruction_data, 1, instruction_data.len());
    proof {
        assert(rest@ =~= instruction_data@.skip(1));
    }
    let mut accs = accounts;
    let ghost views = spec_views(accs@);
    if matches!(instruction, crate::instruction::ProgramMetadataInstruction::Write) {
        if accs.len() < 3 {
            return Err(ProgramError::NotEnoughAccountKeys);
        }
        let mut target = accs.remove(0);
        let authority = accs.remove(0);
        let source = accs.remove(0);
        match write::write(&mut target, &authority, &source, rest) {
            Ok(_) => {},
            Err(e) => {
                return Err(e);
            },
        }
        let mut out: Vec<Account> = Vec::new();
        out.push(target);
        out.push(authority);
        out.push(source);
        out.append(&mut accs);
        proof {
            assert(spec_views(out@) =~= spec_process_instruction(
                views,
                instruction_data@,
            )->Ok_0);
        }
        Ok(out)
    } else if matches!(instruction, crate::instruction::ProgramMetadataInstruction::Initialize) {
        if accs.len() < 5 {
            return Err(ProgramError::NotEnoughAccountKeys);
        }
        let mut metadata = accs.remove(0);
        let authority = accs.remove(0);
        let program = accs.remove(0);
        let program_data = accs.remove(0);
        match initialize::initialize(&mut metadata, &authority, &program, &program_data, rest) {
            Ok(_) => {},
            Err(e) => {
                return Err(e);
            },
        }
        let mut out: Vec<Account> = Vec::new();
        out.push(metadata);
        out.push(authority);
        out.push(program);
        out.push(program_data);
        out.append(&mut accs);
        proof {
            assert(spec_views(out@) =~= spec_process_instruction(
                views,
                instruction_data@,
            )->Ok_0);
        }
        Ok(out)
    } else if matches!(instruction, crate::instruction::ProgramMetadataInstruction::SetAuthority) {
        if accs.len() != 4 {
            return Err(ProgramError::NotEnoughAccountKeys);
        }
        let mut account = accs.remove(0);
        let authority = accs.remove(0);
        let program = accs.remove(0);
        let program_data = accs.remove(0);
        match set_authority::set_authority(&mut account, &authority, &program, &program_data, rest) {
            Ok(_) => {},
            Err(e) => {
                return Err(e);
            },
        }
        let mut out: Vec<Account> = Vec::new();
        out.push(account);
        out.push(authority);
        out.push(program);
        out.push(program_data);
        proof {
            assert(spec_views(out@) =~= spec_process_instruction(
                views,
                instruction_data@,
            )->Ok_0);
        }
        Ok(out)
    } else if matches!(instruction, crate::instruction::ProgramMetadataInstruction::SetData) {
        if accs.len() < 5 {
            return Err(ProgramError::NotEnoughAccountKeys);
        }
        let mut metadata = accs.remove(0);
        let authority = accs.remove(0);
        let buffer = accs.remove(0);
        let program = accs.remove(0);
        let program_data = accs.remove(0);
        match set_data::set_data(
            &mut metadata,
            &authority,
            &buffer,
            &program,
            &program_data,
            rest,
        ) {
            Ok(_) => {},
            Err(e) => {
                return Err(e);
            },
        }
        let mut out: Vec<Account> = Vec::new();
        out.push(metadata);
        out.push(authority);
        out.push(buffer);
        out.push(program);
        out.push(program_data);
        out.append(&mut accs);
        proof {
            assert(spec_views(out@) =~= spec_process_instruction(
                views,
                instruction_data@,
            )->Ok_0);
        }
        Ok(out)
    } else if matches!(instruction, crate::instruction::ProgramMetadataInstruction::SetImmutable) {
        if accs.len() != 4 {
            return Err(ProgramError::NotEnoughAccountKeys);
        }
        let mut metadata = accs.remove(0);
        let authority = accs.remove(0);
        let program = accs.remove(0);
        let program_data = accs.remove(0);
        match set_immutable::set_immutable(&mut metadata, &authority, &program, &program_data) {
            Ok(_) => {},
            Err(e) => {
                return Err(e);
            },
        }
        let mut out: Vec<Account> = Vec::new();
        out.push(metadata);
        out.push(authority);
        out.push(program);
        out.push(program_data);
        proof {
            assert(spec_views(out@) =~= spec_process_instruction(
                views,
                instruction_data@,
            )->Ok_0);
        }
        Ok(out)
    } else if matches!(instruction, crate::instruction::ProgramMetadataInstruction::Trim) {
        if accs.len() != 6 {
            return Err(ProgramError::NotEnoughAccountKeys);
        }
        let mut account = accs.remove(0);
        let authority = accs.remove(0);
        let program = accs.remove(0);
        let program_data = accs.remove(0);
        let mut destination = accs.remove(0);
        let rent_sysvar = accs.remove(0);
        match trim::trim(
            &mut account,
            &authority,
            &program,
            &program_data,
            &mut destination,
            &rent_sysvar,
        ) {
            Ok(_) => {},
            Err(e) => {
                return Err(e);
            },
        }
        let mut out: Vec<Account> = Vec::new();
        out.push(account);
        out.push(authority);
        out.push(program);
        out.push(program_data);
        out.push(destination);
        out.push(rent_sysvar);
        proof {
            assert(spec_views(out@) =~= spec_process_instruction(
                views,
                instruction_data@,
            )->Ok_0);
        }
        Ok(out)
    } else if matches!(instruction, crate::instruction::ProgramMetadataInstruction::Close) {
        if accs.len() != 5 {
            return Err(ProgramError::NotEnoughAccountKeys);
        }
        let mut account = accs.remove(0);
        let authority = accs.remove(0);
        let program = accs.remove(0);
        let program_data = accs.remove(0);
        let mut destination = accs.remove(0);
        match close::close(&mut account, &authority, &program, &program_data, &mut destination) {
            Ok(_) => {},
            Err(e) => {
                return Err(e);
            },
        }
        let mut out: Vec<Account> = Vec::new();
        out.push(account);
        out.push(authority);
        out.push(program);
        out.push(program_data);
        out.push(destination);
        proof {
            assert(spec_views(out@) =~= spec_process_instruction(
                views,
                instruction_data@,
            )->Ok_0);
        }
        Ok(out)
    } else if matches!(instruction, crate::instruction::ProgramMetadataInstruction::Allocate) {
        if accs.len() < 5 {
            return Err(ProgramError::NotEnoughAccountKeys);
        }
        let mut buffer = accs.remove(0);
        let authority = accs.remove(0);
        let program = accs.remove(0);
        let program_data = accs.remove(0);
        match allocate::allocate(&mut buffer, &authority, &program, &program_data, rest) {
            Ok(_) => {},
            Err(e) => {
                return Err(e);
            },
        }
        let mut out: Vec<Account> = Vec::new();
        out.push(buffer);
        out.push(authority);
        out.push(program);
        out.push(program_data);
        out.append(&mut accs);
        proof {
            assert(spec_views(out@) =~= spec_process_instruction(
                views,
                instruction_data@,
            )->Ok_0);
        }
        Ok(out)
    } else if matches!(instruction, crate::instruction::ProgramMetadataInstruction::Extend) {
        if accs.len() < 4 {
            return Err(ProgramError::NotEnoughAccountKeys);
        }
        let mut account = accs.remove(0);
        let authority = accs.remove(0);
        let program = accs.remove(0);
        let program_data = accs.remove(0);
        match extend::extend(&mut account, &authority, &program, &program_data, rest) {
            Ok(_) => {},
            Err(e) => {
                return Err(e);
            },
        }
        let mut out: Vec<Account> = Vec::new();
        out.push(account);
        out.push(authority);
        out.push(program);
        out.push(program_data);
        out.append(&mut accs);
        proof {
            assert(spec_views(out@) =~= spec_process_instruction(
                views,
                instruction_data@,
            )->Ok_0);
        }
        Ok(out)
    } else {
        proof {
            assert(false);
        }
        Err(ProgramError::InvalidInstructionData)
    }
}

} // verus!
