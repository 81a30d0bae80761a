//! Replaces a metadata record's format fields and, optionally, its
//! payload.
//!
//! The encoding, compression and format bytes are always rewritten. New
//! payload bytes come either inline with the instruction or from a staged
//! buffer, never both; the record is resized around them. A buffer that
//! supplied the payload stays untouched: reclaiming it is a separate
//! close or trim on the buffer itself.

use vstd::prelude::*;

use crate::account::{Account, AccountView};
use crate::authority::{spec_validate_authority, spec_validate_metadata, validate_authority,
    validate_metadata};
use crate::error::ProgramError;
use crate::processor::{metadata_canonical_for, spec_metadata_canonical_for};
use crate::spec_program_id;
use crate::state::header::spec_header_authority;
use crate::state::{Compression, DataSource, Encoding, Format, HEADER_LEN};
use crate::support::{bytes_eq, read_zeroable_key, resized, spec_resized, spec_splice, write_bytes,
    MAX_ACCOUNT_DATA_LEN};

verus! {

use vstd::bytes::{spec_u32_to_le_bytes, u32_to_le_bytes};
use vstd::slice::{slice_index_get, slice_subrange};

/// The payload a set-data instruction supplies, if any: the data-source
/// byte with inline bytes, or the data-source byte with a staged buffer's
/// payload, or nothing at all.
pub open spec fn spec_set_data_source(
    tail: Seq<u8>,
    buffer: AccountView,
) -> Result<Option<(u8, Seq<u8>)>, ProgramError> {
    let has_buffer = buffer.key != spec_program_id();
    if tail.len() >= 2 && !has_buffer {
        Ok(Some((tail[0], tail.skip(1))))
    } else if tail.len() == 1 && has_buffer {
        if buffer.data.len() == 0 {
            Err(ProgramError::InvalidAccountData)
        } else if buffer.data[0] == 1 {
            if buffer.data.len() < HEADER_LEN {
                Err(ProgramError::InvalidAccountData)
            } else {
                Ok(Some((tail[0], buffer.data.skip(HEADER_LEN as int))))
            }
        } else {
            Err(ProgramError::InvalidAccountData)
        }
    } else if tail.len() == 0 && !has_buffer {
        Ok(None)
    } else {
        Err(ProgramError::InvalidInstructionData)
    }
}

/// What the set-data instruction does: after the record and authority
/// gates, the three format bytes are rewritten; with a supplied payload
/// the data source and length are rewritten too and the account is
/// resized to hold exactly the new payload.
pub open spec fn spec_set_data(
    metadata: AccountView,
    authority: AccountView,
    buffer: AccountView,
    program: AccountView,
    program_data: AccountView,
    ixd: Seq<u8>,
) -> Result<AccountView, ProgramError> {
    if ixd.len() < 3 {
        Err(ProgramError::InvalidInstructionData)
    } else {
        match spec_validate_metadata(metadata) {
            Err(e) => Err(e),
            Ok(_) => match spec_validate_authority(
                spec_header_authority(metadata.data),
                spec_metadata_canonical_for(metadata.data, program.key),
                authority,
                program,
                program_data,
            ) {
                Err(e) => Err(e),
                Ok(_) => match spec_set_data_source(ixd.skip(3), buffer) {
                    Err(e) => Err(e),
                    Ok(sel) => if Encoding::spec_try_from(ixd[0]) is Err {
                        Err(ProgramError::InvalidAccountData)
                    } else if Compression::spec_try_from(ixd[1]) is Err {
                        Err(ProgramError::InvalidAccountData)
                    } else if Format::spec_try_from(ixd[2]) is Err {
                        Err(ProgramError::InvalidAccountData)
                    } else {
                        match sel {
                            Option::None => Ok(
                                metadata.with_data(
                                    spec_splice(metadata.data, 83, ixd.subrange(0, 3)),
                                ),
                            ),
                            Option::Some((ds_byte, payload)) => match DataSource::spec_try_from(
                                ds_byte,
                            ) {
                                Err(e) => Err(e),
                                Ok(ds) => match ds.spec_validate_data_length(
                                    payload.len() as int,
                                ) {
                                    Err(e) => Err(e),
                                    Ok(_) => if HEADER_LEN + payload.len()
                                        > MAX_ACCOUNT_DATA_LEN {
                                        Err(ProgramError::InvalidRealloc)
                                    } else {
                                        let with_header = spec_splice(
                                            metadata.data,
                                            83,
                                            ixd.subrange(0, 3) + seq![ds_byte]
                                                + spec_u32_to_le_bytes(payload.len() as u32),
                                        );
                                        let sized = spec_resized(
                                            with_header,
                                            HEADER_LEN + payload.len(),
                                        );
                                        Ok(
                                            metadata.with_data(
                                                spec_splice(sized, HEADER_LEN as int, payload),
                                            ),
                                        )
                                    },
                                },
                            },
                        }
                    },
                },
            },
        }
    }
}

/// Rewrites the format fields of `metadata` and, when a payload is
/// supplied inline or through `buffer`, replaces its payload.
pub fn set_data(
    metadata: &mut Account,
    authority: &Account,
    buffer: &Account,
    program: &Account,
    program_data: &Account,
    instruction_data: &[u8],
) -> (r: Result<(), ProgramError>)
    requires
        old(metadata).wf(),
        authority.wf(),
        buffer.wf(),
        program.wf(),
        program_data.wf(),
    ensures
        final(metadata).wf(),
        match spec_set_data(
            old(metadata)@,
            authority@,
            buffer@,
            program@,
            program_data@,
            instruction_data@,
        ) {
            Ok(a) => r is Ok && final(metadata)@ == a,
            Err(e) => r == Err::<(), ProgramError>(e) && final(metadata)@ == old(metadata)@,
        },
{
    if instruction_data.len() < 3 {
        return Err(ProgramError::InvalidInstructionData);
    }
    match validate_metadata(metadata) {
        Ok(_) => {},
        Err(e) => {
            return Err(e);
        },
    }
    let stored = read_zeroable_key(metadata.data.as_slice(), 33);
    let canonical_for = metadata_canonical_for(metadata.data.as_slice(), program.key.as_slice());
    match validate_authority(&stored, canonical_for, authority, program, program_data) {
        Ok(_) => {},
        Err(e) => {
            return Err(e);
        },
    }
    let tail = slice_subrange(instruction_data, 3, instruction_data.len());
    proof {
        assert(tail@ =~= instruction_data@.skip(3));
    }
    let own_id = crate::program_id();
    let has_buffer = !bytes_eq(buffer.key.as_slice(), own_id.as_slice());
    let payload: Option<(u8, &[u8])> = if tail.len() >= 2 && !has_buffer {
        Some(
            (
                *slice_index_get(tail, 0),
                slice_subrange(tail, 1, tail.len()),
            ),
        )
    } else if tail.len() == 1 && has_buffer {
        if buffer.data.len() == 0 {
            return Err(ProgramError::InvalidAccountData);
        }
        if *slice_index_get(buffer.data.as_slice(), 0) != 1 {
            return Err(ProgramError::InvalidAccountData);
        }
        if buffer.data.len() < HEADER_LEN {
            return Err(ProgramError::InvalidAccountData);
        }
        Some(
            (
                *slice_index_get(tail, 0),
                slice_subrange(buffer.data.as_slice(), HEADER_LEN, buffer.data.len()),
            ),
        )
    } else if tail.len() == 0 && !has_buffer {
        None
    } else {
        return Err(ProgramError::InvalidInstructionData);
    };
    proof {
        assert(tail@.subrange(1, tail@.len() as int) =~= tail@.skip(1));
        assert(buffer@.data.subrange(HEADER_LEN as int, buffer@.data.len() as int)
            =~= buffer@.data.skip(HEADER_LEN as int));
        match payload {
            Some(p) => {
                assert(spec_set_data_source(instruction_data@.skip(3), buffer@) == Ok::<
                    Option<(u8, Seq<u8>)>,
                    ProgramError,
                >(Some((p.0, p.1@))));
            },
            None => {
                assert(spec_set_data_source(instruction_data@.skip(3), buffer@) == Ok::<
                    Option<(u8, Seq<u8>)>,
                    ProgramError,
                >(None));
            },
        }
    }
    let format_bytes = slice_subrange(instruction_data, 0, 3);
    if Encoding::try_from(*slice_index_get(format_bytes, 0)).is_err() {
        return Err(ProgramError::InvalidAccountData);
    }
    if Compression::try_from(*slice_index_get(format_bytes, 1)).is_err() {
        return Err(ProgramError::InvalidAccountData);
    }
    if Format::try_from(*slice_index_get(format_bytes, 2)).is_err() {
        return Err(ProgramError::InvalidAccountData);
    }
    match payload {
        None => {
            write_bytes(&mut metadata.data, 83, format_bytes);
            Ok(())
        },
        Some((ds_byte, payload_bytes)) => {
            let data_source = match DataSource::try_from(ds_byte) {
                Ok(ds) => ds,
                Err(e) => {
                    return Err(e);
                },
            };
            match data_source.validate_data_length(payload_bytes.len()) {
                Ok(_) => {},
                Err(e) => {
                    return Err(e);
                },
            }
            if payload_bytes.len() > MAX_ACCOUNT_DATA_LEN - HEADER_LEN {
                return Err(ProgramError::InvalidRealloc);
            }
            let mut header_patch = vstd::slice::slice_to_vec(format_bytes);
            header_patch.push(ds_byte);
            let len_bytes = u32_to_le_bytes(payload_bytes.len() as u32);
            crate::support::append_bytes(&mut header_patch, len_bytes.as_slice());
            proof {
                assert(header_patch@ =~= instruction_data@.subrange(0, 3) + seq![ds_byte]
                    + spec_u32_to_le_bytes(payload_bytes@.len() as u32));
            }
            write_bytes(&mut metadata.data, 83, header_patch.as_slice());
            let new_len = HEADER_LEN + payload_bytes.len();
            let mut nd = resized(&metadata.data, new_len);
            write_bytes(&mut nd, HEADER_LEN, payload_bytes);
            metadata.data = nd;
            Ok(())
        },
    }
}

/// A successful set-data preserves the authority invariant: the
/// discriminator, authority field and canonical flag sit below the
/// rewritten header range and the resized payload.
pub proof fn lemma_set_data_authority_invariant(
    metadata: AccountView,
    authority: AccountView,
    buffer: AccountView,
    program: AccountView,
    program_data: AccountView,
    ixd: Seq<u8>,
)
    requires
        crate::state::header::spec_metadata_authority_invariant(metadata.data),
        spec_set_data(metadata, authority, buffer, program, program_data, ixd) is Ok,
    ensures
        crate::state::header::spec_metadata_authority_invariant(
            spec_set_data(metadata, authority, buffer, program, program_data, ixd)->Ok_0.data,
        ),
{
    let d = metadata.data;
    let nd = spec_set_data(metadata, authority, buffer, program, program_data, ixd)->Ok_0.data;
    match spec_set_data_source(ixd.skip(3), buffer)->Ok_0 {
        Option::None => {
            crate::support::lemma_splice_outside(d, 83, ixd.subrange(0, 3), 33, 65);
            crate::state::header::lemma_authority_invariant_from_fields(d, nd);
        },
        Option::Some((ds_byte, payload)) => {
            let patch = ixd.subrange(0, 3) + seq![ds_byte] + spec_u32_to_le_bytes(
                payload.len() as u32,
            );
            vstd::bytes::lemma_auto_spec_u32_to_from_le_bytes();
            assert(patch.len() == 8);
            let with_header = spec_splice(d, 83, patch);
            let sized = spec_resized(with_header, HEADER_LEN + payload.len());
            crate::support::lemma_splice_outside(d, 83, patch, 33, 65);
            crate::support::lemma_resized_prefix(
                with_header,
                HEADER_LEN + payload.len(),
                33,
                65,
            );
            crate::support::lemma_splice_outside(sized, HEADER_LEN as int, payload, 33, 65);
            assert(nd.subrange(33, 65) == d.subrange(33, 65));
            assert(nd[0] == d[0]);
            assert(nd[66] == d[66]);
            crate::state::header::lemma_authority_invariant_from_fields(d, nd);
        },
    }
}

} // verus!
