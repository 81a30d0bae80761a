//! Creates a metadata record.
//!
//! The target account is this program's derived address for the program
//! and seed (canonical when the signer is the program's upgrade authority,
//! third-party otherwise). The payload comes from exactly one of two
//! places: inline instruction bytes for a fresh account, or the existing
//! payload of a staged buffer, which this instruction converts in place
//! into the metadata record — the buffer then no longer exists.

use vstd::prelude::*;

use crate::account::{Account, AccountView};
use crate::authority::{is_program_authority, spec_is_program_authority};
use crate::error::ProgramError;
use crate::pda::{derive_for, spec_derivation};
use crate::spec_program_id;
use crate::state::header::{spec_header_bytes, Header, HeaderView};
use crate::state::{Compression, DataSource, Encoding, Format, HEADER_LEN};
use crate::support::{bytes_eq, spec_splice, write_bytes, zero_bytes, zeroed,
    MAX_ACCOUNT_DATA_LEN};

verus! {

use vstd::bytes::spec_u32_to_le_bytes;
use vstd::slice::{slice_index_get, slice_subrange, slice_to_vec};

/// The instruction data prefix: 16-byte seed and four enumeration bytes.
pub const INITIALIZE_ARGS_LEN: usize = 20;

/// The staging gate of the initialize instruction: a fresh funded account
/// takes the inline payload and is allocated and assigned to this program
/// by the host; a staged buffer, which admits no inline payload, is kept
/// as it is and its payload becomes the record's. Yields the staged
/// account and the payload length.
pub open spec fn spec_initialize_stage(metadata: AccountView, remaining: Seq<u8>) -> Result<
    (AccountView, int),
    ProgramError,
> {
    if metadata.data.len() == 0 {
        if metadata.lamports == 0 {
            Err(ProgramError::AccountNotRentExempt)
        } else if remaining.len() == 0 {
            Err(ProgramError::InvalidInstructionData)
        } else if HEADER_LEN + remaining.len() > MAX_ACCOUNT_DATA_LEN {
            Err(ProgramError::InvalidRealloc)
        } else {
            Ok(
                (
                    metadata.with_data(zero_bytes(HEADER_LEN as int) + remaining).with_owner(
                        spec_program_id(),
                    ),
                    remaining.len() as int,
                ),
            )
        }
    } else if metadata.data[0] == 0 {
        Err(ProgramError::InvalidAccountData)
    } else if metadata.data[0] == 1 {
        if remaining.len() != 0 {
            Err(ProgramError::InvalidAccountData)
        } else if metadata.data.len() < HEADER_LEN {
            Err(ProgramError::InvalidAccountData)
        } else {
            Ok((metadata, metadata.data.len() - HEADER_LEN))
        }
    } else if metadata.data[0] == 2 {
        Err(ProgramError::AccountAlreadyInitialized)
    } else {
        Err(ProgramError::InvalidAccountData)
    }
}

/// The metadata header the initialize instruction writes: a canonical
/// record stores no explicit authority and defers to the program's
/// upgrade authority.
pub open spec fn spec_initialize_header(
    authority_key: Seq<u8>,
    program_key: Seq<u8>,
    seed: Seq<u8>,
    canonical: bool,
    encoding: u8,
    compression: u8,
    format: u8,
    data_source: u8,
    data_length: int,
) -> HeaderView {
    HeaderView {
        program: program_key,
        authority: if canonical {
            Option::None
        } else {
            Option::Some(authority_key)
        },
        mutable: true,
        canonical,
        seed,
        encoding,
        compression,
        format,
        data_source,
        data_length: data_length as u32,
    }
}

/// What the initialize instruction does: after the signer, derivation,
/// staging and enumeration gates, the account holds a freshly written
/// metadata header followed by the payload.
pub open spec fn spec_initialize(
    metadata: AccountView,
    authority: AccountView,
    program: AccountView,
    program_data: AccountView,
    ixd: Seq<u8>,
) -> Result<AccountView, ProgramError> {
    if ixd.len() < INITIALIZE_ARGS_LEN {
        Err(ProgramError::InvalidInstructionData)
    } else if !authority.is_signer {
        Err(ProgramError::MissingRequiredSignature)
    } else {
        let seed = ixd.subrange(0, 16);
        let remaining = ixd.skip(INITIALIZE_ARGS_LEN as int);
        match spec_is_program_authority(program, program_data, authority.key) {
            Err(e) => Err(e),
            Ok(canonical) => match spec_derivation(program.key, authority.key, seed, canonical) {
                Option::None => Err(ProgramError::InvalidSeeds),
                Option::Some(p) => if metadata.key != p.0 {
                    Err(ProgramError::InvalidSeeds)
                } else {
                    match spec_initialize_stage(metadata, remaining) {
                        Err(e) => Err(e),
                        Ok((staged, data_length)) => if Encoding::spec_try_from(ixd[16]) is Err {
                            Err(ProgramError::InvalidAccountData)
                        } else if Compression::spec_try_from(ixd[17]) is Err {
                            Err(ProgramError::InvalidAccountData)
                        } else if Format::spec_try_from(ixd[18]) is Err {
                            Err(ProgramError::InvalidAccountData)
                        } else {
                            match DataSource::spec_try_from(ixd[19]) {
                                Err(e) => Err(e),
                                Ok(ds) => match ds.spec_validate_data_length(data_length) {
                                    Err(e) => Err(e),
                                    Ok(_) => {
                                        let header = spec_initialize_header(
                                            authority.key,
                                            program.key,
                                            seed,
                                            canonical,
                                            ixd[16],
                                            ixd[17],
                                            ixd[18],
                                            ixd[19],
                                            data_length,
                                        );
                                        Ok(
                                            staged.with_data(
                                                spec_splice(
                                                    staged.data,
                                                    0,
                                                    spec_header_bytes(header),
                                                ),
                                            ),
                                        )
                                    },
                                },
                            }
                        },
                    }
                },
            },
        }
    }
}

/// Initializes `metadata` as a record for `program`, from inline bytes or
/// from the staged buffer the account already holds.
pub fn initialize(
    metadata: &mut Account,
    authority: &Account,
    program: &Account,
    program_data: &Account,
    instruction_data: &[u8],
) -> (r: Result<(), ProgramError>)
    requires
        old(metadata).wf(),
        authority.wf(),
        program.wf(),
        program_data.wf(),
    ensures
        final(metadata).wf(),
        match spec_initialize(
            old(metadata)@,
            authority@,
            program@,
            program_data@,
            instruction_data@,
        ) {
            Ok(a) => r is Ok && final(metadata)@ == a,
            Err(e) => r == Err::<(), ProgramError>(e) && final(metadata)@ == old(metadata)@,
        },
{
    if instruction_data.len() < INITIALIZE_ARGS_LEN {
        return Err(ProgramError::InvalidInstructionData);
    }
    if !authority.is_signer {
        return Err(ProgramError::MissingRequiredSignature);
    }
    let seed = slice_subrange(instruction_data, 0, 16);
    let encoding_byte = *slice_index_get(instruction_data, 16);
    let compression_byte = *slice_index_get(instruction_data, 17);
    let format_byte = *slice_index_get(instruction_data, 18);
    let data_source_byte = *slice_index_get(instruction_data, 19);
    let remaining = slice_subrange(
        instruction_data,
        INITIALIZE_ARGS_LEN,
        instruction_data.len(),
    );
    proof {
        assert(remaining@ =~= instruction_data@.skip(INITIALIZE_ARGS_LEN as int));
    }
    let canonical = match is_program_authority(program, program_data, authority.key.as_slice()) {
        Ok(c) => c,
        Err(e) => {
            return Err(e);
        },
    };
    match derive_for(program.key.as_slice(), authority.key.as_slice(), seed, canonical) {
        Some(p) => {
            if !bytes_eq(p.0.as_slice(), metadata.key.as_slice()) {
                return Err(ProgramError::InvalidSeeds);
            }
        },
        None => {
            return Err(ProgramError::InvalidSeeds);
        },
    }
    let data_length: usize;
    let mut fresh_data: Option<Vec<u8>> = None;
    if metadata.data.len() == 0 {
        if metadata.lamports == 0 {
            return Err(ProgramError::AccountNotRentExempt);
        }
        if remaining.len() == 0 {
            return Err(ProgramError::InvalidInstructionData);
        }
        if remaining.len() > MAX_ACCOUNT_DATA_LEN - HEADER_LEN {
            return Err(ProgramError::InvalidRealloc);
        }
        let mut nd = zeroed(HEADER_LEN);
        crate::support::append_bytes(&mut nd, remaining);
        fresh_data = Some(nd);
        data_length = remaining.len();
    } else {
        let disc = *slice_index_get(metadata.data.as_slice(), 0);
        if disc == 0 {
            return Err(ProgramError::InvalidAccountData);
        } else if disc == 1 {
            if remaining.len() != 0 {
                return Err(ProgramError::InvalidAccountData);
            }
            if metadata.data.len() < HEADER_LEN {
                return Err(ProgramError::InvalidAccountData);
            }
            data_length = metadata.data.len() - HEADER_LEN;
        } else if disc == 2 {
            return Err(ProgramError::AccountAlreadyInitialized);
        } else {
            return Err(ProgramError::InvalidAccountData);
        }
    }
    if Encoding::try_from(encoding_byte).is_err() {
        return Err(ProgramError::InvalidAccountData);
    }
    if Compression::try_from(compression_byte).is_err() {
        return Err(ProgramError::InvalidAccountData);
    }
    if Format::try_from(format_byte).is_err() {
        return Err(ProgramError::InvalidAccountData);
    }
    let data_source = match DataSource::try_from(data_source_byte) {
        Ok(ds) => ds,
        Err(e) => {
            return Err(e);
        },
    };
    match data_source.validate_data_length(data_length) {
        Ok(_) => {},
        Err(e) => {
            return Err(e);
        },
    }
    match fresh_data {
        Some(nd) => {
            metadata.data = nd;
            metadata.owner = crate::program_id();
        },
        None => {},
    }
    let header = Header {
        program: slice_to_vec(program.key.as_slice()),
        authority: if canonical {
            None
        } else {
            Some(slice_to_vec(authority.key.as_slice()))
        },
        mutable: true,
        canonical,
        seed: slice_to_vec(seed),
        encoding: encoding_byte,
        compression: compression_byte,
        format: format_byte,
        data_source: data_source_byte,
        data_length: data_length as u32,
    };
    let header_bytes = header.to_bytes();
    write_bytes(&mut metadata.data, 0, header_bytes.as_slice());
    Ok(())
}

/// A record the initialize instruction creates satisfies the authority
/// invariant: the authority field is left absent only for canonical
/// records. The signer's key must be a real key, not the all-zero
/// sentinel, for the stored third-party authority to read back as
/// present.
pub proof fn lemma_initialize_authority_invariant(
    metadata: AccountView,
    authority: AccountView,
    program: AccountView,
    program_data: AccountView,
    ixd: Seq<u8>,
)
    requires
        authority.key.len() == 32,
        authority.key != zero_bytes(32),
        program.key.len() == 32,
        spec_initialize(metadata, authority, program, program_data, ixd) is Ok,
    ensures
        crate::state::header::spec_metadata_authority_invariant(
            spec_initialize(metadata, authority, program, program_data, ixd)->Ok_0.data,
        ),
{
    let seed = ixd.subrange(0, 16);
    let remaining = ixd.skip(INITIALIZE_ARGS_LEN as int);
    let canonical = spec_is_program_authority(program, program_data, authority.key)->Ok_0;
    let staged = spec_initialize_stage(metadata, remaining)->Ok_0.0;
    let data_length = spec_initialize_stage(metadata, remaining)->Ok_0.1;
    let header = spec_initialize_header(
        authority.key,
        program.key,
        seed,
        canonical,
        ixd[16],
        ixd[17],
        ixd[18],
        ixd[19],
        data_length,
    );
    let hb = spec_header_bytes(header);
    let nd = spec_splice(staged.data, 0, hb);
    assert(header.wf());
    crate::state::header::lemma_header_round_trip(header, staged.data.skip(hb.len() as int));
    assert(nd =~= hb + staged.data.skip(hb.len() as int));
    assert(crate::state::header::spec_parse_header(nd) == header);
    assert(nd[0] == 2);
}

/// A record created by a signer holding the owning program's upgrade
/// authority is canonical: the canonical flag is set, no explicit
/// authority is stored, and the record's own address verifies back as
/// canonical for its program and seed, whatever delegate the verifier is
/// handed.
pub proof fn lemma_initialize_canonical_record(
    metadata: AccountView,
    authority: AccountView,
    program: AccountView,
    program_data: AccountView,
    ixd: Seq<u8>,
    delegate: Seq<u8>,
)
    requires
        authority.key.len() == 32,
        program.key.len() == 32,
        spec_is_program_authority(program, program_data, authority.key) == Ok::<
            bool,
            ProgramError,
        >(true),
        spec_initialize(metadata, authority, program, program_data, ixd) is Ok,
    ensures
        ({
            let record = spec_initialize(metadata, authority, program, program_data, ixd)->Ok_0;
            let seed = ixd.subrange(0, 16);
            &&& record.data[0] == 2
            &&& crate::state::header::spec_header_canonical(record.data)
            &&& crate::state::header::spec_header_authority(record.data) is None
            &&& crate::pda::spec_verify_address(metadata.key, program.key, delegate, seed)
                == Ok::<bool, ProgramError>(true)
        }),
{
    let seed = ixd.subrange(0, 16);
    let remaining = ixd.skip(INITIALIZE_ARGS_LEN as int);
    let staged = spec_initialize_stage(metadata, remaining)->Ok_0.0;
    let data_length = spec_initialize_stage(metadata, remaining)->Ok_0.1;
    let header = spec_initialize_header(
        authority.key,
        program.key,
        seed,
        true,
        ixd[16],
        ixd[17],
        ixd[18],
        ixd[19],
        data_length,
    );
    let hb = spec_header_bytes(header);
    let nd = spec_splice(staged.data, 0, hb);
    assert(header.wf());
    crate::state::header::lemma_header_round_trip(header, staged.data.skip(hb.len() as int));
    assert(nd =~= hb + staged.data.skip(hb.len() as int));
    assert(crate::state::header::spec_parse_header(nd) == header);
    assert(nd[0] == 2);
}

/// A record created by a signer that is not the owning program's upgrade
/// authority is third-party: the canonical flag is clear and the signer's
/// key is stored as the explicit authority. The signer's key must be a
/// real key, not the all-zero sentinel, for the stored authority to read
/// back as present.
pub proof fn lemma_initialize_third_party_record(
    metadata: AccountView,
    authority: AccountView,
    program: AccountView,
    program_data: AccountView,
    ixd: Seq<u8>,
)
    requires
        authority.key.len() == 32,
        authority.key != zero_bytes(32),
        program.key.len() == 32,
        spec_is_program_authority(program, program_data, authority.key) == Ok::<
            bool,
            ProgramError,
        >(false),
        spec_initialize(metadata, authority, program, program_data, ixd) is Ok,
    ensures
        ({
            let record = spec_initialize(metadata, authority, program, program_data, ixd)->Ok_0;
            &&& record.data[0] == 2
            &&& !crate::state::header::spec_header_canonical(record.data)
            &&& crate::state::header::spec_header_authority(record.data) == Some(authority.key)
        }),
{
    let seed = ixd.subrange(0, 16);
    let remaining = ixd.skip(INITIALIZE_ARGS_LEN as int);
    let staged = spec_initialize_stage(metadata, remaining)->Ok_0.0;
    let data_length = spec_initialize_stage(metadata, remaining)->Ok_0.1;
    let header = spec_initialize_header(
        authority.key,
        program.key,
        seed,
        false,
        ixd[16],
        ixd[17],
        ixd[18],
        ixd[19],
        data_length,
    );
    let hb = spec_header_bytes(header);
    let nd = spec_splice(staged.data, 0, hb);
    assert(header.wf());
    crate::state::header::lemma_header_round_trip(header, staged.data.skip(hb.len() as int));
    assert(nd =~= hb + staged.data.skip(hb.len() as int));
    assert(crate::state::header::spec_parse_header(nd) == header);
    assert(nd[0] == 2);
}

/// The staged path round-trips: allocating a fresh derived buffer,
/// writing a payload at offset zero, and initializing the account from
/// that buffer yields a metadata record whose payload is exactly the
/// written bytes — and the buffer no longer decodes as one, since the
/// account now carries the metadata discriminator.
pub proof fn lemma_stage_write_initialize_round_trip(
    buffer: AccountView,
    authority: AccountView,
    program: AccountView,
    program_data: AccountView,
    source: AccountView,
    seed: Seq<u8>,
    payload: Seq<u8>,
    init_args: Seq<u8>,
)
    requires
        authority.key.len() == 32,
        program.key.len() == 32,
        buffer.data.len() == 0,
        payload.len() > 0,
        source.key == spec_program_id(),
        init_args.len() == INITIALIZE_ARGS_LEN,
        crate::processor::allocate::spec_allocate(
            buffer,
            authority,
            program,
            program_data,
            seed,
        ) is Ok,
        ({
            let staged = crate::processor::allocate::spec_allocate(
                buffer,
                authority,
                program,
                program_data,
                seed,
            )->Ok_0;
            crate::processor::write::spec_write(
                staged,
                authority,
                source,
                spec_u32_to_le_bytes(0u32) + payload,
            ) is Ok
        }),
        ({
            let staged = crate::processor::allocate::spec_allocate(
                buffer,
                authority,
                program,
                program_data,
                seed,
            )->Ok_0;
            let written = crate::processor::write::spec_write(
                staged,
                authority,
                source,
                spec_u32_to_le_bytes(0u32) + payload,
            )->Ok_0;
            spec_initialize(written, authority, program, program_data, init_args) is Ok
        }),
    ensures
        ({
            let staged = crate::processor::allocate::spec_allocate(
                buffer,
                authority,
                program,
                program_data,
                seed,
            )->Ok_0;
            let written = crate::processor::write::spec_write(
                staged,
                authority,
                source,
                spec_u32_to_le_bytes(0u32) + payload,
            )->Ok_0;
            let record = spec_initialize(written, authority, program, program_data, init_args)
                ->Ok_0;
            &&& record.data.len() == crate::state::HEADER_LEN + payload.len()
            &&& record.data.skip(crate::state::HEADER_LEN as int) == payload
            &&& record.data[0] == 2
        }),
{
    let staged = crate::processor::allocate::spec_allocate(
        buffer,
        authority,
        program,
        program_data,
        seed,
    )->Ok_0;
    let write_ixd = spec_u32_to_le_bytes(0u32) + payload;
    let written = crate::processor::write::spec_write(staged, authority, source, write_ixd)->Ok_0;
    let record = spec_initialize(written, authority, program, program_data, init_args)->Ok_0;
    let hlen = crate::state::HEADER_LEN as int;

    // The fresh allocation is exactly one header of zeros plus the new
    // buffer header written over it.
    let base = crate::processor::allocate::spec_allocate_space(buffer)->Ok_0;
    assert(base.data.len() == hlen);
    assert(staged.data.len() == hlen);
    assert(staged.data[0] == 1);

    // The write lands at payload offset zero and grows the account to
    // exactly one header plus the payload.
    vstd::bytes::lemma_auto_spec_u32_to_from_le_bytes();
    assert(write_ixd.subrange(0, 4) =~= spec_u32_to_le_bytes(0u32));
    assert(write_ixd.skip(4) =~= payload);
    let sized = crate::support::spec_resized(staged.data, hlen + payload.len());
    assert(written.data =~= crate::support::spec_splice(sized, hlen, payload));
    assert(written.data.len() == hlen + payload.len());
    crate::support::lemma_splice_inside(sized, hlen, payload);
    assert(written.data.skip(hlen) =~= written.data.subrange(hlen, hlen + payload.len()));
    assert(written.data.skip(hlen) == payload);
    assert(written.data[0] == 1);

    // Initialize converts the buffer in place: the header is rewritten,
    // the payload beyond it stays.
    let remaining = init_args.skip(INITIALIZE_ARGS_LEN as int);
    assert(remaining.len() == 0);
    let stage2 = spec_initialize_stage(written, remaining)->Ok_0.0;
    assert(stage2 == written);
    let header = spec_initialize_header(
        authority.key,
        program.key,
        init_args.subrange(0, 16),
        crate::authority::spec_is_program_authority(program, program_data, authority.key)->Ok_0,
        init_args[16],
        init_args[17],
        init_args[18],
        init_args[19],
        spec_initialize_stage(written, remaining)->Ok_0.1,
    );
    let hb = spec_header_bytes(header);
    vstd::bytes::lemma_auto_spec_u32_to_from_le_bytes();
    assert(hb.len() == hlen);
    assert(record.data =~= crate::support::spec_splice(written.data, 0, hb));
    crate::support::lemma_splice_outside(
        written.data,
        0,
        hb,
        hlen,
        written.data.len() as int,
    );
    assert(record.data.skip(hlen) =~= record.data.subrange(hlen, record.data.len() as int));
    assert(written.data.skip(hlen) =~= written.data.subrange(hlen, written.data.len() as int));
    assert(record.data.skip(hlen) == payload);
    assert(record.data[0] == 2);
}

} // verus!
