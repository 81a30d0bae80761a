//! The fixed 96-byte header of a metadata account.
//!
//! Layout (offsets in bytes):
//! `0` discriminator, `1..33` owning program, `33..65` optional authority
//! (zero sentinel), `65` mutable flag, `66` canonical flag, `67..83` seed,
//! `83` encoding, `84` compression, `85` format, `86` data source,
//! `87..91` payload length (little endian), `91..96` reserved.
//!
//! Reads go through checked accessors that validate the length up front;
//! writes rebuild the whole header (reserved bytes are written as zero) and
//! leave the trailing payload untouched.

use vstd::prelude::*;

use crate::error::ProgramError;
use crate::state::{Compression, DataSource, Encoding, Format, HEADER_LEN};
use crate::support::{
    append_bytes, bool_byte, opt_key_bytes, read_bytes, read_zeroable_key, spec_zeroable_key,
    zero_bytes, zeroed,
};

verus! {

use vstd::bytes::{spec_u32_from_le_bytes, spec_u32_to_le_bytes, u32_from_le_bytes, u32_to_le_bytes};
use vstd::slice::slice_index_get;
use vstd::slice::slice_subrange;

/// The owning program stored in a metadata header.
pub open spec fn spec_header_program(d: Seq<u8>) -> Seq<u8>
    recommends
        d.len() >= HEADER_LEN,
{
    d.subrange(1, 33)
}

/// The optional explicit authority stored in a metadata header.
pub open spec fn spec_header_authority(d: Seq<u8>) -> Option<Seq<u8>>
    recommends
        d.len() >= HEADER_LEN,
{
    spec_zeroable_key(d.subrange(33, 65))
}

/// The mutable flag stored in a metadata header.
pub open spec fn spec_header_mutable(d: Seq<u8>) -> bool
    recommends
        d.len() >= HEADER_LEN,
{
    d[65] != 0
}

/// The canonical flag stored in a metadata header.
pub open spec fn spec_header_canonical(d: Seq<u8>) -> bool
    recommends
        d.len() >= HEADER_LEN,
{
    d[66] != 0
}

/// The derivation seed stored in a metadata header.
pub open spec fn spec_header_seed(d: Seq<u8>) -> Seq<u8>
    recommends
        d.len() >= HEADER_LEN,
{
    d.subrange(67, 83)
}

/// The payload length stored in a metadata header.
pub open spec fn spec_header_data_length(d: Seq<u8>) -> u32
    recommends
        d.len() >= HEADER_LEN,
{
    spec_u32_from_le_bytes(d.subrange(87, 91))
}

/// Parsed form of a metadata header.
///
/// The four enumeration fields are kept as raw wire bytes; the typed
/// accessors validate them on demand, so a record with a malformed
/// enumeration byte can still be inspected and repaired.
#[derive(Debug)]
pub struct Header {
    /// Program this record describes (32 bytes).
    pub program: Vec<u8>,
    /// Explicit update authority; `None` defers to the owning program's
    /// upgrade authority and is only legal on canonical records.
    pub authority: Option<Vec<u8>>,
    /// Whether the record may still change.
    pub mutable: bool,
    /// Whether the record's address derives from the program and seed alone.
    pub canonical: bool,
    /// Seed the record's address was derived with (16 bytes).
    pub seed: Vec<u8>,
    /// Wire byte of the payload encoding.
    pub encoding: u8,
    /// Wire byte of the payload compression.
    pub compression: u8,
    /// Wire byte of the payload format.
    pub format: u8,
    /// Wire byte of the payload data source.
    pub data_source: u8,
    /// Length of the payload after the header.
    pub data_length: u32,
}

/// Mathematical view of a [`Header`].
pub struct HeaderView {
    pub program: Seq<u8>,
    pub authority: Option<Seq<u8>>,
    pub mutable: bool,
    pub canonical: bool,
    pub seed: Seq<u8>,
    pub encoding: u8,
    pub compression: u8,
    pub format: u8,
    pub data_source: u8,
    pub data_length: u32,
}

impl View for Header {
    type V = HeaderView;

    open spec fn view(&self) -> HeaderView {
        HeaderView {
            program: self.program@,
            authority: match self.authority {
                Option::None => Option::None,
                Option::Some(ref k) => Option::Some(k@),
            },
            mutable: self.mutable,
            canonical: self.canonical,
            seed: self.seed@,
            encoding: self.encoding,
            compression: self.compression,
            format: self.format,
            data_source: self.data_source,
            data_length: self.data_length,
        }
    }
}

impl HeaderView {
    /// Field widths of a serializable header.
    pub open spec fn lens_ok(self) -> bool {
        &&& self.program.len() == 32
        &&& self.seed.len() == 16
        &&& match self.authority {
            Option::None => true,
            Option::Some(k) => k.len() == 32,
        }
    }

    /// Shape of a parsed header: correct widths, and no explicit authority
    /// equal to the zero sentinel.
    pub open spec fn wf(self) -> bool {
        &&& self.lens_ok()
        &&& match self.authority {
            Option::None => true,
            Option::Some(k) => k != zero_bytes(32),
        }
    }
}

/// The 96 bytes a metadata header serializes to.
pub open spec fn spec_header_bytes(h: HeaderView) -> Seq<u8> {
    seq![2u8] + h.program + opt_key_bytes(h.authority) + seq![
        bool_byte(h.mutable),
        bool_byte(h.canonical),
    ] + h.seed + seq![h.encoding, h.compression, h.format, h.data_source] + spec_u32_to_le_bytes(
        h.data_length,
    ) + zero_bytes(5)
}

/// The header that account data holds.
pub open spec fn spec_parse_header(d: Seq<u8>) -> HeaderView
    recommends
        d.len() >= HEADER_LEN,
{
    HeaderView {
        program: spec_header_program(d),
        authority: spec_header_authority(d),
        mutable: spec_header_mutable(d),
        canonical: spec_header_canonical(d),
        seed: spec_header_seed(d),
        encoding: d[83],
        compression: d[84],
        format: d[85],
        data_source: d[86],
        data_length: spec_header_data_length(d),
    }
}

/// The authority invariant of stored records: a metadata record that
/// stores no explicit authority is canonical, so some key can always be
/// resolved for it while it is mutable.
pub open spec fn spec_metadata_authority_invariant(d: Seq<u8>) -> bool {
    (d.len() >= HEADER_LEN && d[0] == 2 && spec_header_authority(d) is None)
        ==> spec_header_canonical(d)
}

/// The authority invariant reads only the discriminator, the authority
/// field and the canonical flag: data that agrees on those three carries
/// the invariant over.
pub proof fn lemma_authority_invariant_from_fields(d1: Seq<u8>, d2: Seq<u8>)
    requires
        d1.len() >= HEADER_LEN,
        d2.len() >= HEADER_LEN,
        d1[0] == d2[0],
        d1.subrange(33, 65) == d2.subrange(33, 65),
        d1[66] == d2[66],
        spec_metadata_authority_invariant(d1),
    ensures
        spec_metadata_authority_invariant(d2),
{
}

impl Header {
    /// Reads the header of `bytes`, validating the length up front. The
    /// discriminator byte is not interpreted here: callers decide which
    /// record kind they expect.
    pub fn from_bytes(bytes: &[u8]) -> (r: Result<Header, ProgramError>)
        ensures
            bytes@.len() < HEADER_LEN ==> r == Err::<Header, ProgramError>(
                ProgramError::InvalidAccountData,
            ),
            bytes@.len() >= HEADER_LEN ==> {
                &&& r is Ok
                &&& r->Ok_0@ == spec_parse_header(bytes@)
                &&& r->Ok_0@.wf()
            },
    {
        if bytes.len() < HEADER_LEN {
            return Err(ProgramError::InvalidAccountData);
        }
        let program = read_bytes(bytes, 1, 32);
        let authority = read_zeroable_key(bytes, 33);
        let mutable = *slice_index_get(bytes, 65) != 0;
        let canonical = *slice_index_get(bytes, 66) != 0;
        let seed = read_bytes(bytes, 67, 16);
        let encoding = *slice_index_get(bytes, 83);
        let compression = *slice_index_get(bytes, 84);
        let format = *slice_index_get(bytes, 85);
        let data_source = *slice_index_get(bytes, 86);
        let data_length = u32_from_le_bytes(slice_subrange(bytes, 87, 91));
        Ok(
            Header {
                program,
                authority,
                mutable,
                canonical,
                seed,
                encoding,
                compression,
                format,
                data_source,
                data_length,
            },
        )
    }

    /// The validated payload encoding.
    pub fn encoding(&self) -> (r: Result<Encoding, ProgramError>)
        ensures
            r == Encoding::spec_try_from(self.encoding),
    {
        Encoding::try_from(self.encoding)
    }

    /// The validated payload compression.
    pub fn compression(&self) -> (r: Result<Compression, ProgramError>)
        ensures
            r == Compression::spec_try_from(self.compression),
    {
        Compression::try_from(self.compression)
    }

    /// The validated payload format.
    pub fn format(&self) -> (r: Result<Format, ProgramError>)
        ensures
            r == Format::spec_try_from(self.format),
    {
        Format::try_from(self.format)
    }

    /// The validated payload data source.
    pub fn data_source(&self) -> (r: Result<DataSource, ProgramError>)
        ensures
            r == DataSource::spec_try_from(self.data_source),
    {
        DataSource::try_from(self.data_source)
    }

    /// Serializes this header to its 96-byte wire form.
    pub fn to_bytes(&self) -> (r: Vec<u8>)
        requires
            self@.lens_ok(),
        ensures
            r@ == spec_header_bytes(self@),
            r@.len() == HEADER_LEN,
    {
        let mut r: Vec<u8> = Vec::new();
        r.push(2u8);
        append_bytes(&mut r, self.program.as_slice());
        match &self.authority {
            Option::Some(k) => append_bytes(&mut r, k.as_slice()),
            Option::None => {
                let z = zeroed(32);
                append_bytes(&mut r, z.as_slice());
            },
        }
        r.push(if self.mutable {
            1u8
        } else {
            0u8
        });
        r.push(if self.canonical {
            1u8
        } else {
            0u8
        });
        append_bytes(&mut r, self.seed.as_slice());
        r.push(self.encoding);
        r.push(self.compression);
        r.push(self.format);
        r.push(self.data_source);
        let dl = u32_to_le_bytes(self.data_length);
        append_bytes(&mut r, dl.as_slice());
        let pad = zeroed(5);
        append_bytes(&mut r, pad.as_slice());
        proof {
            assert(r@ =~= spec_header_bytes(self@));
        }
        r
    }
}

/// Serializing a well-formed header and reading it back yields the same
/// header, whatever payload follows it.
pub proof fn lemma_header_round_trip(h: HeaderView, tail: Seq<u8>)
    requires
        h.wf(),
    ensures
        spec_header_bytes(h).len() == HEADER_LEN,
        spec_parse_header(spec_header_bytes(h) + tail) == h,
{
    vstd::bytes::lemma_auto_spec_u32_to_from_le_bytes();
    let b = spec_header_bytes(h) + tail;
    assert(spec_u32_to_le_bytes(h.data_length).len() == 4);
    assert(spec_header_program(b) =~= h.program);
    assert(b.subrange(33, 65) =~= opt_key_bytes(h.authority));
    match h.authority {
        Option::None => {
            assert(b.subrange(33, 65) =~= zero_bytes(32));
        },
        Option::Some(k) => {
            assert(spec_header_authority(b) == Option::Some(k));
        },
    }
    assert(spec_header_seed(b) =~= h.seed);
    assert(b.subrange(87, 91) =~= spec_u32_to_le_bytes(h.data_length));
    assert(spec_parse_header(b) == h);
}

} // verus!
