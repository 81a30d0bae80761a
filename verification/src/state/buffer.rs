//! The fixed 96-byte header of a buffer (staging) account.
//!
//! Layout (offsets in bytes):
//! `0` discriminator, `1..33` optional owning program (zero sentinel),
//! `33..65` optional authority (zero sentinel), `65` canonical flag,
//! `66..82` seed, `82..96` reserved. The reserved range pads the buffer
//! header to the metadata header's size so a buffer can become a metadata
//! record without moving its payload.

use vstd::prelude::*;

use crate::error::ProgramError;
use crate::state::HEADER_LEN;
use crate::support::{
    append_bytes, bool_byte, opt_key_bytes, read_bytes, read_zeroable_key, spec_zeroable_key,
    zero_bytes, zeroed,
};

verus! {

use vstd::slice::slice_index_get;

/// The optional owning program stored in a buffer header (set only for
/// derived-address buffers).
pub open spec fn spec_buffer_program(d: Seq<u8>) -> Option<Seq<u8>>
    recommends
        d.len() >= HEADER_LEN,
{
    spec_zeroable_key(d.subrange(1, 33))
}

/// The optional authority stored in a buffer header.
pub open spec fn spec_buffer_authority(d: Seq<u8>) -> Option<Seq<u8>>
    recommends
        d.len() >= HEADER_LEN,
{
    spec_zeroable_key(d.subrange(33, 65))
}

/// The canonical flag stored in a buffer header.
pub open spec fn spec_buffer_canonical(d: Seq<u8>) -> bool
    recommends
        d.len() >= HEADER_LEN,
{
    d[65] != 0
}

/// The derivation seed stored in a buffer header.
pub open spec fn spec_buffer_seed(d: Seq<u8>) -> Seq<u8>
    recommends
        d.len() >= HEADER_LEN,
{
    d.subrange(66, 82)
}

/// Parsed form of a buffer header.
#[derive(Debug)]
pub struct Buffer {
    /// Program the staged record will describe; `None` for a plain funded
    /// (keypair) buffer.
    pub program: Option<Vec<u8>>,
    /// Authority that may write to this buffer.
    pub authority: Option<Vec<u8>>,
    /// Whether the derived address is canonical for the program.
    pub canonical: bool,
    /// Seed the buffer's address was derived with (16 bytes).
    pub seed: Vec<u8>,
}

/// Mathematical view of a [`Buffer`].
pub struct BufferView {
    pub program: Option<Seq<u8>>,
    pub authority: Option<Seq<u8>>,
    pub canonical: bool,
    pub seed: Seq<u8>,
}

impl View for Buffer {
    type V = BufferView;

    open spec fn view(&self) -> BufferView {
        BufferView {
            program: match self.program {
                Option::None => Option::None,
                Option::Some(ref k) => Option::Some(k@),
            },
            authority: match self.authority {
                Option::None => Option::None,
                Option::Some(ref k) => Option::Some(k@),
            },
            canonical: self.canonical,
            seed: self.seed@,
        }
    }
}

impl BufferView {
    /// Field widths of a serializable buffer header.
    pub open spec fn lens_ok(self) -> bool {
        &&& self.seed.len() == 16
        &&& match self.program {
            Option::None => true,
            Option::Some(k) => k.len() == 32,
        }
        &&& match self.authority {
            Option::None => true,
            Option::Some(k) => k.len() == 32,
        }
    }

    /// Shape of a parsed buffer header: correct widths, and no present key
    /// equal to the zero sentinel.
    pub open spec fn wf(self) -> bool {
        &&& self.lens_ok()
        &&& match self.program {
            Option::None => true,
            Option::Some(k) => k != zero_bytes(32),
        }
        &&& match self.authority {
            Option::None => true,
            Option::Some(k) => k != zero_bytes(32),
        }
    }
}

/// The 96 bytes a buffer header serializes to.
pub open spec fn spec_buffer_bytes(b: BufferView) -> Seq<u8> {
    seq![1u8] + opt_key_bytes(b.program) + opt_key_bytes(b.authority) + seq![
        bool_byte(b.canonical),
    ] + b.seed + zero_bytes(14)
}

/// The buffer header that account data holds.
pub open spec fn spec_parse_buffer(d: Seq<u8>) -> BufferView
    recommends
        d.len() >= HEADER_LEN,
{
    BufferView {
        program: spec_buffer_program(d),
        authority: spec_buffer_authority(d),
        canonical: spec_buffer_canonical(d),
        seed: spec_buffer_seed(d),
    }
}

impl Buffer {
    /// Reads the buffer header of `bytes`, validating the length up front.
    /// The discriminator byte is not interpreted here: callers decide which
    /// record kind they expect.
    pub fn from_bytes(bytes: &[u8]) -> (r: Result<Buffer, ProgramError>)
        ensures
            bytes@.len() < HEADER_LEN ==> r == Err::<Buffer, ProgramError>(
                ProgramError::InvalidAccountData,
            ),
            bytes@.len() >= HEADER_LEN ==> {
                &&& r is Ok
                &&& r->Ok_0@ == spec_parse_buffer(bytes@)
                &&& r->Ok_0@.wf()
            },
    {
        if bytes.len() < HEADER_LEN {
            return Err(ProgramError::InvalidAccountData);
        }
        let program = read_zeroable_key(bytes, 1);
        let authority = read_zeroable_key(bytes, 33);
        let canonical = *slice_index_get(bytes, 65) != 0;
        let seed = read_bytes(bytes, 66, 16);
        Ok(Buffer { program, authority, canonical, seed })
    }

    /// Serializes this buffer header to its 96-byte wire form.
    pub fn to_bytes(&self) -> (r: Vec<u8>)
        requires
            self@.lens_ok(),
        ensures
            r@ == spec_buffer_bytes(self@),
            r@.len() == HEADER_LEN,
    {
        let mut r: Vec<u8> = Vec::new();
        r.push(1u8);
        match &self.program {
            Option::Some(k) => append_bytes(&mut r, k.as_slice()),
            Option::None => {
                let z = zeroed(32);
                append_bytes(&mut r, z.as_slice());
            },
        }
        match &self.authority {
            Option::Some(k) => append_bytes(&mut r, k.as_slice()),
            Option::None => {
                let z = zeroed(32);
                append_bytes(&mut r, z.as_slice());
            },
        }
        r.push(if self.canonical {
            1u8
        } else {
            0u8
        });
        append_bytes(&mut r, self.seed.as_slice());
        let pad = zeroed(14);
        append_bytes(&mut r, pad.as_slice());
        proof {
            assert(r@ =~= spec_buffer_bytes(self@));
        }
        r
    }
}

/// Serializing a well-formed buffer header and reading it back yields the
/// same header, whatever payload follows it.
pub proof fn lemma_buffer_round_trip(b: BufferView, tail: Seq<u8>)
    requires
        b.wf(),
    ensures
        spec_buffer_bytes(b).len() == HEADER_LEN,
        spec_parse_buffer(spec_buffer_bytes(b) + tail) == b,
{
    let d = spec_buffer_bytes(b) + tail;
    assert(d.subrange(1, 33) =~= opt_key_bytes(b.program));
    assert(d.subrange(33, 65) =~= opt_key_bytes(b.authority));
    match b.program {
        Option::None => {
            assert(d.subrange(1, 33) =~= zero_bytes(32));
        },
        Option::Some(k) => {},
    }
    match b.authority {
        Option::None => {
            assert(d.subrange(33, 65) =~= zero_bytes(32));
        },
        Option::Some(k) => {},
    }
    assert(spec_buffer_seed(d) =~= b.seed);
    assert(spec_parse_buffer(d) == b);
}

} // verus!
