//! Client-side instruction payload builders.
//!
//! These mirror the wire layout the dispatcher decodes: a one-byte opcode
//! followed by the instruction's arguments, with trailing optional parts
//! encoded by presence — an absent part contributes no bytes at all.

use vstd::prelude::*;

use crate::state::{Compression, DataSource, Encoding, Format};
use crate::support::append_bytes;

verus! {

use vstd::bytes::{spec_u16_to_le_bytes, spec_u32_to_le_bytes, u16_to_le_bytes, u32_to_le_bytes};

/// A trailing optional 16-byte seed, encoded by presence.
pub enum RemainderOptionSeed {
    Present(Vec<u8>),
    Absent,
}

impl RemainderOptionSeed {
    /// The bytes this optional seed contributes to a payload.
    pub open spec fn spec_bytes(&self) -> Seq<u8> {
        match self {
            RemainderOptionSeed::Present(s) => s@,
            RemainderOptionSeed::Absent => Seq::empty(),
        }
    }

    /// Appends this optional seed to `out`.
    pub fn append_to(&self, out: &mut Vec<u8>)
        ensures
            final(out)@ == old(out)@ + self.spec_bytes(),
    {
        match self {
            RemainderOptionSeed::Present(s) => append_bytes(out, s.as_slice()),
            RemainderOptionSeed::Absent => {
                proof {
                    assert(out@ =~= old(out)@ + self.spec_bytes());
                }
            },
        }
    }
}

/// A trailing optional byte string, encoded by presence.
pub enum RemainderOptionBytes {
    Present(Vec<u8>),
    Absent,
}

impl RemainderOptionBytes {
    /// The bytes this optional part contributes to a payload.
    pub open spec fn spec_bytes(&self) -> Seq<u8> {
        match self {
            RemainderOptionBytes::Present(b) => b@,
            RemainderOptionBytes::Absent => Seq::empty(),
        }
    }

    /// Appends this optional part to `out`.
    pub fn append_to(&self, out: &mut Vec<u8>)
        ensures
            final(out)@ == old(out)@ + self.spec_bytes(),
    {
        match self {
            RemainderOptionBytes::Present(b) => append_bytes(out, b.as_slice()),
            RemainderOptionBytes::Absent => {
                proof {
                    assert(out@ =~= old(out)@ + self.spec_bytes());
                }
            },
        }
    }
}

/// Leading byte of a write instruction payload.
pub struct WriteInstructionData {
    pub discriminator: u8,
}

impl WriteInstructionData {
    pub fn new() -> (r: Self)
        ensures
            r.discriminator == 0,
    {
        Self { discriminator: 0 }
    }
}

impl Default for WriteInstructionData {
    fn default() -> (r: Self)
        ensures
            r.discriminator == 0,
    {
        Self::new()
    }
}

/// Arguments of a write instruction: the payload offset and the bytes.
pub struct WriteInstructionArgs {
    pub offset: u32,
    pub data: Vec<u8>,
}

impl WriteInstructionArgs {
    /// The argument bytes: little-endian offset, then the data.
    pub open spec fn spec_bytes(&self) -> Seq<u8> {
        spec_u32_to_le_bytes(self.offset) + self.data@
    }

    /// Encodes the full write instruction payload, opcode included.
    pub fn instruction_bytes(&self) -> (r: Vec<u8>)
        ensures
            r@ == seq![0u8] + self.spec_bytes(),
    {
        let mut out: Vec<u8> = Vec::new();
        out.push(WriteInstructionData::new().discriminator);
        let off = u32_to_le_bytes(self.offset);
        append_bytes(&mut out, off.as_slice());
        append_bytes(&mut out, self.data.as_slice());
        proof {
            assert(out@ =~= seq![0u8] + self.spec_bytes());
        }
        out
    }
}

/// Leading byte of a set-authority instruction payload.
pub struct SetAuthorityInstructionData {
    pub discriminator: u8,
}

impl SetAuthorityInstructionData {
    pub fn new() -> (r: Self)
        ensures
            r.discriminator == 2,
    {
        Self { discriminator: 2 }
    }
}

impl Default for SetAuthorityInstructionData {
    fn default() -> (r: Self)
        ensures
            r.discriminator == 2,
    {
        Self::new()
    }
}

/// Leading byte of a set-data instruction payload.
pub struct SetDataInstructionData {
    pub discriminator: u8,
}

impl SetDataInstructionData {
    pub fn new() -> (r: Self)
        ensures
            r.discriminator == 3,
    {
        Self { discriminator: 3 }
    }
}

impl Default for SetDataInstructionData {
    fn default() -> (r: Self)
        ensures
            r.discriminator == 3,
    {
        Self::new()
    }
}

/// Arguments of a set-data instruction: the three format fields, then an
/// optional data source byte with optional inline bytes.
pub struct SetDataInstructionArgs {
    pub encoding: Encoding,
    pub compression: Compression,
    pub format: Format,
    pub data_source: DataSource,
    pub data: RemainderOptionBytes,
}

impl SetDataInstructionArgs {
    /// The argument bytes.
    pub open spec fn spec_bytes(&self) -> Seq<u8> {
        seq![
            self.encoding.spec_as_byte(),
            self.compression.spec_as_byte(),
            self.format.spec_as_byte(),
            self.data_source.spec_as_byte(),
        ] + self.data.spec_bytes()
    }

    /// Encodes the full set-data instruction payload, opcode included.
    pub fn instruction_bytes(&self) -> (r: Vec<u8>)
        ensures
            r@ == seq![3u8] + self.spec_bytes(),
    {
        let mut out: Vec<u8> = Vec::new();
        out.push(SetDataInstructionData::new().discriminator);
        out.push(self.encoding.as_byte());
        out.push(self.compression.as_byte());
        out.push(self.format.as_byte());
        out.push(self.data_source.as_byte());
        self.data.append_to(&mut out);
        proof {
            assert(out@ =~= seq![3u8] + self.spec_bytes());
        }
        out
    }
}

/// Leading byte of a close instruction payload.
pub struct CloseInstructionData {
    pub discriminator: u8,
}

impl CloseInstructionData {
    pub fn new() -> (r: Self)
        ensures
            r.discriminator == 6,
    {
        Self { discriminator: 6 }
    }
}

impl Default for CloseInstructionData {
    fn default() -> (r: Self)
        ensures
            r.discriminator == 6,
    {
        Self::new()
    }
}

/// Leading byte of an extend instruction payload.
pub struct ExtendInstructionData {
    pub discriminator: u8,
}

impl ExtendInstructionData {
    pub fn new() -> (r: Self)
        ensures
            r.discriminator == 8,
    {
        Self { discriminator: 8 }
    }
}

impl Default for ExtendInstructionData {
    fn default() -> (r: Self)
        ensures
            r.discriminator == 8,
    {
        Self::new()
    }
}

/// Arguments of an extend instruction: the number of bytes to add.
pub struct ExtendInstructionArgs {
    pub length: u16,
}

impl ExtendInstructionArgs {
    /// The argument bytes: the little-endian length.
    pub open spec fn spec_bytes(&self) -> Seq<u8> {
        spec_u16_to_le_bytes(self.length)
    }

    /// Encodes the full extend instruction payload, opcode included.
    pub fn instruction_bytes(&self) -> (r: Vec<u8>)
        ensures
            r@ == seq![8u8] + self.spec_bytes(),
    {
        let mut out: Vec<u8> = Vec::new();
        out.push(ExtendInstructionData::new().discriminator);
        let len = u16_to_le_bytes(self.length);
        append_bytes(&mut out, len.as_slice());
        proof {
            assert(out@ =~= seq![8u8] + self.spec_bytes());
        }
        out
    }
}

} // verus!
