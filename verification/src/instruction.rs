//! The instruction set: one opcode byte, decoded once by the dispatcher.

use vstd::prelude::*;

use crate::error::ProgramError;

verus! {

/// Instructions this program supports; the wire opcode is the leading
/// byte of the instruction data.
#[derive(Clone, Copy, Debug, PartialEq, Eq, Structural)]
pub enum ProgramMetadataInstruction {
    /// Writes bytes into a pre-funded buffer account.
    Write,
    /// Creates a metadata record, inline or from a staged buffer.
    Initialize,
    /// Sets, replaces or removes a record's authority.
    SetAuthority,
    /// Replaces a record's format fields and optionally its payload.
    SetData,
    /// Makes a metadata record immutable, irreversibly.
    SetImmutable,
    /// Shrinks an account to its record length and withdraws the excess.
    Trim,
    /// Closes an account and drains its balance.
    Close,
    /// Sets up a buffer account for staged writes.
    Allocate,
    /// Grows an account by a requested number of bytes.
    Extend,
}

impl ProgramMetadataInstruction {
    /// The wire opcode of this instruction.
    pub open spec fn spec_as_byte(self) -> u8 {
        match self {
            ProgramMetadataInstruction::Write => 0u8,
            ProgramMetadataInstruction::Initialize => 1u8,
            ProgramMetadataInstruction::SetAuthority => 2u8,
            ProgramMetadataInstruction::SetData => 3u8,
            ProgramMetadataInstruction::SetImmutable => 4u8,
            ProgramMetadataInstruction::Trim => 5u8,
            ProgramMetadataInstruction::Close => 6u8,
            ProgramMetadataInstruction::Allocate => 7u8,
            ProgramMetadataInstruction::Extend => 8u8,
        }
    }

    /// The instruction a wire opcode denotes, if any.
    pub open spec fn spec_try_from(value: u8) -> Result<
        ProgramMetadataInstruction,
        ProgramError,
    > {
        if value == 0 {
            Ok(ProgramMetadataInstruction::Write)
        } else if value == 1 {
            Ok(ProgramMetadataInstruction::Initialize)
        } else if value == 2 {
            Ok(ProgramMetadataInstruction::SetAuthority)
        } else if value == 3 {
            Ok(ProgramMetadataInstruction::SetData)
        } else if value == 4 {
            Ok(ProgramMetadataInstruction::SetImmutable)
        } else if value == 5 {
            Ok(ProgramMetadataInstruction::Trim)
        } else if value == 6 {
            Ok(ProgramMetadataInstruction::Close)
        } else if value == 7 {
            Ok(ProgramMetadataInstruction::Allocate)
        } else if value == 8 {
            Ok(ProgramMetadataInstruction::Extend)
        } else {
            Err(ProgramError::InvalidInstructionData)
        }
    }

    pub fn as_byte(&self) -> (r: u8)
        ensures
            r == self.spec_as_byte(),
    {
        match self {
            ProgramMetadataInstruction::Write => 0u8,
            ProgramMetadataInstruction::Initialize => 1u8,
            ProgramMetadataInstruction::SetAuthority => 2u8,
            ProgramMetadataInstruction::SetData => 3u8,
            ProgramMetadataInstruction::SetImmutable => 4u8,
            ProgramMetadataInstruction::Trim => 5u8,
            ProgramMetadataInstruction::Close => 6u8,
            ProgramMetadataInstruction::Allocate => 7u8,
            ProgramMetadataInstruction::Extend => 8u8,
        }
    }

    pub fn try_from(value: u8) -> (r: Result<ProgramMetadataInstruction, ProgramError>)
        ensures
            r == ProgramMetadataInstruction::spec_try_from(value),
    {
        match value {
            0u8 => Ok(ProgramMetadataInstruction::Write),
            1u8 => Ok(ProgramMetadataInstruction::Initialize),
            2u8 => Ok(ProgramMetadataInstruction::SetAuthority),
            3u8 => Ok(ProgramMetadataInstruction::SetData),
            4u8 => Ok(ProgramMetadataInstruction::SetImmutable),
            5u8 => Ok(ProgramMetadataInstruction::Trim),
            6u8 => Ok(ProgramMetadataInstruction::Close),
            7u8 => Ok(ProgramMetadataInstruction::Allocate),
            8u8 => Ok(ProgramMetadataInstruction::Extend),
            _ => Err(ProgramError::InvalidInstructionData),
        }
    }
}

} // verus!
