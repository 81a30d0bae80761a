//! Error taxonomy of the instruction processors.
//!
//! Every failure is immediate and non-retryable: a handler that returns an
//! error leaves all accounts exactly as it found them.

use vstd::prelude::*;

verus! {

/// Errors an instruction handler can return.
///
/// These mirror the error words of the host ledger's program interface, plus
/// `Custom` for program-specific codes.
#[derive(Clone, Copy, Debug, PartialEq, Eq, Structural)]
pub enum ProgramError {
    /// A required signer flag is absent.
    MissingRequiredSignature,
    /// The resolved authority does not match the signer.
    IncorrectAuthority,
    /// Address derivation did not produce the candidate account's key.
    InvalidSeeds,
    /// Wrong discriminator, wrong length, malformed enumeration byte, or a
    /// malformed external-record shape.
    InvalidAccountData,
    /// The instruction payload is malformed, or it makes a request the
    /// addressed record kind does not admit.
    InvalidInstructionData,
    /// The target account already holds a live record.
    AccountAlreadyInitialized,
    /// The target account does not hold the expected record.
    UninitializedAccount,
    /// The account is not funded for rent exemption.
    AccountNotRentExempt,
    /// The instruction was given fewer accounts than it needs.
    NotEnoughAccountKeys,
    /// Lamport or length arithmetic would wrap.
    ArithmeticOverflow,
    /// A resize would exceed the host's account-size cap.
    InvalidRealloc,
    /// A program-specific error code.
    Custom(u32),
}

/// Program-specific error conditions.
#[derive(Clone, Copy, Debug, PartialEq, Eq, Structural)]
pub enum ProgramMetadataError {
    /// The supposed program account is not executable.
    NotExecutableAccount,
}

impl ProgramMetadataError {
    /// The `ProgramError` carrying this program-specific code.
    pub open spec fn spec_to_program_error(self) -> ProgramError {
        match self {
            ProgramMetadataError::NotExecutableAccount => ProgramError::Custom(0),
        }
    }

    /// Converts this program-specific error into the shared error type.
    pub fn to_program_error(self) -> (r: ProgramError)
        ensures
            r == self.spec_to_program_error(),
    {
        match self {
            ProgramMetadataError::NotExecutableAccount => ProgramError::Custom(0),
        }
    }
}

} // verus!
