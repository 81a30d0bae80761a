//! Rent-exemption arithmetic.
//!
//! The host's rent parameters arrive as sysvar bytes whose first eight
//! bytes hold the rental rate in lamports per byte, little endian. The
//! rent-exempt minimum for an account is the rate times the account's data
//! length plus a fixed per-account storage overhead.

use vstd::prelude::*;

use crate::error::ProgramError;
use crate::support::MAX_ACCOUNT_DATA_LEN;

verus! {

use vstd::bytes::{spec_u64_from_le_bytes, u64_from_le_bytes};
use vstd::slice::slice_subrange;

/// Bytes charged for an account's fixed storage besides its data.
pub const ACCOUNT_STORAGE_OVERHEAD: u64 = 128;

/// Largest representable rental rate: any account up to the data-size cap
/// stays within `u64` at this rate.
pub const MAX_LAMPORTS_PER_BYTE: u64 = 1_759_197_129_867;

/// The rental rate held in rent sysvar bytes.
pub open spec fn spec_lamports_per_byte(rent_data: Seq<u8>) -> u64
    recommends
        rent_data.len() >= 8,
{
    spec_u64_from_le_bytes(rent_data.subrange(0, 8))
}

/// The rent-exempt minimum balance for an account of `data_len` bytes
/// under the rent parameters in `rent_data`; `InvalidAccountData` for
/// malformed parameter bytes, an oversized account, or a rate so large the
/// product would wrap.
pub open spec fn spec_minimum_balance(rent_data: Seq<u8>, data_len: int) -> Result<
    u64,
    ProgramError,
> {
    if rent_data.len() < 8 {
        Err(ProgramError::InvalidAccountData)
    } else if data_len > MAX_ACCOUNT_DATA_LEN {
        Err(ProgramError::InvalidAccountData)
    } else if spec_lamports_per_byte(rent_data) > MAX_LAMPORTS_PER_BYTE {
        Err(ProgramError::InvalidAccountData)
    } else {
        Ok((((ACCOUNT_STORAGE_OVERHEAD + data_len) * spec_lamports_per_byte(rent_data)) as u64))
    }
}

/// Computes the rent-exempt minimum balance for an account of `data_len`
/// bytes under the rent parameters in `rent_data`.
pub fn minimum_balance(rent_data: &[u8], data_len: usize) -> (r: Result<u64, ProgramError>)
    ensures
        r == spec_minimum_balance(rent_data@, data_len as int),
{
    if rent_data.len() < 8 {
        return Err(ProgramError::InvalidAccountData);
    }
    if data_len > MAX_ACCOUNT_DATA_LEN {
        return Err(ProgramError::InvalidAccountData);
    }
    let lamports_per_byte = u64_from_le_bytes(slice_subrange(rent_data, 0, 8));
    if lamports_per_byte > MAX_LAMPORTS_PER_BYTE {
        return Err(ProgramError::InvalidAccountData);
    }
    let units = ACCOUNT_STORAGE_OVERHEAD + data_len as u64;
    proof {
        assert(units * lamports_per_byte <= (128 + MAX_ACCOUNT_DATA_LEN)
            * MAX_LAMPORTS_PER_BYTE) by (nonlinear_arith)
            requires
                0 <= units <= 128 + MAX_ACCOUNT_DATA_LEN,
                0 <= lamports_per_byte <= MAX_LAMPORTS_PER_BYTE,
        ;
        assert((128 + MAX_ACCOUNT_DATA_LEN) * MAX_LAMPORTS_PER_BYTE <= u64::MAX);
    }
    Ok(units * lamports_per_byte)
}

} // verus!
