//! A verified model of an on-ledger program-metadata registry.
//!
//! Each record ("metadata") stores versioned, typed, arbitrarily-encoded
//! payload bytes for an owning program, addressed deterministically from the
//! program id and an opaque seed. Mutation is gated by an authority model
//! that recognizes either an explicitly delegated key or the owning program's
//! upgrade authority. Large payloads are staged through transient buffer
//! accounts and migrated in place into a final record.
//!
//! The library operates on plain account values ([`account::Account`]): the
//! host ledger supplies account buffers, balances and signer flags, and an
//! embedding (see `app/`) maps the host's account handles to these values and
//! back. Every instruction handler is a verified transition from the incoming
//! account states to the outgoing ones, specified against the spec-level
//! model in each module.

use vstd::prelude::*;

pub mod account;
pub mod authority;
pub mod client;
pub mod error;
pub mod instruction;
pub mod pda;
pub mod rent;
pub mod state;
pub mod processor;
pub mod support;

verus! {

/// The address that identifies this program on the ledger
/// (base58 `ProgM6JCCvbYkfKqJYHePx4xxSUSqJp7rh8Lyv7nk7S`).
pub open spec fn spec_program_id() -> Seq<u8> {
    seq![
        5u8, 219, 23, 158, 195, 62, 147, 249, 75, 195, 33, 87, 7, 228, 251, 4, 116, 62, 201, 175,
        168, 74, 27, 160, 111, 104, 118, 139, 246, 101, 56, 137,
    ]
}

/// The address of the loader that owns upgradeable program accounts
/// (base58 `BPFLoaderUpgradeab1e11111111111111111111111`).
pub open spec fn spec_loader_v3_id() -> Seq<u8> {
    seq![
        2u8, 168, 246, 145, 78, 136, 161, 176, 226, 16, 21, 62, 247, 99, 174, 43, 0, 194, 185, 61,
        22, 193, 36, 210, 192, 83, 122, 16, 4, 128, 0, 0,
    ]
}

/// This program's id as an owned byte vector.
pub fn program_id() -> (r: Vec<u8>)
    ensures
        r@ == spec_program_id(),
{
    let r: Vec<u8> = vec![
        5u8, 219, 23, 158, 195, 62, 147, 249, 75, 195, 33, 87, 7, 228, 251, 4, 116, 62, 201, 175,
        168, 74, 27, 160, 111, 104, 118, 139, 246, 101, 56, 137,
    ];
    proof {
        assert(r@ =~= spec_program_id());
    }
    r
}

/// The upgradeable loader's id as an owned byte vector.
pub fn loader_v3_id() -> (r: Vec<u8>)
    ensures
        r@ == spec_loader_v3_id(),
{
    let r: Vec<u8> = vec![
        2u8, 168, 246, 145, 78, 136, 161, 176, 226, 16, 21, 62, 247, 99, 174, 43, 0, 194, 185, 61,
        22, 193, 36, 210, 192, 83, 122, 16, 4, 128, 0, 0,
    ];
    proof {
        assert(r@ =~= spec_loader_v3_id());
    }
    r
}

} // verus!
