//! Deterministic address derivation.
//!
//! A record's address derives from the owning program's id and a 16-byte
//! seed; canonical records hash `[program, seed]`, third-party records hash
//! `[program, delegate, seed]`. The derivation itself is the host's
//! program-derived-address computation, reached through one trusted
//! wrapper; everything above it is verified against the named result.

use vstd::prelude::*;

use crate::error::ProgramError;
use crate::spec_program_id;

verus! {

use vstd::slice::slice_to_vec;

/// What the host's program-derived-address search returns for a seed list
/// and a program id: the derived address and bump seed, or `None` when no
/// bump yields a valid derived address.
pub uninterp spec fn pda_of(seeds: Seq<Seq<u8>>, program_id: Seq<u8>) -> Option<(Seq<u8>, u8)>;

/// Relies on `solana_pubkey::Pubkey::try_find_program_address`: the result
/// is a pure function of the seed slices and the program id (a repeated
/// hash search), 32 bytes wide, and `None` exactly when the search finds no
/// viable bump.
#[verifier::external_body]
fn find_pda(seeds: &Vec<Vec<u8>>, program_id: &Vec<u8>) -> (r: Option<(Vec<u8>, u8)>)
    requires
        program_id@.len() == 32,
    ensures
        match r {
            Some(p) => pda_of(seeds.deep_view(), program_id@) == Some((p.0@, p.1)) && p.0@.len()
                == 32,
            None => pda_of(seeds.deep_view(), program_id@) is None,
        },
{
    let refs: Vec<&[u8]> = seeds.iter().map(|s| s.as_slice()).collect();
    let pid = solana_pubkey::Pubkey::try_from(program_id.as_slice()).unwrap();
    solana_pubkey::Pubkey::try_find_program_address(&refs, &pid).map(
        |(key, bump)| (key.to_bytes().to_vec(), bump),
    )
}

/// The seed list of a canonical record.
pub open spec fn spec_canonical_seeds(program: Seq<u8>, seed: Seq<u8>) -> Seq<Seq<u8>> {
    seq![program, seed]
}

/// The seed list of a third-party record.
pub open spec fn spec_third_party_seeds(program: Seq<u8>, delegate: Seq<u8>, seed: Seq<u8>) -> Seq<
    Seq<u8>,
> {
    seq![program, delegate, seed]
}

/// The derivation an account must match, by canonical flag.
pub open spec fn spec_derivation(
    program: Seq<u8>,
    delegate: Seq<u8>,
    seed: Seq<u8>,
    canonical: bool,
) -> Option<(Seq<u8>, u8)> {
    if canonical {
        pda_of(spec_canonical_seeds(program, seed), spec_program_id())
    } else {
        pda_of(spec_third_party_seeds(program, delegate, seed), spec_program_id())
    }
}

/// Derives the address of this program's record for `program` and `seed`:
/// canonical when `delegate` is absent, third-party otherwise.
pub open spec fn spec_derive_address(
    program: Seq<u8>,
    delegate: Option<Seq<u8>>,
    seed: Seq<u8>,
) -> Result<(Seq<u8>, u8), ProgramError> {
    let derived = match delegate {
        Option::None => pda_of(spec_canonical_seeds(program, seed), spec_program_id()),
        Option::Some(d) => pda_of(spec_third_party_seeds(program, d, seed), spec_program_id()),
    };
    match derived {
        Option::Some(p) => Ok(p),
        Option::None => Err(ProgramError::InvalidSeeds),
    }
}

/// Classifies `candidate`: canonical derivation first, third-party with the
/// supplied delegate on mismatch, `InvalidSeeds` when neither matches.
pub open spec fn spec_verify_address(
    candidate: Seq<u8>,
    program: Seq<u8>,
    delegate: Seq<u8>,
    seed: Seq<u8>,
) -> Result<bool, ProgramError> {
    if pda_of(spec_canonical_seeds(program, seed), spec_program_id()) matches Some(p) && p.0
        == candidate {
        Ok(true)
    } else if pda_of(spec_third_party_seeds(program, delegate, seed), spec_program_id())
        matches Some(p) && p.0 == candidate {
        Ok(false)
    } else {
        Err(ProgramError::InvalidSeeds)
    }
}

/// Runs the derivation for `program` and `seed`, with the delegate key
/// included for third-party records.
pub fn derive_for(program: &[u8], delegate: &[u8], seed: &[u8], canonical: bool) -> (r: Option<
    (Vec<u8>, u8),
>)
    requires
        program@.len() == 32,
    ensures
        match r {
            Some(p) => spec_derivation(program@, delegate@, seed@, canonical) == Some((p.0@, p.1))
                && p.0@.len() == 32,
            None => spec_derivation(program@, delegate@, seed@, canonical) is None,
        },
{
    let mut seeds: Vec<Vec<u8>> = Vec::new();
    seeds.push(slice_to_vec(program));
    if !canonical {
        seeds.push(slice_to_vec(delegate));
    }
    seeds.push(slice_to_vec(seed));
    let pid = crate::program_id();
    proof {
        if canonical {
            assert(seeds.deep_view() =~~= spec_canonical_seeds(program@, seed@));
        } else {
            assert(seeds.deep_view() =~~= spec_third_party_seeds(program@, delegate@, seed@));
        }
    }
    find_pda(&seeds, &pid)
}

/// Derives this program's record address for `program` and `seed`
/// (canonical without a delegate, third-party with one), failing with
/// `InvalidSeeds` when the derivation search finds no viable bump.
pub fn derive_address(program: &[u8], delegate: Option<&Vec<u8>>, seed: &[u8]) -> (r: Result<
    (Vec<u8>, u8),
    ProgramError,
>)
    requires
        program@.len() == 32,
    ensures
        match r {
            Ok(p) => spec_derive_address(
                program@,
                match delegate {
                    Option::None => Option::None,
                    Option::Some(d) => Option::Some(d@),
                },
                seed@,
            ) == Ok::<(Seq<u8>, u8), ProgramError>((p.0@, p.1)) && p.0@.len() == 32,
            Err(e) => spec_derive_address(
                program@,
                match delegate {
                    Option::None => Option::None,
                    Option::Some(d) => Option::Some(d@),
                },
                seed@,
            ) == Err::<(Seq<u8>, u8), ProgramError>(e),
        },
{
    let r = match delegate {
        None => derive_for(program, program, seed, true),
        Some(d) => derive_for(program, d.as_slice(), seed, false),
    };
    match r {
        Some(p) => Ok(p),
        None => Err(ProgramError::InvalidSeeds),
    }
}

/// Classifies `candidate` as canonical (`true`) or third-party (`false`)
/// for `(program, delegate, seed)`, trying the canonical derivation first;
/// fails with `InvalidSeeds` when neither derivation matches.
pub fn verify_address(candidate: &[u8], program: &[u8], delegate: &[u8], seed: &[u8]) -> (r: Result<
    bool,
    ProgramError,
>)
    requires
        program@.len() == 32,
    ensures
        r == spec_verify_address(candidate@, program@, delegate@, seed@),
{
    match derive_for(program, delegate, seed, true) {
        Some(p) => {
            if crate::support::bytes_eq(p.0.as_slice(), candidate) {
                return Ok(true);
            }
        },
        None => {},
    }
    match derive_for(program, delegate, seed, false) {
        Some(p) => {
            if crate::support::bytes_eq(p.0.as_slice(), candidate) {
                return Ok(false);
            }
        },
        None => {},
    }
    Err(ProgramError::InvalidSeeds)
}

/// Deriving a canonical address and then verifying it classifies the
/// address as canonical, whatever delegate the verifier is handed.
pub proof fn lemma_derive_verify_canonical(
    program: Seq<u8>,
    seed: Seq<u8>,
    delegate: Seq<u8>,
    addr: Seq<u8>,
    bump: u8,
)
    requires
        pda_of(spec_canonical_seeds(program, seed), spec_program_id()) == Some((addr, bump)),
    ensures
        spec_verify_address(addr, program, delegate, seed) == Ok::<bool, ProgramError>(true),
{
}

/// Deriving a third-party address and then verifying it classifies the
/// address as third-party, provided the canonical derivation for the same
/// program and seed yields a different address (the two seed lists differ,
/// so only a hash collision could make them coincide).
pub proof fn lemma_derive_verify_third_party(
    program: Seq<u8>,
    delegate: Seq<u8>,
    seed: Seq<u8>,
    addr: Seq<u8>,
    bump: u8,
)
    requires
        pda_of(spec_third_party_seeds(program, delegate, seed), spec_program_id()) == Some(
            (addr, bump),
        ),
        pda_of(spec_canonical_seeds(program, seed), spec_program_id()) matches Some(p) ==> p.0
            != addr,
    ensures
        spec_verify_address(addr, program, delegate, seed) == Ok::<bool, ProgramError>(false),
{
}

} // verus!
