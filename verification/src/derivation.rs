//! Deterministic derivation of escrow and job account addresses.
//!
//! An escrow account lives at the address derived from the fixed seed
//! `"escrow"`; a job account lives at the address derived from the seed
//! `"job"` followed by the funding authority's identifier. Derivation is a
//! one-way function of the ordered seeds and the program id, searching for
//! the largest bump byte whose derived address has no private counterpart;
//! it fails only when no bump byte qualifies.

use vstd::prelude::*;
use crate::ids::AccountId;

verus! {

/// What the host's program-derived-address search returns for given seeds
/// and program id: the address and its bump, or nothing when no bump byte
/// qualifies. The result is a function of the seeds and program id alone.
pub uninterp spec fn pda_of(seeds: Seq<Seq<u8>>, program_id: Seq<u8>) -> Option<(Seq<u8>, u8)>;

/// The seed of every escrow account: the bytes of `"escrow"`.
pub open spec fn escrow_seed() -> Seq<u8> {
    seq![101u8, 115u8, 99u8, 114u8, 111u8, 119u8]
}

/// The seed prefix of every job account: the bytes of `"job"`.
pub open spec fn job_seed() -> Seq<u8> {
    seq![106u8, 111u8, 98u8]
}

/// The ordered seed list of the escrow account.
pub open spec fn escrow_seeds() -> Seq<Seq<u8>> {
    seq![escrow_seed()]
}

/// The ordered seed list of the job account of a funding authority.
pub open spec fn job_seeds(authority: Seq<u8>) -> Seq<Seq<u8>> {
    seq![job_seed(), authority]
}

/// The escrow account's derivation for a program id.
pub open spec fn spec_derive_escrow(program_id: Seq<u8>) -> Option<(Seq<u8>, u8)> {
    pda_of(escrow_seeds(), program_id)
}

/// The job account's derivation for a program id and funding authority.
pub open spec fn spec_derive_job(program_id: Seq<u8>, authority: Seq<u8>) -> Option<(Seq<u8>, u8)> {
    pda_of(job_seeds(authority), program_id)
}

/// A derivation result, seen at the level of views.
pub open spec fn derived_view(r: Option<(AccountId, u8)>) -> Option<(Seq<u8>, u8)> {
    match r {
        Some((addr, bump)) => Some((addr@, bump)),
        None => None,
    }
}

/// Relies on `Pubkey::try_find_program_address` of solana-program: the
/// returned address and bump are a function of the seeds and the program id
/// alone (a seed-dependent hash plus a search over bump bytes), and `None`
/// comes exactly when that search finds no qualifying address.
#[verifier::external_body]
fn find_pda(seeds: &Vec<Vec<u8>>, program_id: &AccountId) -> (r: Option<(AccountId, u8)>)
    requires
        program_id@.len() == 32,
    ensures
        derived_view(r) == pda_of(seeds.deep_view(), program_id@),
{
    let seed_refs: Vec<&[u8]> = seeds.iter().map(|s| s.as_slice()).collect();
    let pid = solana_program::pubkey::Pubkey::try_from(program_id.as_bytes().as_slice()).unwrap();
    solana_program::pubkey::Pubkey::try_find_program_address(&seed_refs, &pid).map(
        |(addr, bump)| (AccountId::from_bytes(addr.to_bytes().to_vec()).unwrap(), bump),
    )
}

/// The escrow seed as bytes.
fn escrow_seed_bytes() -> (r: Vec<u8>)
    ensures
        r@ == escrow_seed(),
{
    let mut bytes: Vec<u8> = Vec::new();
    bytes.push(101);
    bytes.push(115);
    bytes.push(99);
    bytes.push(114);
    bytes.push(111);
    bytes.push(119);
    proof {
        assert(bytes@ =~= escrow_seed());
    }
    bytes
}

/// The job seed prefix as bytes.
fn job_seed_bytes() -> (r: Vec<u8>)
    ensures
        r@ == job_seed(),
{
    let mut bytes: Vec<u8> = Vec::new();
    bytes.push(106);
    bytes.push(111);
    bytes.push(98);
    proof {
        assert(bytes@ =~= job_seed());
    }
    bytes
}

/// Derives the escrow account address for a program id, with its bump.
pub fn derive_escrow(program_id: &AccountId) -> (r: Option<(AccountId, u8)>)
    ensures
        derived_view(r) == spec_derive_escrow(program_id@),
{
    proof {
        use_type_invariant(program_id);
    }
    let mut seeds: Vec<Vec<u8>> = Vec::new();
    seeds.push(escrow_seed_bytes());
    proof {
        assert(seeds.deep_view() =~~= escrow_seeds());
    }
    find_pda(&seeds, program_id)
}

/// Derives the job account address for a program id and funding authority,
/// with its bump.
pub fn derive_job(program_id: &AccountId, authority: &AccountId) -> (r: Option<(AccountId, u8)>)
    ensures
        derived_view(r) == spec_derive_job(program_id@, authority@),
{
    proof {
        use_type_invariant(program_id);
    }
    let mut seeds: Vec<Vec<u8>> = Vec::new();
    seeds.push(job_seed_bytes());
    seeds.push(authority.to_bytes());
    proof {
        assert(seeds.deep_view() =~~= job_seeds(authority@));
    }
    find_pda(&seeds, program_id)
}

/// Derivation determinism: any two escrow derivation results for the same
/// program id agree, since each equals the one derivation the seeds name.
pub proof fn lemma_derive_escrow_deterministic(
    program_id: Seq<u8>,
    r1: Option<(Seq<u8>, u8)>,
    r2: Option<(Seq<u8>, u8)>,
)
    requires
        r1 == spec_derive_escrow(program_id),
        r2 == spec_derive_escrow(program_id),
    ensures
        r1 == r2,
{
}

/// Derivation determinism: any two job derivation results for the same
/// program id and authority agree.
pub proof fn lemma_derive_job_deterministic(
    program_id: Seq<u8>,
    authority: Seq<u8>,
    r1: Option<(Seq<u8>, u8)>,
    r2: Option<(Seq<u8>, u8)>,
)
    requires
        r1 == spec_derive_job(program_id, authority),
        r2 == spec_derive_job(program_id, authority),
    ensures
        r1 == r2,
{
}

} // verus!
