use vstd::prelude::*;

use crate::identity::Identity;

verus! {

/// The address (if any) that program-derived-address search yields for the
/// given seeds under the given program id. The search is a pure computation
/// over its arguments (hashing plus a curve check), so its outcome is a
/// function of them alone; `None` is the statistically improbable case that
/// no bump seed works, or that the seeds break the host's limits.
pub uninterp spec fn derived_address(seeds: Seq<Seq<u8>>, program_id: Seq<u8>) -> Option<Seq<u8>>;

/// Relies on `Pubkey::try_find_program_address` (anchor_lang's re-export of
/// solana-address): program-derived-address search, deterministic in the
/// seeds and the program id, `None` when no bump seed yields an address.
#[verifier::external_body]
fn find_derived_address(seeds: &Vec<Vec<u8>>, program_id: &Identity) -> (r: Option<Identity>)
    ensures
        (match r {
            Some(id) => derived_address(seeds.deep_view(), program_id@) == Some(id@),
            None => derived_address(seeds.deep_view(), program_id@) is None,
        }),
{
    let refs: Vec<&[u8]> = seeds.iter().map(|s| s.as_slice()).collect();
    let pid = anchor_lang::prelude::Pubkey::from(program_id.bytes);
    match anchor_lang::prelude::Pubkey::try_find_program_address(&refs, &pid) {
        Some((addr, _bump)) => Some(Identity { bytes: addr.to_bytes() }),
        None => None,
    }
}

/// The namespace tag under which project records are keyed: the bytes of
/// the ASCII string "project".
pub open spec fn project_tag() -> Seq<u8> {
    seq![112u8, 114u8, 111u8, 106u8, 101u8, 99u8, 116u8]
}

/// The seeds that bind a project record to its owner and its pool's
/// creator: the namespace tag, then the two identities.
pub open spec fn project_address_seeds(owner: Seq<u8>, pool_creator: Seq<u8>) -> Seq<Seq<u8>> {
    seq![project_tag(), owner, pool_creator]
}

/// Whether a project record's key equals the deterministic derivation from
/// (its owner, the pool's creator) under the given program id.
pub open spec fn key_matches_derivation(
    key: Seq<u8>,
    owner: Seq<u8>,
    pool_creator: Seq<u8>,
    program_id: Seq<u8>,
) -> bool {
    derived_address(project_address_seeds(owner, pool_creator), program_id) == Some(key)
}

/// The ASCII bytes of "project", for building the seed list at run time.
fn project_tag_bytes() -> (r: Vec<u8>)
    ensures
        r@ == project_tag(),
{
    let mut v: Vec<u8> = Vec::new();
    v.push(112u8);
    v.push(114u8);
    v.push(111u8);
    v.push(106u8);
    v.push(101u8);
    v.push(99u8);
    v.push(116u8);
    proof {
        assert(v@ =~= project_tag());
    }
    v
}

/// Derives the address a project record must sit at to belong to the pool
/// whose creator is `pool_creator`, under the given program id.
pub fn derive_project_address(owner: &Identity, pool_creator: &Identity, program_id: &Identity) -> (r:
    Option<Identity>)
    ensures
        (match r {
            Some(id) => key_matches_derivation(id@, owner@, pool_creator@, program_id@),
            None => derived_address(project_address_seeds(owner@, pool_creator@), program_id@)
                is None,
        }),
{
    let mut seeds: Vec<Vec<u8>> = Vec::new();
    seeds.push(project_tag_bytes());
    seeds.push(owner.to_vec());
    seeds.push(pool_creator.to_vec());
    proof {
        assert(seeds.deep_view() =~~= project_address_seeds(owner@, pool_creator@));
    }
    find_derived_address(&seeds, program_id)
}

} // verus!
