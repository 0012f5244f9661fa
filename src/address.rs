//! Deterministic pool addresses, derived from a fixed label, the two asset
//! identifiers and a bump byte.
use vstd::prelude::*;
use anchor_lang::solana_program::pubkey::Pubkey;
use crate::key::Key;

verus! {

/// The address that program-address derivation gives for `seeds` under
/// `program_id`, or `None` where the seeds admit none.
pub uninterp spec fn program_address(seeds: Seq<Seq<u8>>, program_id: Seq<u8>) -> Option<Seq<u8>>;

/// The address and bump byte found by the canonical bump search for `seeds`
/// under `program_id`, or `None` where the search finds none.
pub uninterp spec fn canonical_program_address(seeds: Seq<Seq<u8>>, program_id: Seq<u8>) -> Option<
    (Seq<u8>, u8),
>;

pub open spec fn seeds_view(seeds: Seq<Vec<u8>>) -> Seq<Seq<u8>> {
    seeds.map_values(|s: Vec<u8>| s@)
}

/// The label that opens every pool's seed list: the ASCII bytes of `pool`.
pub open spec fn pool_label() -> Seq<u8> {
    seq![112u8, 111u8, 111u8, 108u8]
}

/// The seeds of the pool for the ordered pair `(x, y)`, without the bump.
pub open spec fn pool_seeds(x: Seq<u8>, y: Seq<u8>) -> Seq<Seq<u8>> {
    seq![pool_label(), x, y]
}

/// The address of the pool for `(x, y)` with the given bump byte.
pub open spec fn pool_address(x: Seq<u8>, y: Seq<u8>, bump: u8, program_id: Seq<u8>) -> Option<
    Seq<u8>,
> {
    program_address(pool_seeds(x, y).push(seq![bump]), program_id)
}

/// Relies on `Pubkey::create_program_address`: a pure function of the seeds
/// and the program identifier, which reports an error where the seeds are too
/// many or too long, or hash to a point on the curve.
#[verifier::external_body]
fn create_program_address(seeds: &Vec<Vec<u8>>, program_id: &Key) -> (r: Option<Key>)
    ensures
        match r {
            Some(a) => program_address(seeds_view(seeds@), program_id@) == Some(a@),
            None => program_address(seeds_view(seeds@), program_id@) is None,
        },
{
    let refs: Vec<&[u8]> = seeds.iter().map(|s| s.as_slice()).collect();
    match Pubkey::create_program_address(&refs, &Pubkey::new_from_array(program_id.bytes)) {
        Ok(a) => Some(Key { bytes: a.to_bytes() }),
        Err(_) => None,
    }
}

/// Relies on `Pubkey::try_find_program_address`: a pure function of the seeds
/// and the program identifier; it tries bumps from 255 downwards and returns
/// the first address that `create_program_address` gives for the seeds
/// followed by that one-byte bump.
#[verifier::external_body]
fn try_find_program_address(seeds: &Vec<Vec<u8>>, program_id: &Key) -> (r: Option<(Key, u8)>)
    ensures
        match r {
            Some((a, b)) => canonical_program_address(seeds_view(seeds@), program_id@) == Some(
                (a@, b),
            ) && program_address(seeds_view(seeds@).push(seq![b]), program_id@) == Some(a@),
            None => canonical_program_address(seeds_view(seeds@), program_id@) is None,
        },
{
    let refs: Vec<&[u8]> = seeds.iter().map(|s| s.as_slice()).collect();
    match Pubkey::try_find_program_address(&refs, &Pubkey::new_from_array(program_id.bytes)) {
        Some((a, b)) => Some((Key { bytes: a.to_bytes() }, b)),
        None => None,
    }
}

fn pool_seed_list(x: &Key, y: &Key) -> (r: Vec<Vec<u8>>)
    ensures
        seeds_view(r@) == pool_seeds(x@, y@),
{
    let mut r: Vec<Vec<u8>> = Vec::new();
    r.push(vec![112u8, 111u8, 111u8, 108u8]);
    r.push(x.to_vec());
    r.push(y.to_vec());
    assert(seeds_view(r@) =~= pool_seeds(x@, y@));
    r
}

/// Recomputes the address of the pool for `(x, y)` with the stored bump.
pub fn derive_pool_address(x: &Key, y: &Key, bump: u8, program_id: &Key) -> (r: Option<Key>)
    ensures
        match r {
            Some(a) => pool_address(x@, y@, bump, program_id@) == Some(a@),
            None => pool_address(x@, y@, bump, program_id@) is None,
        },
{
    let mut seeds = pool_seed_list(x, y);
    let ghost before = seeds@;
    let b: Vec<u8> = vec![bump];
    assert(b@ =~= seq![bump]);
    seeds.push(b);
    assert(seeds_view(seeds@) =~= seeds_view(before).push(b@));
    assert(seeds_view(seeds@) =~= pool_seeds(x@, y@).push(seq![bump]));
    create_program_address(&seeds, program_id)
}

/// Finds the canonical address and bump of the pool for `(x, y)`.
pub fn find_pool_address(x: &Key, y: &Key, program_id: &Key) -> (r: Option<(Key, u8)>)
    ensures
        match r {
            Some((a, b)) => canonical_program_address(pool_seeds(x@, y@), program_id@) == Some(
                (a@, b),
            ) && pool_address(x@, y@, b, program_id@) == Some(a@),
            None => canonical_program_address(pool_seeds(x@, y@), program_id@) is None,
        },
{
    let seeds = pool_seed_list(x, y);
    try_find_program_address(&seeds, program_id)
}

} // verus!
