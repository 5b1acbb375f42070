use vstd::prelude::*;
use crate::project::ProjectAccount;
use crate::pubkey::Pubkey;

verus! {

/// The address that the seeds and program id give, if they give one.
pub uninterp spec fn program_address(seeds: Seq<Seq<u8>>, program_id: Seq<u8>) -> Option<Seq<u8>>;

/// The first valid address and bump found for the seeds and program id.
pub uninterp spec fn found_address(seeds: Seq<Seq<u8>>, program_id: Seq<u8>) -> Option<(Seq<u8>, u8)>;

/// Relies on solana_program's `Pubkey::create_program_address`: the result
/// depends on the seeds and the program id alone, and more than 16 seeds or a
/// seed of more than 32 bytes gives none.
#[verifier::external_body]
fn create_program_address(seeds: &Vec<Vec<u8>>, program_id: &Pubkey) -> (r: Option<Pubkey>)
    ensures
        match r {
            Some(k) => program_address(seeds.deep_view(), program_id@) == Some(k@),
            None => program_address(seeds.deep_view(), program_id@) is None,
        },
        seeds@.len() > 16 || (exists|i: int| 0 <= i < seeds@.len() && seeds@[i]@.len() > 32)
            ==> r is None,
{
    let s: Vec<&[u8]> = seeds.iter().map(|v| v.as_slice()).collect();
    let id = anchor_lang::solana_program::pubkey::Pubkey::new_from_array(program_id.bytes);
    anchor_lang::solana_program::pubkey::Pubkey::create_program_address(&s, &id).ok().map(
        |k| Pubkey { bytes: k.to_bytes() },
    )
}

/// Relies on solana_program's `Pubkey::try_find_program_address`: the result
/// depends on the seeds and the program id alone, and an address it finds is
/// the one that `create_program_address` gives for the seeds followed by the
/// one-byte bump.
#[verifier::external_body]
fn try_find_program_address(seeds: &Vec<Vec<u8>>, program_id: &Pubkey) -> (r: Option<(Pubkey, u8)>)
    ensures
        match r {
            Some((k, b)) => {
                &&& found_address(seeds.deep_view(), program_id@) == Some((k@, b))
                &&& program_address(seeds.deep_view().push(seq![b]), program_id@) == Some(k@)
            },
            None => found_address(seeds.deep_view(), program_id@) is None,
        },
{
    let s: Vec<&[u8]> = seeds.iter().map(|v| v.as_slice()).collect();
    let id = anchor_lang::solana_program::pubkey::Pubkey::new_from_array(program_id.bytes);
    anchor_lang::solana_program::pubkey::Pubkey::try_find_program_address(&s, &id).map(
        |(k, b)| (Pubkey { bytes: k.to_bytes() }, b),
    )
}

/// The fixed domain tag of project records, the bytes of "project".
pub open spec fn project_tag() -> Seq<u8> {
    seq![112u8, 114u8, 111u8, 106u8, 101u8, 99u8, 116u8]
}

/// The seeds of `owner`'s project record.
pub open spec fn project_seeds(owner: Seq<u8>) -> Seq<Seq<u8>> {
    seq![project_tag(), owner]
}

fn bytes_of(k: &Pubkey) -> (r: Vec<u8>)
    ensures
        r@ == k@,
{
    let mut v: Vec<u8> = Vec::new();
    let mut i: usize = 0;
    while i < 32
        invariant
            0 <= i <= 32,
            k.bytes@.len() == 32,
            v@ == k.bytes@.subrange(0, i as int),
        decreases 32 - i,
    {
        v.push(k.bytes[i]);
        i += 1;
    }
    assert(v@ =~= k.bytes@);
    v
}

fn seeds_of(owner: &Pubkey, bump: Option<u8>) -> (r: Vec<Vec<u8>>)
    ensures
        r.deep_view() == match bump {
            Some(b) => project_seeds(owner@).push(seq![b]),
            None => project_seeds(owner@),
        },
{
    let tag: Vec<u8> = vec![112u8, 114u8, 111u8, 106u8, 101u8, 99u8, 116u8];
    let own = bytes_of(owner);
    assert(tag.deep_view() =~= project_tag());
    assert(own.deep_view() =~= owner@);
    let mut seeds: Vec<Vec<u8>> = Vec::new();
    seeds.push(tag);
    seeds.push(own);
    match bump {
        Some(b) => {
            let last: Vec<u8> = vec![b];
            assert(last.deep_view() =~= seq![b]);
            seeds.push(last);
            assert(seeds.deep_view() =~= project_seeds(owner@).push(seq![b]));
        },
        None => {
            assert(seeds.deep_view() =~= project_seeds(owner@));
        },
    }
    seeds
}

/// Derives the address of `owner`'s project record under `program_id`,
/// with the bump byte that the record keeps.
pub fn derive_project_address(owner: &Pubkey, program_id: &Pubkey) -> (r: Option<(Pubkey, u8)>)
    ensures
        match r {
            Some((k, b)) => {
                &&& found_address(project_seeds(owner@), program_id@) == Some((k@, b))
                &&& program_address(project_seeds(owner@).push(seq![b]), program_id@) == Some(k@)
            },
            None => found_address(project_seeds(owner@), program_id@) is None,
        },
{
    let seeds = seeds_of(owner, None);
    try_find_program_address(&seeds, program_id)
}

/// Whether `address` is where the record belongs: the address given by its
/// owner, the domain tag and its stored bump.
pub fn verify_project_address(project: &ProjectAccount, address: &Pubkey, program_id: &Pubkey) -> (r:
    bool)
    ensures
        r == (program_address(project_seeds(project.owner@).push(seq![project.bump]), program_id@)
            == Some(address@)),
{
    let seeds = seeds_of(&project.owner, Some(project.bump));
    match create_program_address(&seeds, program_id) {
        Some(k) => k.same_key(address),
        None => false,
    }
}

} // verus!
