//! Program-derived addresses of the program's accounts: their seeds, how an
//! address is found, and how an account's address is checked against its
//! seeds and stored bump.
use vstd::prelude::*;
use vstd::string::{StrSliceExecFns, StringSliceAdditionalSpecFns};

use crate::key::Pubkey;

verus! {

/// The address, and its bump seed, that `Pubkey::try_find_program_address`
/// finds for `seeds` under `program_id` (all as bytes), if any.
pub uninterp spec fn spec_find_program_address(seeds: Seq<Seq<u8>>, program_id: Seq<u8>) -> Option<
    (Seq<u8>, u8),
>;

/// The address that `Pubkey::create_program_address` derives from `seeds`
/// under `program_id` (all as bytes), if they derive one.
pub uninterp spec fn spec_create_program_address(seeds: Seq<Seq<u8>>, program_id: Seq<u8>) -> Option<
    Seq<u8>,
>;

/// The bytes of a found address and its bump.
pub open spec fn found_view(r: Option<(Pubkey, u8)>) -> Option<(Seq<u8>, u8)> {
    match r {
        Some((k, b)) => Some((k.bytes@, b)),
        None => None,
    }
}

/// Some seed is longer than the 32 bytes a seed may have.
pub open spec fn has_long_seed(seeds: Seq<Seq<u8>>) -> bool {
    exists|i: int| 0 <= i < seeds.len() && (#[trigger] seeds[i]).len() > 32
}

/// Calls `Pubkey::try_find_program_address` (anchor_lang's `Pubkey`, that is
/// solana_address's `Address`). Claimed of it: the result is the named
/// `spec_find_program_address` of the seeds and the program id; there is no
/// result with 16 seeds or more, nor with a seed longer than 32 bytes; and a
/// found address is what `create_program_address` derives from the seeds
/// followed by the one-byte bump seed (the source returns that very value).
#[verifier::external_body]
fn try_find_program_address(seeds: &Vec<Vec<u8>>, program_id: &Pubkey) -> (r: Option<(Pubkey, u8)>)
    ensures
        found_view(r) == spec_find_program_address(seeds.deep_view(), program_id.bytes@),
        seeds.len() >= 16 ==> r is None,
        has_long_seed(seeds.deep_view()) ==> r is None,
        r matches Some((k, b)) ==> spec_create_program_address(
            seeds.deep_view().push(seq![b]),
            program_id.bytes@,
        ) == Some(k.bytes@),
{
    let refs: Vec<&[u8]> = seeds.iter().map(|s| s.as_slice()).collect();
    let pid = anchor_lang::prelude::Pubkey::new_from_array(program_id.bytes);
    anchor_lang::prelude::Pubkey::try_find_program_address(&refs, &pid).map(
        |(k, b)| (Pubkey { bytes: k.to_bytes() }, b),
    )
}

/// Calls `Pubkey::create_program_address` and keeps the address of an `Ok`.
/// Claimed of it: the result is the named `spec_create_program_address` of
/// the seeds and the program id; there is none with more than 16 seeds, nor
/// with a seed longer than 32 bytes (the source checks both first).
#[verifier::external_body]
fn create_program_address(seeds: &Vec<Vec<u8>>, program_id: &Pubkey) -> (r: Option<Pubkey>)
    ensures
        spec_create_program_address(seeds.deep_view(), program_id.bytes@) == (match r {
            Some(k) => Some(k.bytes@),
            None => None::<Seq<u8>>,
        }),
        seeds.len() > 16 ==> r is None,
        has_long_seed(seeds.deep_view()) ==> r is None,
{
    let refs: Vec<&[u8]> = seeds.iter().map(|s| s.as_slice()).collect();
    let pid = anchor_lang::prelude::Pubkey::new_from_array(program_id.bytes);
    anchor_lang::prelude::Pubkey::create_program_address(&refs, &pid).ok().map(
        |k| Pubkey { bytes: k.to_bytes() },
    )
}

/// Seeds of the policy account: `"policy"`, the vault.
pub open spec fn spec_policy_seeds(vault: Pubkey) -> Seq<Seq<u8>> {
    seq!["policy".spec_bytes(), vault.bytes@]
}

/// Seeds of the progress account: `"progress"`, the vault.
pub open spec fn spec_progress_seeds(vault: Pubkey) -> Seq<Seq<u8>> {
    seq!["progress".spec_bytes(), vault.bytes@]
}

/// Seeds of the position account: `"position"`, the vault, the pool.
pub open spec fn spec_position_seeds(vault: Pubkey, pool: Pubkey) -> Seq<Seq<u8>> {
    seq!["position".spec_bytes(), vault.bytes@, pool.bytes@]
}

/// Seeds of the PDA that owns the position: `"investor_fee_pos_owner"`, the vault.
pub open spec fn spec_position_owner_seeds(vault: Pubkey) -> Seq<Seq<u8>> {
    seq!["investor_fee_pos_owner".spec_bytes(), vault.bytes@]
}

fn key_seed(k: &Pubkey) -> (r: Vec<u8>)
    ensures
        r@ == k.bytes@,
{
    let mut v: Vec<u8> = Vec::new();
    let mut i: usize = 0;
    while i < 32
        invariant
            0 <= i <= 32,
            v@ == k.bytes@.take(i as int),
        decreases 32 - i,
    {
        v.push(k.bytes[i]);
        assert(k.bytes@.take(i + 1) =~= k.bytes@.take(i as int).push(k.bytes@[i as int]));
        i = i + 1;
    }
    assert(k.bytes@.take(32) =~= k.bytes@);
    v
}

fn seeds2(a: Vec<u8>, b: Vec<u8>) -> (r: Vec<Vec<u8>>)
    ensures
        r.deep_view() == seq![a@, b@],
{
    proof {
        assert(a.deep_view() =~= a@);
        assert(b.deep_view() =~= b@);
    }
    let mut r: Vec<Vec<u8>> = Vec::new();
    r.push(a);
    r.push(b);
    assert(r.deep_view() =~= seq![a@, b@]);
    r
}

fn seeds3(a: Vec<u8>, b: Vec<u8>, c: Vec<u8>) -> (r: Vec<Vec<u8>>)
    ensures
        r.deep_view() == seq![a@, b@, c@],
{
    proof {
        assert(a.deep_view() =~= a@);
        assert(b.deep_view() =~= b@);
        assert(c.deep_view() =~= c@);
    }
    let mut r: Vec<Vec<u8>> = Vec::new();
    r.push(a);
    r.push(b);
    r.push(c);
    assert(r.deep_view() =~= seq![a@, b@, c@]);
    r
}

/// Seeds of the policy account.
pub fn policy_seeds(vault: &Pubkey) -> (r: Vec<Vec<u8>>)
    ensures
        r.deep_view() == spec_policy_seeds(*vault),
{
    seeds2("policy".as_bytes_vec(), key_seed(vault))
}

/// Seeds of the progress account.
pub fn progress_seeds(vault: &Pubkey) -> (r: Vec<Vec<u8>>)
    ensures
        r.deep_view() == spec_progress_seeds(*vault),
{
    seeds2("progress".as_bytes_vec(), key_seed(vault))
}

/// Seeds of the position account.
pub fn position_seeds(vault: &Pubkey, pool: &Pubkey) -> (r: Vec<Vec<u8>>)
    ensures
        r.deep_view() == spec_position_seeds(*vault, *pool),
{
    seeds3("position".as_bytes_vec(), key_seed(vault), key_seed(pool))
}

/// Seeds of the PDA that owns the position.
pub fn position_owner_seeds(vault: &Pubkey) -> (r: Vec<Vec<u8>>)
    ensures
        r.deep_view() == spec_position_owner_seeds(*vault),
{
    seeds2("investor_fee_pos_owner".as_bytes_vec(), key_seed(vault))
}

/// Finds the address of an account from its seeds and the program id; a
/// found address passes `check_pda` with its bump.
pub fn find_pda(seeds: &Vec<Vec<u8>>, program_id: &Pubkey) -> (r: Option<(Pubkey, u8)>)
    ensures
        found_view(r) == spec_find_program_address(seeds.deep_view(), program_id.bytes@),
        seeds.len() >= 16 || has_long_seed(seeds.deep_view()) ==> r is None,
        r matches Some((k, b)) ==> spec_create_program_address(
            seeds.deep_view().push(seq![b]),
            program_id.bytes@,
        ) == Some(k.bytes@),
{
    try_find_program_address(seeds, program_id)
}

/// Whether `key` is the address that the seeds, followed by the one-byte
/// `bump`, derive under the program id: the check that a stored bump makes
/// of an account's address.
pub fn check_pda(key: &Pubkey, seeds: Vec<Vec<u8>>, bump: u8, program_id: &Pubkey) -> (r: bool)
    ensures
        r == (spec_create_program_address(seeds.deep_view().push(seq![bump]), program_id.bytes@)
            == Some(key.bytes@)),
{
    let mut with_bump = seeds;
    let mut b: Vec<u8> = Vec::new();
    b.push(bump);
    proof {
        assert(b.deep_view() =~= seq![bump]);
    }
    with_bump.push(b);
    assert(with_bump.deep_view() =~= seeds.deep_view().push(seq![bump]));
    match create_program_address(&with_bump, program_id) {
        Some(k) => k == *key,
        None => false,
    }
}

} // verus!
