//! Derived addresses: addresses computed from a list of seeds and a program,
//! which no private key stands behind.

use crate::address::{associated_token_program, associated_token_program_id, Address};
use crate::bytes::{le_bytes, push_u64_le};
use vstd::prelude::*;

verus! {

/// The derived address of `seeds` under `program` and the bump that makes the
/// derivation valid, or `None` when there is none: what
/// `solana_address::Address::try_find_program_address` computes.
pub uninterp spec fn program_address(seeds: Seq<Seq<u8>>, program: Seq<u8>) -> Option<
    (Seq<u8>, u8),
>;

/// The seeds as byte strings.
pub open spec fn seed_list(seeds: Seq<Vec<u8>>) -> Seq<Seq<u8>> {
    Seq::new(seeds.len(), |i: int| seeds[i]@)
}

/// What a derivation result holds, as plain values.
pub open spec fn derived_view(derived: Option<(Address, u8)>) -> Option<(Seq<u8>, u8)> {
    match derived {
        Some((address, bump)) => Some((address@, bump)),
        None => None,
    }
}

/// `solana_address::Address::try_find_program_address`: the result is the
/// function of the seeds and the program that `program_address` names. The
/// search hashes the seeds, a candidate bump, the program and a fixed marker,
/// trying the bumps from 255 downwards, and keeps the first hash that is no
/// point of the curve; it reads nothing but its arguments and returns `None`
/// where it finds no such hash or where the seeds are too many or too long.
#[verifier::external_body]
pub(crate) fn try_find_program_address(seeds: &Vec<Vec<u8>>, program: &Address) -> (derived: Option<
    (Address, u8),
>)
    ensures
        derived_view(derived) == program_address(seed_list(seeds@), program@),
{
    let parts: Vec<&[u8]> = seeds.iter().map(|seed| seed.as_slice()).collect();
    let under = solana_address::Address::new_from_array(program.bytes);
    match solana_address::Address::try_find_program_address(&parts, &under) {
        Some((address, bump)) => Some((Address { bytes: address.to_bytes() }, bump)),
        None => None,
    }
}

/// The bytes of the word that opens the seeds of a pool record.
pub open spec fn config_tag() -> Seq<u8> {
    seq![99u8, 111u8, 110u8, 102u8, 105u8, 103u8]
}

/// The bytes of the word that opens the seeds of a pool-share mint.
pub open spec fn mint_lp_tag() -> Seq<u8> {
    seq![109u8, 105u8, 110u8, 116u8, 95u8, 108u8, 112u8]
}

/// The seeds of a pool record: the tag, the pool's seed number, its two mints
/// and the bump.
pub open spec fn config_seeds(seed: u64, mint_x: Seq<u8>, mint_y: Seq<u8>, bump: u8) -> Seq<Seq<u8>> {
    seq![config_tag(), le_bytes(seed as nat, 8), mint_x, mint_y, seq![bump]]
}

/// The seeds of a pool-share mint: the tag, the pool record's address and the
/// bump.
pub open spec fn mint_lp_seeds(config: Seq<u8>, bump: u8) -> Seq<Seq<u8>> {
    seq![mint_lp_tag(), config, seq![bump]]
}

/// The seeds of a vault: the pool record's address, the token ledger's and the
/// asset's mint.
pub open spec fn vault_seeds(config: Seq<u8>, token_program: Seq<u8>, mint: Seq<u8>) -> Seq<Seq<u8>> {
    seq![config, token_program, mint]
}

/// The address of the vault that holds `mint` for the pool at `config`, if the
/// derivation yields one.
pub open spec fn vault_address(config: Seq<u8>, token_program: Seq<u8>, mint: Seq<u8>) -> Option<
    Seq<u8>,
> {
    match program_address(vault_seeds(config, token_program, mint), associated_token_program_id()) {
        Some((address, _)) => Some(address),
        None => None,
    }
}

/// Builds the seeds of a pool record.
pub fn build_config_seeds(seed: u64, mint_x: &Address, mint_y: &Address, bump: u8) -> (seeds: Vec<
    Vec<u8>,
>)
    ensures
        seed_list(seeds@) == config_seeds(seed, mint_x@, mint_y@, bump),
{
    let tag: Vec<u8> = vec![99u8, 111u8, 110u8, 102u8, 105u8, 103u8];
    let mut number: Vec<u8> = Vec::new();
    push_u64_le(&mut number, seed);
    let last: Vec<u8> = vec![bump];
    let seeds: Vec<Vec<u8>> = vec![tag, number, mint_x.to_vec(), mint_y.to_vec(), last];
    proof {
        assert(tag@ =~= config_tag());
        assert(number@ =~= le_bytes(seed as nat, 8));
        assert(last@ =~= seq![bump]);
        assert(seed_list(seeds@) =~= config_seeds(seed, mint_x@, mint_y@, bump));
    }
    seeds
}

/// Builds the seeds of a pool-share mint.
pub fn build_mint_lp_seeds(config: &Address, bump: u8) -> (seeds: Vec<Vec<u8>>)
    ensures
        seed_list(seeds@) == mint_lp_seeds(config@, bump),
{
    let tag: Vec<u8> = vec![109u8, 105u8, 110u8, 116u8, 95u8, 108u8, 112u8];
    let last: Vec<u8> = vec![bump];
    let seeds: Vec<Vec<u8>> = vec![tag, config.to_vec(), last];
    proof {
        assert(tag@ =~= mint_lp_tag());
        assert(last@ =~= seq![bump]);
        assert(seed_list(seeds@) =~= mint_lp_seeds(config@, bump));
    }
    seeds
}

/// Derives the address of the vault that holds `mint` for the pool at
/// `config`.
pub fn derive_vault(config: &Address, token_program: &Address, mint: &Address) -> (vault: Option<
    Address,
>)
    ensures
        vault is Some <==> vault_address(config@, token_program@, mint@) is Some,
        vault is Some ==> vault->Some_0@ == vault_address(
            config@,
            token_program@,
            mint@,
        )->Some_0,
{
    let seeds: Vec<Vec<u8>> = vec![config.to_vec(), token_program.to_vec(), mint.to_vec()];
    proof {
        assert(seed_list(seeds@) =~= vault_seeds(config@, token_program@, mint@));
    }
    let under = associated_token_program();
    match try_find_program_address(&seeds, &under) {
        Some((address, _)) => Some(address),
        None => None,
    }
}

} // verus!
