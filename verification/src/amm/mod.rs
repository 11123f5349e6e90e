//! The market maker's addresses, and the instructions that act on a pool.

pub mod assemble;
pub mod operations;
pub mod outside;

use crate::address::{address_view, derive_address, derived_address, seeds_view, Address};
use crate::constants::{
    CREATOR_VAULT, EVENT_AUTHORITY_SEED, GLOBAL_CONFIG_SEED, POOL_AUTHORITY_SEED,
    POOL_LP_MINT_SEED, POOL_SEED, PUMPAMM, PUMPFUN, USER_VOLUME_ACCUMULATOR_SEED,
};
use crate::encoding::{
    bytes_to_vec, le_bytes, lemma_byte_ranges, lemma_le_bytes_injective, put_u16,
};
use vstd::prelude::*;

verus! {

/// A client of the market maker, acting for one payer.
#[derive(Debug, Clone, Copy, PartialEq, Eq)]
pub struct PumpAmm {
    /// Address of the account that pays for and signs the transactions.
    pub payer: Address,
}

/// Seeds of the global configuration address.
pub open spec fn global_config_seeds() -> Seq<Seq<u8>> {
    seq![GLOBAL_CONFIG_SEED@]
}

/// Seeds of the pool that `owner` creates at `index` for the two mints; the
/// index stands in two little-endian bytes.
pub open spec fn pool_seeds(
    index: u16,
    owner: Seq<u8>,
    base_mint: Seq<u8>,
    quote_mint: Seq<u8>,
) -> Seq<Seq<u8>> {
    seq![POOL_SEED@, le_bytes(index as nat, 2), owner, base_mint, quote_mint]
}

/// Seeds of the liquidity-provider mint of `pool`.
pub open spec fn lp_mint_seeds(pool: Seq<u8>) -> Seq<Seq<u8>> {
    seq![POOL_LP_MINT_SEED@, pool]
}

/// Seeds of the pool authority of `mint`.
pub open spec fn pool_authority_seeds(mint: Seq<u8>) -> Seq<Seq<u8>> {
    seq![POOL_AUTHORITY_SEED@, mint]
}

/// Seeds of the event authority.
pub open spec fn event_authority_seeds() -> Seq<Seq<u8>> {
    seq![EVENT_AUTHORITY_SEED@]
}

/// Seeds of the fee-vault authority of `coin_creator`.
pub open spec fn coin_creator_vault_authority_seeds(coin_creator: Seq<u8>) -> Seq<Seq<u8>> {
    seq![CREATOR_VAULT@, coin_creator]
}

/// Seeds of the volume accumulator of `user`.
pub open spec fn user_volume_accumulator_seeds(user: Seq<u8>) -> Seq<Seq<u8>> {
    seq![USER_VOLUME_ACCUMULATOR_SEED@, user]
}

/// The global configuration address.
pub open spec fn global_config_pda_spec() -> Option<Seq<u8>> {
    derived_address(global_config_seeds(), PUMPAMM@)
}

/// The address of the pool that `owner` creates at `index` for the two
/// mints.
pub open spec fn pool_pda_spec(
    index: u16,
    owner: Seq<u8>,
    base_mint: Seq<u8>,
    quote_mint: Seq<u8>,
) -> Option<Seq<u8>> {
    derived_address(pool_seeds(index, owner, base_mint, quote_mint), PUMPAMM@)
}

/// The address of the liquidity-provider mint of `pool`.
pub open spec fn lp_mint_pda_spec(pool: Seq<u8>) -> Option<Seq<u8>> {
    derived_address(lp_mint_seeds(pool), PUMPAMM@)
}

/// The address of the pool authority of `mint`, which the bonding-curve
/// program owns.
pub open spec fn pool_authority_pda_spec(mint: Seq<u8>) -> Option<Seq<u8>> {
    derived_address(pool_authority_seeds(mint), PUMPFUN@)
}

/// The address of the event authority.
pub open spec fn event_authority_pda_spec() -> Option<Seq<u8>> {
    derived_address(event_authority_seeds(), PUMPAMM@)
}

/// The address of the fee-vault authority of `coin_creator`.
pub open spec fn coin_creator_vault_authority_pda_spec(coin_creator: Seq<u8>) -> Option<Seq<u8>> {
    derived_address(coin_creator_vault_authority_seeds(coin_creator), PUMPAMM@)
}

/// The address of the volume accumulator of `user`.
pub open spec fn user_volume_accumulator_pda_spec(user: Seq<u8>) -> Option<Seq<u8>> {
    derived_address(user_volume_accumulator_seeds(user), PUMPAMM@)
}

/// Pools that differ in their index, their owner or one of their mints have
/// different seeds.
pub proof fn lemma_pool_seeds_injective(
    index1: u16,
    owner1: Seq<u8>,
    base_mint1: Seq<u8>,
    quote_mint1: Seq<u8>,
    index2: u16,
    owner2: Seq<u8>,
    base_mint2: Seq<u8>,
    quote_mint2: Seq<u8>,
)
    requires
        pool_seeds(index1, owner1, base_mint1, quote_mint1) == pool_seeds(
            index2,
            owner2,
            base_mint2,
            quote_mint2,
        ),
    ensures
        index1 == index2,
        owner1 == owner2,
        base_mint1 == base_mint2,
        quote_mint1 == quote_mint2,
{
    let seeds1 = pool_seeds(index1, owner1, base_mint1, quote_mint1);
    let seeds2 = pool_seeds(index2, owner2, base_mint2, quote_mint2);
    assert(seeds1[1] == seeds2[1]);
    assert(seeds1[2] == seeds2[2]);
    assert(seeds1[3] == seeds2[3]);
    assert(seeds1[4] == seeds2[4]);
    lemma_byte_ranges();
    lemma_le_bytes_injective(index1 as nat, index2 as nat, 2);
}

/// Derives the address for a fixed seed alone.
fn derive_from_seed(seed: &[u8], program_id: &[u8; 32]) -> (r: Option<Address>)
    ensures
        address_view(r) == derived_address(seq![seed@], program_id@),
{
    let mut seeds: Vec<Vec<u8>> = Vec::with_capacity(1);
    seeds.push(bytes_to_vec(seed));
    assert(seeds_view(seeds@) =~= seq![seed@]);
    derive_address(&seeds, &Address::new(*program_id))
}

/// Derives the address for a fixed seed followed by one address.
fn derive_from_seed_and_address(seed: &[u8], address: &Address, program_id: &[u8; 32]) -> (r:
    Option<Address>)
    ensures
        address_view(r) == derived_address(seq![seed@, address@], program_id@),
{
    let mut seeds: Vec<Vec<u8>> = Vec::with_capacity(2);
    seeds.push(bytes_to_vec(seed));
    seeds.push(address.to_vec());
    assert(seeds_view(seeds@) =~= seq![seed@, address@]);
    derive_address(&seeds, &Address::new(*program_id))
}

impl PumpAmm {
    /// A client that acts for `payer`.
    pub fn new(payer: Address) -> (r: PumpAmm)
        ensures
            r.payer == payer,
    {
        PumpAmm { payer }
    }

    /// Derives the global configuration address.
    pub fn get_global_config_pda() -> (r: Option<Address>)
        ensures
            address_view(r) == global_config_pda_spec(),
    {
        derive_from_seed(GLOBAL_CONFIG_SEED.as_slice(), &PUMPAMM)
    }

    /// Derives the address of the pool that `owner` creates at `index` for
    /// the two mints.
    pub fn get_pool_pda(index: u16, owner: &Address, base_mint: &Address, quote_mint: &Address) -> (r:
        Option<Address>)
        ensures
            address_view(r) == pool_pda_spec(index, owner@, base_mint@, quote_mint@),
    {
        let mut index_bytes: Vec<u8> = Vec::with_capacity(2);
        put_u16(&mut index_bytes, index);
        assert(index_bytes@ =~= le_bytes(index as nat, 2));
        let mut seeds: Vec<Vec<u8>> = Vec::with_capacity(5);
        seeds.push(bytes_to_vec(POOL_SEED.as_slice()));
        seeds.push(index_bytes);
        seeds.push(owner.to_vec());
        seeds.push(base_mint.to_vec());
        seeds.push(quote_mint.to_vec());
        assert(seeds_view(seeds@) =~= pool_seeds(index, owner@, base_mint@, quote_mint@));
        derive_address(&seeds, &Address::new(PUMPAMM))
    }

    /// Derives the address of the liquidity-provider mint of `pool`.
    pub fn get_lp_mint_pda(pool: &Address) -> (r: Option<Address>)
        ensures
            address_view(r) == lp_mint_pda_spec(pool@),
    {
        derive_from_seed_and_address(POOL_LP_MINT_SEED.as_slice(), pool, &PUMPAMM)
    }

    /// Derives the address of the pool authority of `mint`.
    pub fn get_pool_authority_pda(mint: &Address) -> (r: Option<Address>)
        ensures
            address_view(r) == pool_authority_pda_spec(mint@),
    {
        derive_from_seed_and_address(POOL_AUTHORITY_SEED.as_slice(), mint, &PUMPFUN)
    }

    /// Derives the address of the event authority.
    pub fn get_event_authority_pda() -> (r: Option<Address>)
        ensures
            address_view(r) == event_authority_pda_spec(),
    {
        derive_from_seed(EVENT_AUTHORITY_SEED.as_slice(), &PUMPAMM)
    }

    /// Derives the address of the fee-vault authority of `coin_creator`.
    pub fn get_coin_creator_vault_authority_pda(coin_creator: &Address) -> (r: Option<Address>)
        ensures
            address_view(r) == coin_creator_vault_authority_pda_spec(coin_creator@),
    {
        derive_from_seed_and_address(CREATOR_VAULT.as_slice(), coin_creator, &PUMPAMM)
    }

    /// Derives the address of the volume accumulator of `user`.
    pub fn get_user_volume_accumulator_pda(user: &Address) -> (r: Option<Address>)
        ensures
            address_view(r) == user_volume_accumulator_pda_spec(user@),
    {
        derive_from_seed_and_address(USER_VOLUME_ACCUMULATOR_SEED.as_slice(), user, &PUMPAMM)
    }
}

} // verus!
