//! The account that describes a pool.

use crate::address::Address;
use crate::common::codec::{address_at, read_address, read_u64, u64_at};
use crate::encoding::{le_value, lemma_byte_ranges, lemma_le_bytes_of_value, read_le};
use vstd::prelude::*;

verus! {

/// A pool of the market maker.
#[derive(Debug, Clone, Copy, PartialEq, Eq)]
pub struct PoolAccount {
    /// Bump seed of the pool's address.
    pub pool_bump: u8,
    /// Index of the pool among those of its creator and mints.
    pub index: u16,
    /// Creator of the pool.
    pub creator: Address,
    /// Mint of the base token.
    pub base_mint: Address,
    /// Mint of the quote token.
    pub quote_mint: Address,
    /// Mint of the liquidity-provider token.
    pub lp_mint: Address,
    /// The pool's account of base tokens.
    pub pool_base_token_account: Address,
    /// The pool's account of quote tokens.
    pub pool_quote_token_account: Address,
    /// Liquidity-provider tokens in circulation, burns and lock-ups left
    /// out.
    pub lp_supply: u64,
}

/// What a pool account holds.
pub struct PoolAccountView {
    pub pool_bump: u8,
    pub index: u16,
    pub creator: Seq<u8>,
    pub base_mint: Seq<u8>,
    pub quote_mint: Seq<u8>,
    pub lp_mint: Seq<u8>,
    pub pool_base_token_account: Seq<u8>,
    pub pool_quote_token_account: Seq<u8>,
    pub lp_supply: u64,
}

impl View for PoolAccount {
    type V = PoolAccountView;

    open spec fn view(&self) -> PoolAccountView {
        PoolAccountView {
            pool_bump: self.pool_bump,
            index: self.index,
            creator: self.creator@,
            base_mint: self.base_mint@,
            quote_mint: self.quote_mint@,
            lp_mint: self.lp_mint@,
            pool_base_token_account: self.pool_base_token_account@,
            pool_quote_token_account: self.pool_quote_token_account@,
            lp_supply: self.lp_supply,
        }
    }
}

/// The pool that the data of an account describe: after the first eight
/// bytes, the fields in order; what follows them is not read. None where
/// the data are too short to hold them.
pub open spec fn parse_pool(data: Seq<u8>) -> Option<PoolAccountView> {
    if data.len() < PoolAccount::DATA_LEN {
        None
    } else {
        Some(
            PoolAccountView {
                pool_bump: data[8],
                index: le_value(data.subrange(9, 11)) as u16,
                creator: address_at(data, 11),
                base_mint: address_at(data, 43),
                quote_mint: address_at(data, 75),
                lp_mint: address_at(data, 107),
                pool_base_token_account: address_at(data, 139),
                pool_quote_token_account: address_at(data, 171),
                lp_supply: u64_at(data, 203),
            },
        )
    }
}

impl PoolAccount {
    /// Number of bytes that the data of a pool account hold at least: eight
    /// that name the kind of account, and the fields.
    pub const DATA_LEN: usize = 211;

    /// A pool with these fields.
    pub fn new(
        pool_bump: u8,
        index: u16,
        creator: Address,
        base_mint: Address,
        quote_mint: Address,
        lp_mint: Address,
        pool_base_token_account: Address,
        pool_quote_token_account: Address,
        lp_supply: u64,
    ) -> (r: PoolAccount)
        ensures
            r == (PoolAccount {
                pool_bump,
                index,
                creator,
                base_mint,
                quote_mint,
                lp_mint,
                pool_base_token_account,
                pool_quote_token_account,
                lp_supply,
            }),
    {
        PoolAccount {
            pool_bump,
            index,
            creator,
            base_mint,
            quote_mint,
            lp_mint,
            pool_base_token_account,
            pool_quote_token_account,
            lp_supply,
        }
    }

    /// Reads a pool from the data of its account.
    pub fn from_account_data(data: &[u8]) -> (r: Option<PoolAccount>)
        ensures
            match r {
                Some(pool) => parse_pool(data@) == Some(pool@),
                None => parse_pool(data@) is None,
            },
    {
        if data.len() < Self::DATA_LEN {
            return None;
        }
        proof {
            lemma_byte_ranges();
            lemma_le_bytes_of_value(data@.subrange(9, 11));
        }
        let index: u64 = read_le(data, 9, 2);
        Some(
            PoolAccount {
                pool_bump: data[8],
                index: index as u16,
                creator: read_address(data, 11),
                base_mint: read_address(data, 43),
                quote_mint: read_address(data, 75),
                lp_mint: read_address(data, 107),
                pool_base_token_account: read_address(data, 139),
                pool_quote_token_account: read_address(data, 171),
                lp_supply: read_u64(data, 203),
            },
        )
    }
}

} // verus!
