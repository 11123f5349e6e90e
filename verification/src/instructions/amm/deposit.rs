//! The instruction that adds liquidity to a pool.

use crate::address::{
    associated_token_address_spec, get_associated_token_address,
    get_associated_token_address_with_program_id, Address,
};
use crate::amm::{event_authority_pda_spec, global_config_pda_spec, lp_mint_pda_spec, PumpAmm};
use crate::constants::{PUMPAMM, TOKEN_2022_PROGRAM, TOKEN_PROGRAM};
use crate::encoding::{le_bytes, put_bytes, put_u64};
use crate::instruction::{instruction_view, Instruction, InstructionView};
use crate::instructions::amm::accounts::{
    liquidity_accounts, liquidity_accounts_spec, LiquidityAddresses, LiquidityAddressesView,
};
use vstd::prelude::*;

verus! {

/// Arguments of a deposit.
#[derive(Debug, Clone, Copy, PartialEq, Eq)]
pub struct Deposit {
    /// Liquidity-provider tokens to be minted.
    pub lp_token_amount_out: u64,
    /// Most base tokens to add.
    pub max_base_amount_in: u64,
    /// Most quote tokens to add.
    pub max_quote_amount_in: u64,
}

impl Deposit {
    /// The eight bytes that select the instruction.
    pub const DISCRIMINATOR: [u8; 8] = [242, 35, 198, 137, 82, 225, 242, 182];

    /// The instruction's bytes: the discriminator, then the three amounts,
    /// each in eight little-endian bytes.
    pub open spec fn encoding(&self) -> Seq<u8> {
        Self::DISCRIMINATOR@ + le_bytes(self.lp_token_amount_out as nat, 8) + le_bytes(
            self.max_base_amount_in as nat,
            8,
        ) + le_bytes(self.max_quote_amount_in as nat, 8)
    }

    /// The instruction's bytes.
    pub fn data(&self) -> (r: Vec<u8>)
        ensures
            r@ == self.encoding(),
    {
        let mut data: Vec<u8> = Vec::with_capacity(256);
        put_bytes(&mut data, Self::DISCRIMINATOR.as_slice());
        put_u64(&mut data, self.lp_token_amount_out);
        put_u64(&mut data, self.max_base_amount_in);
        put_u64(&mut data, self.max_quote_amount_in);
        assert(data@ =~= self.encoding());
        data
    }
}

/// The instruction that `deposit` builds, where every address in it can be
/// derived.
///
/// The user's base and quote token accounts are the ones under the token
/// program, the user's liquidity-provider token account is under the
/// token-2022 program, and the pool's are under the programs of their mints.
pub open spec fn deposit_spec(
    user: Seq<u8>,
    pool: Seq<u8>,
    base_mint: Seq<u8>,
    quote_mint: Seq<u8>,
    base_token_program: Seq<u8>,
    quote_token_program: Seq<u8>,
    args: Deposit,
) -> Option<InstructionView> {
    match lp_mint_pda_spec(pool) {
        Some(lp_mint) => {
            let global_config = global_config_pda_spec();
            let user_base = associated_token_address_spec(user, base_mint, TOKEN_PROGRAM@);
            let user_quote = associated_token_address_spec(user, quote_mint, TOKEN_PROGRAM@);
            let user_lp = associated_token_address_spec(user, lp_mint, TOKEN_2022_PROGRAM@);
            let pool_base = associated_token_address_spec(pool, base_mint, base_token_program);
            let pool_quote = associated_token_address_spec(pool, quote_mint, quote_token_program);
            let event_authority = event_authority_pda_spec();
            if global_config is Some && user_base is Some && user_quote is Some && user_lp is Some
                && pool_base is Some && pool_quote is Some && event_authority is Some {
                Some(
                    InstructionView {
                        program_id: PUMPAMM@,
                        accounts: liquidity_accounts_spec(
                            LiquidityAddressesView {
                                pool,
                                global_config: global_config->0,
                                user,
                                base_mint,
                                quote_mint,
                                lp_mint,
                                user_base: user_base->0,
                                user_quote: user_quote->0,
                                user_lp: user_lp->0,
                                pool_base: pool_base->0,
                                pool_quote: pool_quote->0,
                                event_authority: event_authority->0,
                            },
                        ),
                        data: args.encoding(),
                    },
                )
            } else {
                None
            }
        },
        None => None,
    }
}

/// Builds the instruction by which `user` adds liquidity to `pool`.
///
/// There is none where one of the addresses in it cannot be derived.
pub fn deposit(
    user: &Address,
    pool: &Address,
    base_mint: &Address,
    quote_mint: &Address,
    base_token_program: &Address,
    quote_token_program: &Address,
    args: Deposit,
) -> (r: Option<Instruction>)
    ensures
        instruction_view(r) == deposit_spec(
            user@,
            pool@,
            base_mint@,
            quote_mint@,
            base_token_program@,
            quote_token_program@,
            args,
        ),
{
    let lp_mint = PumpAmm::get_lp_mint_pda(pool)?;
    let global_config = PumpAmm::get_global_config_pda()?;
    let user_base = get_associated_token_address(user, base_mint)?;
    let user_quote = get_associated_token_address(user, quote_mint)?;
    let user_lp = get_associated_token_address_with_program_id(
        user,
        &lp_mint,
        &Address::new(TOKEN_2022_PROGRAM),
    )?;
    let pool_base = get_associated_token_address_with_program_id(
        pool,
        base_mint,
        base_token_program,
    )?;
    let pool_quote = get_associated_token_address_with_program_id(
        pool,
        quote_mint,
        quote_token_program,
    )?;
    let event_authority = PumpAmm::get_event_authority_pda()?;
    let accounts = liquidity_accounts(
        &LiquidityAddresses {
            pool: *pool,
            global_config,
            user: *user,
            base_mint: *base_mint,
            quote_mint: *quote_mint,
            lp_mint,
            user_base,
            user_quote,
            user_lp,
            pool_base,
            pool_quote,
            event_authority,
        },
    );
    let data = args.data();
    Some(Instruction::new_with_bytes(Address::new(PUMPAMM), data.as_slice(), accounts))
}

} // verus!
