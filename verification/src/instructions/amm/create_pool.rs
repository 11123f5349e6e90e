//! The instruction that creates a pool.

use crate::address::{
    associated_token_address_spec, get_associated_token_address_with_program_id, Address,
};
use crate::amm::{
    event_authority_pda_spec, global_config_pda_spec, lp_mint_pda_spec, pool_pda_spec, PumpAmm,
};
use crate::constants::{PUMPAMM, TOKEN_2022_PROGRAM};
use crate::encoding::{le_bytes, put_bytes, put_u16, put_u64};
use crate::instruction::{instruction_view, Instruction, InstructionView};
use crate::instructions::amm::accounts::{
    create_pool_accounts, create_pool_accounts_spec, CreatePoolAddresses,
    CreatePoolAddressesView,
};
use vstd::prelude::*;

verus! {

/// Arguments of a pool's creation.
#[derive(Debug, Clone, Copy, PartialEq, Eq)]
pub struct CreatePool {
    /// Index of the pool among those of its creator and mints.
    pub index: u16,
    /// Base tokens to start the pool with.
    pub base_amount_in: u64,
    /// Quote tokens to start the pool with.
    pub quote_amount_in: u64,
    /// Creator of the coin, who earns the creator fee.
    pub coin_creator: Address,
}

impl CreatePool {
    /// The eight bytes that select the instruction.
    pub const DISCRIMINATOR: [u8; 8] = [233, 146, 209, 142, 207, 104, 64, 188];

    /// The instruction's bytes: the discriminator, the index in two
    /// little-endian bytes, the two amounts in eight each, and the 32 bytes
    /// of the creator's address.
    pub open spec fn encoding(&self) -> Seq<u8> {
        Self::DISCRIMINATOR@ + le_bytes(self.index as nat, 2) + le_bytes(
            self.base_amount_in as nat,
            8,
        ) + le_bytes(self.quote_amount_in as nat, 8) + self.coin_creator@
    }

    /// The instruction's bytes.
    pub fn data(&self) -> (r: Vec<u8>)
        ensures
            r@ == self.encoding(),
    {
        let mut data: Vec<u8> = Vec::with_capacity(256);
        put_bytes(&mut data, Self::DISCRIMINATOR.as_slice());
        put_u16(&mut data, self.index);
        put_u64(&mut data, self.base_amount_in);
        put_u64(&mut data, self.quote_amount_in);
        put_bytes(&mut data, self.coin_creator.bytes.as_slice());
        assert(data@ =~= self.encoding());
        data
    }
}

/// The instruction that `create_pool` builds, where every address in it can
/// be derived.
///
/// The pool's address comes from the index, the creator and the two mints;
/// the liquidity-provider mint from the pool; the creator's
/// liquidity-provider token account is under the token-2022 program.
pub open spec fn create_pool_spec(
    creator: Seq<u8>,
    base_mint: Seq<u8>,
    quote_mint: Seq<u8>,
    base_token_program: Seq<u8>,
    quote_token_program: Seq<u8>,
    args: CreatePool,
) -> Option<InstructionView> {
    match pool_pda_spec(args.index, creator, base_mint, quote_mint) {
        Some(pool) => match lp_mint_pda_spec(pool) {
            Some(lp_mint) => {
                let global_config = global_config_pda_spec();
                let creator_base = associated_token_address_spec(
                    creator,
                    base_mint,
                    base_token_program,
                );
                let creator_quote = associated_token_address_spec(
                    creator,
                    quote_mint,
                    quote_token_program,
                );
                let creator_lp = associated_token_address_spec(
                    creator,
                    lp_mint,
                    TOKEN_2022_PROGRAM@,
                );
                let pool_base = associated_token_address_spec(pool, base_mint, base_token_program);
                let pool_quote = associated_token_address_spec(
                    pool,
                    quote_mint,
                    quote_token_program,
                );
                let event_authority = event_authority_pda_spec();
                if global_config is Some && creator_base is Some && creator_quote is Some
                    && creator_lp is Some && pool_base is Some && pool_quote is Some
                    && event_authority is Some {
                    Some(
                        InstructionView {
                            program_id: PUMPAMM@,
                            accounts: create_pool_accounts_spec(
                                CreatePoolAddressesView {
                                    pool,
                                    global_config: global_config->0,
                                    creator,
                                    base_mint,
                                    quote_mint,
                                    lp_mint,
                                    creator_base: creator_base->0,
                                    creator_quote: creator_quote->0,
                                    creator_lp: creator_lp->0,
                                    pool_base: pool_base->0,
                                    pool_quote: pool_quote->0,
                                    base_token_program,
                                    quote_token_program,
                                    event_authority: event_authority->0,
                                },
                            ),
                            data: args.encoding(),
                        },
                    )
                } else {
                    None
                }
            },
            None => None,
        },
        None => None,
    }
}

/// Builds the instruction by which `creator` creates a pool for the two
/// mints.
///
/// There is none where one of the addresses in it cannot be derived.
pub fn create_pool(
    creator: &Address,
    base_mint: &Address,
    quote_mint: &Address,
    base_token_program: &Address,
    quote_token_program: &Address,
    args: CreatePool,
) -> (r: Option<Instruction>)
    ensures
        instruction_view(r) == create_pool_spec(
            creator@,
            base_mint@,
            quote_mint@,
            base_token_program@,
            quote_token_program@,
            args,
        ),
{
    let pool = PumpAmm::get_pool_pda(args.index, creator, base_mint, quote_mint)?;
    let lp_mint = PumpAmm::get_lp_mint_pda(&pool)?;
    let global_config = PumpAmm::get_global_config_pda()?;
    let creator_base = get_associated_token_address_with_program_id(
        creator,
        base_mint,
        base_token_program,
    )?;
    let creator_quote = get_associated_token_address_with_program_id(
        creator,
        quote_mint,
        quote_token_program,
    )?;
    let creator_lp = get_associated_token_address_with_program_id(
        creator,
        &lp_mint,
        &Address::new(TOKEN_2022_PROGRAM),
    )?;
    let pool_base = get_associated_token_address_with_program_id(
        &pool,
        base_mint,
        base_token_program,
    )?;
    let pool_quote = get_associated_token_address_with_program_id(
        &pool,
        quote_mint,
        quote_token_program,
    )?;
    let event_authority = PumpAmm::get_event_authority_pda()?;
    let accounts = create_pool_accounts(
        &CreatePoolAddresses {
            pool,
            global_config,
            creator: *creator,
            base_mint: *base_mint,
            quote_mint: *quote_mint,
            lp_mint,
            creator_base,
            creator_quote,
            creator_lp,
            pool_base,
            pool_quote,
            base_token_program: *base_token_program,
            quote_token_program: *quote_token_program,
            event_authority,
        },
    );
    let data = args.data();
    Some(Instruction::new_with_bytes(Address::new(PUMPAMM), data.as_slice(), accounts))
}

} // verus!
