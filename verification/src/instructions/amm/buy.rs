//! The instruction that buys base tokens from a pool.
//!
//! The account list is the one of the program version that pays a fee to
//! the coin's creator: it ends with the creator's fee vault and the
//! authority that owns the vault, as the list of a sale does. The accounts
//! are those of a sale, in the same order and with the same flags.

use crate::address::{
    associated_token_address_spec, get_associated_token_address,
    get_associated_token_address_with_program_id, Address,
};
use crate::amm::{
    coin_creator_vault_authority_pda_spec, event_authority_pda_spec, global_config_pda_spec,
    PumpAmm,
};
use crate::constants::{PUMPAMM, TOKEN_PROGRAM};
use crate::encoding::{le_bytes, put_bytes, put_u64};
use crate::instruction::{instruction_view, Instruction, InstructionView};
use crate::instructions::amm::accounts::{
    swap_accounts, swap_accounts_spec, SwapAddresses, SwapAddressesView,
};
use vstd::prelude::*;

verus! {

/// Arguments of a purchase.
#[derive(Debug, Clone, Copy, PartialEq, Eq)]
pub struct Buy {
    /// Base tokens to receive.
    pub base_amount_out: u64,
    /// Most quote tokens to pay.
    pub max_quote_amount_in: u64,
}

impl Buy {
    /// The eight bytes that select the instruction.
    pub const DISCRIMINATOR: [u8; 8] = [102, 6, 61, 18, 1, 218, 235, 234];

    /// The instruction's bytes: the discriminator, then the two amounts,
    /// each in eight little-endian bytes.
    pub open spec fn encoding(&self) -> Seq<u8> {
        Self::DISCRIMINATOR@ + le_bytes(self.base_amount_out as nat, 8) + le_bytes(
            self.max_quote_amount_in as nat,
            8,
        )
    }

    /// The instruction's bytes.
    pub fn data(&self) -> (r: Vec<u8>)
        ensures
            r@ == self.encoding(),
    {
        let mut data: Vec<u8> = Vec::with_capacity(256);
        put_bytes(&mut data, Self::DISCRIMINATOR.as_slice());
        put_u64(&mut data, self.base_amount_out);
        put_u64(&mut data, self.max_quote_amount_in);
        assert(data@ =~= self.encoding());
        data
    }
}

/// The instruction that `buy` builds, where every address in it can be
/// derived.
///
/// The user's two token accounts are the ones under the token program; the
/// pool's, the fee recipient's and the creator's vault are under the
/// programs of their mints.
pub open spec fn buy_spec(
    user: Seq<u8>,
    pool: Seq<u8>,
    base_mint: Seq<u8>,
    quote_mint: Seq<u8>,
    base_token_program: Seq<u8>,
    quote_token_program: Seq<u8>,
    protocol_fee_recipient: Seq<u8>,
    coin_creator: Seq<u8>,
    args: Buy,
) -> Option<InstructionView> {
    let vault_authority = coin_creator_vault_authority_pda_spec(coin_creator);
    let global_config = global_config_pda_spec();
    let user_base = associated_token_address_spec(user, base_mint, TOKEN_PROGRAM@);
    let user_quote = associated_token_address_spec(user, quote_mint, TOKEN_PROGRAM@);
    let pool_base = associated_token_address_spec(pool, base_mint, base_token_program);
    let pool_quote = associated_token_address_spec(pool, quote_mint, quote_token_program);
    let fee_account = associated_token_address_spec(
        protocol_fee_recipient,
        quote_mint,
        quote_token_program,
    );
    let event_authority = event_authority_pda_spec();
    if vault_authority is Some && global_config is Some && user_base is Some && user_quote is Some
        && pool_base is Some && pool_quote is Some && fee_account is Some && event_authority
        is Some {
        match associated_token_address_spec(vault_authority->0, quote_mint, quote_token_program) {
            Some(vault) => Some(
                InstructionView {
                    program_id: PUMPAMM@,
                    accounts: swap_accounts_spec(
                        SwapAddressesView {
                            pool,
                            user,
                            global_config: global_config->0,
                            base_mint,
                            quote_mint,
                            user_base: user_base->0,
                            user_quote: user_quote->0,
                            pool_base: pool_base->0,
                            pool_quote: pool_quote->0,
                            protocol_fee_recipient,
                            fee_account: fee_account->0,
                            base_token_program,
                            quote_token_program,
                            event_authority: event_authority->0,
                            vault,
                            vault_authority: vault_authority->0,
                        },
                    ),
                    data: args.encoding(),
                },
            ),
            None => None,
        }
    } else {
        None
    }
}

/// Builds the instruction by which `user` buys from `pool`.
///
/// There is none where one of the addresses in it cannot be derived.
pub fn buy(
    user: &Address,
    pool: &Address,
    base_mint: &Address,
    quote_mint: &Address,
    base_token_program: &Address,
    quote_token_program: &Address,
    protocol_fee_recipient: &Address,
    coin_creator: &Address,
    args: Buy,
) -> (r: Option<Instruction>)
    ensures
        instruction_view(r) == buy_spec(
            user@,
            pool@,
            base_mint@,
            quote_mint@,
            base_token_program@,
            quote_token_program@,
            protocol_fee_recipient@,
            coin_creator@,
            args,
        ),
{
    let vault_authority = PumpAmm::get_coin_creator_vault_authority_pda(coin_creator)?;
    let global_config = PumpAmm::get_global_config_pda()?;
    let user_base = get_associated_token_address(user, base_mint)?;
    let user_quote = get_associated_token_address(user, quote_mint)?;
    let pool_base = get_associated_token_address_with_program_id(
        pool,
        base_mint,
        base_token_program,
    )?;
    let pool_quote = get_associated_token_address_with_program_id(
        pool,
        quote_mint,
        quote_token_program,
    )?;
    let fee_account = get_associated_token_address_with_program_id(
        protocol_fee_recipient,
        quote_mint,
        quote_token_program,
    )?;
    let event_authority = PumpAmm::get_event_authority_pda()?;
    let vault = get_associated_token_address_with_program_id(
        &vault_authority,
        quote_mint,
        quote_token_program,
    )?;
    let accounts = swap_accounts(
        &SwapAddresses {
            pool: *pool,
            user: *user,
            global_config,
            base_mint: *base_mint,
            quote_mint: *quote_mint,
            user_base,
            user_quote,
            pool_base,
            pool_quote,
            protocol_fee_recipient: *protocol_fee_recipient,
            fee_account,
            base_token_program: *base_token_program,
            quote_token_program: *quote_token_program,
            event_authority,
            vault,
            vault_authority,
        },
    );
    let data = args.data();
    Some(Instruction::new_with_bytes(Address::new(PUMPAMM), data.as_slice(), accounts))
}

} // verus!
