//! Whole operations: the quote for the pool's balances, and the
//! instructions that carry the quoted amounts.

use crate::accounts::amm::GlobalConfigAccount;
use crate::address::Address;
use crate::amm::assemble::{
    buy_instructions_spec, deposit_instructions_spec, fee_recipient_spec,
    instructions_result_view, sell_instructions_spec, withdraw_instructions_spec, PoolSnapshot,
};
use crate::amm::PumpAmm;
use crate::common::types::{SwapDirection, SwapInput};
use crate::error::ClientError;
use crate::instruction::{Instruction, InstructionView};
use crate::utils::amm::buy::{
    buy_base_input, buy_base_input_result, buy_quote_input, buy_quote_input_result,
};
use crate::utils::amm::deposit::{deposit_lp_token, deposit_lp_token_result};
use crate::utils::amm::sell::{
    sell_base_input, sell_base_input_result, sell_quote_input, sell_quote_input_result,
};
use crate::utils::amm::withdraw::{withdraw_lp_token, withdraw_lp_token_result};
use vstd::prelude::*;

verus! {

/// The two amounts that a swap's instruction carries: the base amount, and
/// the limit on the quote amount after slippage.
///
/// The quote is the one for the amount that the caller fixes and the way
/// the swap goes. Where the caller fixes the base amount, that amount is
/// carried as it is.
pub open spec fn swap_amounts_spec(
    amount: u64,
    slippage: u8,
    swap_input: SwapInput,
    swap_direction: SwapDirection,
    base_reserve: u64,
    quote_reserve: u64,
    config: GlobalConfigAccount,
    coin_creator_fee_bps: u64,
    coin_creator: Seq<u8>,
) -> Result<(u64, u64), ClientError> {
    let lp = config.lp_fee_basis_points;
    let protocol = config.protocol_fee_basis_points;
    match (swap_input, swap_direction) {
        (SwapInput::Base, SwapDirection::QuoteToBase) => match buy_base_input_result(
            amount,
            slippage,
            base_reserve,
            quote_reserve,
            lp,
            protocol,
        ) {
            Ok((_, _, max_quote)) => Ok((amount, max_quote)),
            Err(e) => Err(e),
        },
        (SwapInput::Base, SwapDirection::BaseToQuote) => match sell_base_input_result(
            amount,
            slippage,
            base_reserve,
            quote_reserve,
            lp,
            protocol,
            coin_creator_fee_bps,
            coin_creator,
        ) {
            Ok((_, _, min_quote)) => Ok((amount, min_quote)),
            Err(e) => Err(e),
        },
        (SwapInput::Quote, SwapDirection::QuoteToBase) => match buy_quote_input_result(
            amount,
            slippage,
            base_reserve,
            quote_reserve,
            lp,
            protocol,
        ) {
            Ok((_, base, max_quote)) => Ok((base, max_quote)),
            Err(e) => Err(e),
        },
        (SwapInput::Quote, SwapDirection::BaseToQuote) => match sell_quote_input_result(
            amount,
            slippage,
            base_reserve,
            quote_reserve,
            lp,
            protocol,
            coin_creator_fee_bps,
            coin_creator,
        ) {
            Ok((_, base, min_quote)) => Ok((base, min_quote)),
            Err(e) => Err(e),
        },
    }
}

/// The instructions of a swap: those of a purchase or of a sale, for the
/// amounts of `swap_amounts_spec`, with the first fee recipient of the
/// configuration.
pub open spec fn swap_spec(
    payer: Seq<u8>,
    pool: Seq<u8>,
    amount: u64,
    slippage: u8,
    swap_input: SwapInput,
    swap_direction: SwapDirection,
    config: GlobalConfigAccount,
    snapshot: PoolSnapshot,
    base_reserve: u64,
    quote_reserve: u64,
    coin_creator_fee_bps: u64,
    coin_creator: Seq<u8>,
    create_ata: bool,
) -> Result<Seq<InstructionView>, ClientError> {
    match swap_amounts_spec(
        amount,
        slippage,
        swap_input,
        swap_direction,
        base_reserve,
        quote_reserve,
        config,
        coin_creator_fee_bps,
        coin_creator,
    ) {
        Err(e) => Err(e),
        Ok((base, limit)) => match swap_direction {
            SwapDirection::QuoteToBase => buy_instructions_spec(
                payer,
                pool,
                base,
                limit,
                fee_recipient_spec(None, config),
                snapshot,
                coin_creator,
                create_ata,
            ),
            SwapDirection::BaseToQuote => sell_instructions_spec(
                payer,
                pool,
                base,
                limit,
                fee_recipient_spec(None, config),
                snapshot,
                coin_creator,
                create_ata,
            ),
        },
    }
}

/// The instructions of a deposit for `lp_token` liquidity-provider tokens:
/// those for the limits that `deposit_lp_token` quotes.
pub open spec fn deposit_spec(
    payer: Seq<u8>,
    pool: Seq<u8>,
    lp_token: u64,
    slippage: u8,
    snapshot: PoolSnapshot,
    base_reserve: u64,
    quote_reserve: u64,
    user_pool_token_account_exists: bool,
    create_ata: bool,
) -> Result<Seq<InstructionView>, ClientError> {
    match deposit_lp_token_result(
        lp_token,
        slippage,
        base_reserve,
        quote_reserve,
        snapshot.account.lp_supply,
    ) {
        Err(e) => Err(e),
        Ok((max_base, max_quote)) => deposit_instructions_spec(
            payer,
            pool,
            lp_token,
            max_base,
            max_quote,
            snapshot,
            user_pool_token_account_exists,
            create_ata,
        ),
    }
}

/// The instructions of a withdrawal of `lp_token` liquidity-provider
/// tokens: those for the limits that `withdraw_lp_token` quotes.
pub open spec fn withdraw_spec(
    payer: Seq<u8>,
    pool: Seq<u8>,
    lp_token: u64,
    slippage: u8,
    snapshot: PoolSnapshot,
    base_reserve: u64,
    quote_reserve: u64,
    user_base_token_account_exists: bool,
    user_quote_token_account_exists: bool,
) -> Result<Seq<InstructionView>, ClientError> {
    match withdraw_lp_token_result(
        lp_token,
        slippage,
        base_reserve,
        quote_reserve,
        snapshot.account.lp_supply,
    ) {
        Err(e) => Err(e),
        Ok((_, _, min_base, min_quote)) => withdraw_instructions_spec(
            payer,
            pool,
            lp_token,
            min_base,
            min_quote,
            snapshot,
            user_base_token_account_exists,
            user_quote_token_account_exists,
        ),
    }
}

/// Quotes a swap and returns the two amounts that its instruction carries:
/// the base amount, and the limit on the quote amount after slippage.
pub fn swap_amounts(
    amount: u64,
    slippage: u8,
    swap_input: SwapInput,
    swap_direction: SwapDirection,
    base_reserve: u64,
    quote_reserve: u64,
    config: &GlobalConfigAccount,
    coin_creator_fee_bps: u64,
    coin_creator: &Address,
) -> (r: Result<(u64, u64), ClientError>)
    ensures
        r == swap_amounts_spec(
            amount,
            slippage,
            swap_input,
            swap_direction,
            base_reserve,
            quote_reserve,
            *config,
            coin_creator_fee_bps,
            coin_creator@,
        ),
{
    let lp: u64 = config.lp_fee_basis_points;
    let protocol: u64 = config.protocol_fee_basis_points;
    match swap_input {
        SwapInput::Base => match swap_direction {
            SwapDirection::QuoteToBase => {
                let (_, _, max_quote) = buy_base_input(
                    amount,
                    slippage,
                    base_reserve,
                    quote_reserve,
                    lp,
                    protocol,
                )?;
                Ok((amount, max_quote))
            },
            SwapDirection::BaseToQuote => {
                let (_, _, min_quote) = sell_base_input(
                    amount,
                    slippage,
                    base_reserve,
                    quote_reserve,
                    lp,
                    protocol,
                    coin_creator_fee_bps,
                    coin_creator,
                )?;
                Ok((amount, min_quote))
            },
        },
        SwapInput::Quote => match swap_direction {
            SwapDirection::QuoteToBase => {
                let (_, base, max_quote) = buy_quote_input(
                    amount,
                    slippage,
                    base_reserve,
                    quote_reserve,
                    lp,
                    protocol,
                )?;
                Ok((base, max_quote))
            },
            SwapDirection::BaseToQuote => {
                let (_, base, min_quote) = sell_quote_input(
                    amount,
                    slippage,
                    base_reserve,
                    quote_reserve,
                    lp,
                    protocol,
                    coin_creator_fee_bps,
                    coin_creator,
                )?;
                Ok((base, min_quote))
            },
        },
    }
}

impl PumpAmm {
    /// Quotes a swap against the pool's balances and builds its
    /// instructions.
    ///
    /// Fails as the quote fails, and where an address cannot be derived.
    pub fn swap(
        &self,
        pool: Address,
        amount: u64,
        slippage: u8,
        swap_input: SwapInput,
        swap_direction: SwapDirection,
        config: &GlobalConfigAccount,
        snapshot: &PoolSnapshot,
        pool_base_balance: u64,
        pool_quote_balance: u64,
        coin_creator_fee_bps: u64,
        coin_creator: &Address,
        create_ata: bool,
    ) -> (r: Result<Vec<Instruction>, ClientError>)
        ensures
            instructions_result_view(r) == swap_spec(
                self.payer@,
                pool@,
                amount,
                slippage,
                swap_input,
                swap_direction,
                *config,
                *snapshot,
                pool_base_balance,
                pool_quote_balance,
                coin_creator_fee_bps,
                coin_creator@,
                create_ata,
            ),
    {
        let (base, limit) = swap_amounts(
            amount,
            slippage,
            swap_input,
            swap_direction,
            pool_base_balance,
            pool_quote_balance,
            config,
            coin_creator_fee_bps,
            coin_creator,
        )?;
        match swap_direction {
            SwapDirection::QuoteToBase => self.get_buy_instructions(
                pool,
                base,
                limit,
                None,
                config,
                snapshot,
                coin_creator,
                create_ata,
            ),
            SwapDirection::BaseToQuote => self.get_sell_instructions(
                pool,
                base,
                limit,
                None,
                config,
                snapshot,
                coin_creator,
                create_ata,
            ),
        }
    }

    /// Quotes a deposit against the pool's balances and builds its
    /// instructions.
    ///
    /// Fails as the quote fails, and where an address cannot be derived.
    pub fn deposit(
        &self,
        pool: Address,
        lp_token: u64,
        slippage: u8,
        snapshot: &PoolSnapshot,
        pool_base_balance: u64,
        pool_quote_balance: u64,
        user_pool_token_account_exists: bool,
        create_ata: bool,
    ) -> (r: Result<Vec<Instruction>, ClientError>)
        ensures
            instructions_result_view(r) == deposit_spec(
                self.payer@,
                pool@,
                lp_token,
                slippage,
                *snapshot,
                pool_base_balance,
                pool_quote_balance,
                user_pool_token_account_exists,
                create_ata,
            ),
    {
        let (max_base, max_quote) = deposit_lp_token(
            lp_token,
            slippage,
            pool_base_balance,
            pool_quote_balance,
            snapshot.account.lp_supply,
        )?;
        self.get_deposit_instructions(
            pool,
            lp_token,
            max_base,
            max_quote,
            snapshot,
            user_pool_token_account_exists,
            create_ata,
        )
    }

    /// Quotes a withdrawal against the pool's balances and builds its
    /// instructions.
    ///
    /// Fails as the quote fails, and where an address cannot be derived.
    pub fn withdraw(
        &self,
        pool: Address,
        lp_token: u64,
        slippage: u8,
        snapshot: &PoolSnapshot,
        pool_base_balance: u64,
        pool_quote_balance: u64,
        user_base_token_account_exists: bool,
        user_quote_token_account_exists: bool,
    ) -> (r: Result<Vec<Instruction>, ClientError>)
        ensures
            instructions_result_view(r) == withdraw_spec(
                self.payer@,
                pool@,
                lp_token,
                slippage,
                *snapshot,
                pool_base_balance,
                pool_quote_balance,
                user_base_token_account_exists,
                user_quote_token_account_exists,
            ),
    {
        let (_, _, min_base, min_quote) = withdraw_lp_token(
            lp_token,
            slippage,
            pool_base_balance,
            pool_quote_balance,
            snapshot.account.lp_supply,
        )?;
        self.get_withdraw_instructions(
            pool,
            lp_token,
            min_base,
            min_quote,
            snapshot,
            user_base_token_account_exists,
            user_quote_token_account_exists,
        )
    }
}

} // verus!
