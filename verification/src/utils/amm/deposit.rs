//! Quotes for adding liquidity to a pool.

use crate::error::ClientError;
use crate::utils::amm::arith::lemma_u64_product_fits;
use crate::utils::amm::{
    ceil_div, ceil_div_spec, max_with_slippage, max_with_slippage_result, narrow, narrow_u128,
};
use vstd::prelude::*;

verus! {

/// Tokens a depositor must add to a reserve to be minted `lp_token` of a
/// supply of `total_lp_tokens`: the proportional share
/// `reserve * lp_token / total_lp_tokens`, rounded up.
pub open spec fn deposit_amount_spec(reserve: int, lp_token: int, total_lp_tokens: int) -> int {
    ceil_div_spec(reserve * lp_token, total_lp_tokens)
}

/// The share of `other` that goes with `amount` out of `reserve`:
/// `amount * other / reserve`, rounded down.
pub open spec fn proportional_spec(amount: int, other: int, reserve: int) -> int {
    amount * other / reserve
}

/// What `deposit_token0` returns: the second token's amount, the
/// liquidity-provider tokens minted, and the upper limits on both token
/// amounts after slippage; or the first failure met.
pub open spec fn deposit_token0_result(
    token0: u64,
    slippage: u8,
    token0_reserve: u64,
    token1_reserve: u64,
    total_lp_tokens: u64,
) -> Result<(u64, u64, u64, u64), ClientError> {
    if slippage > 100 {
        Err(ClientError::InvalidSlippage)
    } else if token0_reserve == 0 {
        Err(ClientError::DivisionByZero)
    } else {
        match narrow(
            proportional_spec(token0 as int, token1_reserve as int, token0_reserve as int),
        ) {
            Err(e) => Err(e),
            Ok(token1) => match max_with_slippage_result(token0, slippage) {
                Err(e) => Err(e),
                Ok(max_token0) => match max_with_slippage_result(token1, slippage) {
                    Err(e) => Err(e),
                    Ok(max_token1) => match narrow(
                        proportional_spec(
                            token0 as int,
                            total_lp_tokens as int,
                            token0_reserve as int,
                        ),
                    ) {
                        Err(e) => Err(e),
                        Ok(lp_token) => Ok((token1, lp_token, max_token0, max_token1)),
                    },
                },
            },
        }
    }
}

/// What `deposit_lp_token` returns: the upper limits on the base and quote
/// amounts after slippage; or the first failure met.
pub open spec fn deposit_lp_token_result(
    lp_token: u64,
    slippage: u8,
    base_reserve: u64,
    quote_reserve: u64,
    total_lp_tokens: u64,
) -> Result<(u64, u64), ClientError> {
    if total_lp_tokens == 0 {
        Err(ClientError::ZeroLpSupply)
    } else if slippage > 100 {
        Err(ClientError::InvalidSlippage)
    } else {
        match narrow(
            deposit_amount_spec(base_reserve as int, lp_token as int, total_lp_tokens as int),
        ) {
            Err(e) => Err(e),
            Ok(base_in) => match narrow(
                deposit_amount_spec(quote_reserve as int, lp_token as int, total_lp_tokens as int),
            ) {
                Err(e) => Err(e),
                Ok(quote_in) => match max_with_slippage_result(base_in, slippage) {
                    Err(e) => Err(e),
                    Ok(max_base) => match max_with_slippage_result(quote_in, slippage) {
                        Err(e) => Err(e),
                        Ok(max_quote) => Ok((max_base, max_quote)),
                    },
                },
            },
        }
    }
}

/// Quotes a deposit of exactly `token0` of the first token.
///
/// Returns the proportional amount of the second token, the
/// liquidity-provider tokens minted for the deposit, and the most the
/// depositor accepts to add of each token at `slippage` percent tolerance.
///
/// Fails when `slippage` is above 100, when the first reserve is zero, and
/// when an amount does not fit in 64 bits.
pub fn deposit_token0(
    token0: u64,
    slippage: u8,
    token0_reserve: u64,
    token1_reserve: u64,
    total_lp_tokens: u64,
) -> (r: Result<(u64, u64, u64, u64), ClientError>)
    ensures
        r == deposit_token0_result(
            token0,
            slippage,
            token0_reserve,
            token1_reserve,
            total_lp_tokens,
        ),
        r matches Ok((token1, lp_token, max_token0, max_token1)) ==> max_token0 >= token0
            && max_token1 >= token1,
        r matches Ok((token1, lp_token, max_token0, max_token1)) ==> (slippage == 0 ==> max_token0
            == token0 && max_token1 == token1),
{
    if slippage > 100 {
        return Err(ClientError::InvalidSlippage);
    }
    proof {
        lemma_u64_product_fits(token0, token1_reserve);
        lemma_u64_product_fits(token0, total_lp_tokens);
    }
    let token1_scaled: u128 = match (token0 as u128).checked_mul(token1_reserve as u128) {
        Some(n) => n,
        None => {
            return Err(ClientError::MultiplicationOverflow);
        },
    };
    let token1: u64 = match token1_scaled.checked_div(token0_reserve as u128) {
        Some(t) => narrow_u128(t)?,
        None => {
            return Err(ClientError::DivisionByZero);
        },
    };

    let max_token0: u64 = max_with_slippage(token0, slippage)?;
    let max_token1: u64 = max_with_slippage(token1, slippage)?;

    let lp_scaled: u128 = match (token0 as u128).checked_mul(total_lp_tokens as u128) {
        Some(n) => n,
        None => {
            return Err(ClientError::MultiplicationOverflow);
        },
    };
    let lp_token: u64 = match lp_scaled.checked_div(token0_reserve as u128) {
        Some(t) => narrow_u128(t)?,
        None => {
            return Err(ClientError::DivisionByZero);
        },
    };

    Ok((token1, lp_token, max_token0, max_token1))
}

/// Quotes a deposit that mints exactly `lp_token` liquidity-provider tokens.
///
/// Returns the most the depositor accepts to add of the base and of the
/// quote token: the proportional shares of both reserves, each rounded up
/// and then raised by `slippage` percent.
///
/// Fails when the supply is zero, when `slippage` is above 100, and when an
/// amount does not fit in 64 bits.
pub fn deposit_lp_token(
    lp_token: u64,
    slippage: u8,
    base_reserve: u64,
    quote_reserve: u64,
    total_lp_tokens: u64,
) -> (r: Result<(u64, u64), ClientError>)
    ensures
        r == deposit_lp_token_result(
            lp_token,
            slippage,
            base_reserve,
            quote_reserve,
            total_lp_tokens,
        ),
        r matches Ok((max_base, max_quote)) ==> max_base >= deposit_amount_spec(
            base_reserve as int,
            lp_token as int,
            total_lp_tokens as int,
        ) && max_quote >= deposit_amount_spec(
            quote_reserve as int,
            lp_token as int,
            total_lp_tokens as int,
        ),
        r matches Ok((max_base, max_quote)) ==> (slippage == 0 ==> max_base == deposit_amount_spec(
            base_reserve as int,
            lp_token as int,
            total_lp_tokens as int,
        ) && max_quote == deposit_amount_spec(
            quote_reserve as int,
            lp_token as int,
            total_lp_tokens as int,
        )),
{
    if total_lp_tokens == 0 {
        return Err(ClientError::ZeroLpSupply);
    }
    if slippage > 100 {
        return Err(ClientError::InvalidSlippage);
    }
    proof {
        lemma_u64_product_fits(base_reserve, lp_token);
        lemma_u64_product_fits(quote_reserve, lp_token);
    }
    let base_scaled: u128 = match (base_reserve as u128).checked_mul(lp_token as u128) {
        Some(n) => n,
        None => {
            return Err(ClientError::MultiplicationOverflow);
        },
    };
    let base_amount_in: u64 = narrow_u128(ceil_div(base_scaled, total_lp_tokens as u128)?)?;

    let quote_scaled: u128 = match (quote_reserve as u128).checked_mul(lp_token as u128) {
        Some(n) => n,
        None => {
            return Err(ClientError::MultiplicationOverflow);
        },
    };
    let quote_amount_in: u64 = narrow_u128(ceil_div(quote_scaled, total_lp_tokens as u128)?)?;

    let max_base: u64 = max_with_slippage(base_amount_in, slippage)?;
    let max_quote: u64 = max_with_slippage(quote_amount_in, slippage)?;

    Ok((max_base, max_quote))
}

} // verus!
