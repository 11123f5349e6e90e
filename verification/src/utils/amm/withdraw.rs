//! Quotes for removing liquidity from a pool.

use crate::error::ClientError;
use crate::utils::amm::arith::lemma_u64_product_fits;
use crate::utils::amm::{min_with_slippage, min_with_slippage_result, narrow, narrow_u128};
use vstd::prelude::*;

verus! {

/// Tokens a reserve pays out for `lp_token` of a supply of
/// `total_lp_tokens`: the proportional share
/// `reserve * lp_token / total_lp_tokens`, rounded down.
pub open spec fn withdraw_amount_spec(reserve: int, lp_token: int, total_lp_tokens: int) -> int {
    reserve * lp_token / total_lp_tokens
}

/// What `withdraw_lp_token` returns: the base and quote amounts paid out and
/// the lower limits on both after slippage; or the first failure met.
pub open spec fn withdraw_lp_token_result(
    lp_token: u64,
    slippage: u8,
    base_reserve: u64,
    quote_reserve: u64,
    total_lp_tokens: u64,
) -> Result<(u64, u64, u64, u64), ClientError> {
    if lp_token == 0 {
        Err(ClientError::ZeroAmount)
    } else if total_lp_tokens == 0 {
        Err(ClientError::ZeroLpSupply)
    } else if slippage > 100 {
        Err(ClientError::InvalidSlippage)
    } else {
        match narrow(
            withdraw_amount_spec(base_reserve as int, lp_token as int, total_lp_tokens as int),
        ) {
            Err(e) => Err(e),
            Ok(base) => match narrow(
                withdraw_amount_spec(quote_reserve as int, lp_token as int, total_lp_tokens as int),
            ) {
                Err(e) => Err(e),
                Ok(quote) => match min_with_slippage_result(base, slippage) {
                    Err(e) => Err(e),
                    Ok(min_base) => match min_with_slippage_result(quote, slippage) {
                        Err(e) => Err(e),
                        Ok(min_quote) => Ok((base, quote, min_base, min_quote)),
                    },
                },
            },
        }
    }
}

/// Quotes a withdrawal that burns exactly `lp_token` liquidity-provider
/// tokens.
///
/// Returns the proportional shares of the base and quote reserves, each
/// rounded down, and the least the withdrawer accepts of each at `slippage`
/// percent tolerance.
///
/// Fails when `lp_token` or the supply is zero, when `slippage` is above
/// 100, and when a share does not fit in 64 bits.
pub fn withdraw_lp_token(
    lp_token: u64,
    slippage: u8,
    base_reserve: u64,
    quote_reserve: u64,
    total_lp_tokens: u64,
) -> (r: Result<(u64, u64, u64, u64), ClientError>)
    ensures
        r == withdraw_lp_token_result(
            lp_token,
            slippage,
            base_reserve,
            quote_reserve,
            total_lp_tokens,
        ),
        r matches Ok((base, quote, min_base, min_quote)) ==> min_base <= base && min_quote <= quote,
        r matches Ok((base, quote, min_base, min_quote)) ==> (slippage == 0 ==> min_base == base
            && min_quote == quote),
{
    if lp_token == 0 {
        return Err(ClientError::ZeroAmount);
    }
    if total_lp_tokens == 0 {
        return Err(ClientError::ZeroLpSupply);
    }
    if slippage > 100 {
        return Err(ClientError::InvalidSlippage);
    }
    proof {
        lemma_u64_product_fits(base_reserve, lp_token);
        lemma_u64_product_fits(quote_reserve, lp_token);
    }
    let base_scaled: u128 = match (base_reserve as u128).checked_mul(lp_token as u128) {
        Some(n) => n,
        None => {
            return Err(ClientError::MultiplicationOverflow);
        },
    };
    let base: u64 = match base_scaled.checked_div(total_lp_tokens as u128) {
        Some(b) => narrow_u128(b)?,
        None => {
            return Err(ClientError::DivisionByZero);
        },
    };

    let quote_scaled: u128 = match (quote_reserve as u128).checked_mul(lp_token as u128) {
        Some(n) => n,
        None => {
            return Err(ClientError::MultiplicationOverflow);
        },
    };
    let quote: u64 = match quote_scaled.checked_div(total_lp_tokens as u128) {
        Some(q) => narrow_u128(q)?,
        None => {
            return Err(ClientError::DivisionByZero);
        },
    };

    let min_base: u64 = min_with_slippage(base, slippage)?;
    let min_quote: u64 = min_with_slippage(quote, slippage)?;

    Ok((base, quote, min_base, min_quote))
}

} // verus!
