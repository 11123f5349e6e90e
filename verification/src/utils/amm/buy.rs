//! Quotes for buying base tokens with quote tokens.

use crate::error::ClientError;
use crate::utils::amm::arith::{
    lemma_ceil_div_bounds, lemma_floor_div_bounds, lemma_u64_product_fits,
};
use crate::utils::amm::{
    ceil_div, ceil_div_spec, fee, fee_result, max_with_slippage, max_with_slippage_result, narrow,
    narrow_u128, MAX_FEE_BASIS_POINTS,
};
use vstd::prelude::*;

verus! {

/// Quote tokens that must enter the pool for `base_out` base tokens to leave
/// it, before fees: `quote_reserve * base_out / (base_reserve - base_out)`,
/// rounded up.
pub open spec fn quote_needed_spec(base_out: int, base_reserve: int, quote_reserve: int) -> int {
    ceil_div_spec(quote_reserve * base_out, base_reserve - base_out)
}

/// Part of a fee-inclusive `quote` that reaches the pool when fees of
/// `total_fee_bps` basis points sit on top:
/// `quote * 10000 / (10000 + total_fee_bps)`, rounded down.
pub open spec fn effective_quote_spec(quote: int, total_fee_bps: int) -> int {
    quote * (MAX_FEE_BASIS_POINTS as int) / (MAX_FEE_BASIS_POINTS as int + total_fee_bps)
}

/// Base tokens that leave the pool when `effective_quote` quote tokens enter
/// it: `base_reserve * effective_quote / (quote_reserve + effective_quote)`,
/// rounded down.
pub open spec fn base_received_spec(
    effective_quote: int,
    base_reserve: int,
    quote_reserve: int,
) -> int {
    base_reserve * effective_quote / (quote_reserve + effective_quote)
}

/// What `buy_base_input` returns: the raw quote amount, the amount with both
/// fees added, and the upper limit after slippage; or the first failure met.
pub open spec fn buy_base_input_result(
    base: u64,
    slippage: u8,
    base_reserve: u64,
    quote_reserve: u64,
    lp_fee_bps: u64,
    protocol_fee_bps: u64,
) -> Result<(u64, u64, u64), ClientError> {
    if base == 0 {
        Err(ClientError::ZeroAmount)
    } else if base_reserve == 0 || quote_reserve == 0 {
        Err(ClientError::ZeroReserve)
    } else if base >= base_reserve {
        Err(ClientError::PoolDepleted)
    } else {
        match narrow(quote_needed_spec(base as int, base_reserve as int, quote_reserve as int)) {
            Err(e) => Err(e),
            Ok(raw) => match fee_result(raw, lp_fee_bps) {
                Err(e) => Err(e),
                Ok(lp_fee) => match fee_result(raw, protocol_fee_bps) {
                    Err(e) => Err(e),
                    Ok(protocol_fee) => if raw + lp_fee + protocol_fee > u64::MAX {
                        Err(ClientError::AdditionOverflow)
                    } else {
                        let total = (raw + lp_fee + protocol_fee) as u64;
                        match max_with_slippage_result(total, slippage) {
                            Err(e) => Err(e),
                            Ok(max_quote) => Ok((raw, total, max_quote)),
                        }
                    },
                },
            },
        }
    }
}

/// What `buy_quote_input` returns: the quote amount with fees taken off, the
/// base amount it buys, and the upper limit after slippage on the amount
/// supplied; or the first failure met.
pub open spec fn buy_quote_input_result(
    quote: u64,
    slippage: u8,
    base_reserve: u64,
    quote_reserve: u64,
    lp_fee_bps: u64,
    protocol_fee_bps: u64,
) -> Result<(u64, u64, u64), ClientError> {
    if quote == 0 {
        Err(ClientError::ZeroAmount)
    } else if base_reserve == 0 || quote_reserve == 0 {
        Err(ClientError::ZeroReserve)
    } else if MAX_FEE_BASIS_POINTS + lp_fee_bps + protocol_fee_bps > u64::MAX {
        Err(ClientError::AdditionOverflow)
    } else {
        let effective = effective_quote_spec(quote as int, lp_fee_bps + protocol_fee_bps);
        let base = base_received_spec(effective, base_reserve as int, quote_reserve as int);
        match max_with_slippage_result(quote, slippage) {
            Err(e) => Err(e),
            Ok(max_quote) => Ok((effective as u64, base as u64, max_quote)),
        }
    }
}

/// Quotes a purchase of exactly `base` base tokens.
///
/// Returns the raw quote amount, the amount the buyer pays with the
/// liquidity-provider and protocol fees on top, and the most the buyer
/// accepts to pay at `slippage` percent tolerance.
///
/// Fails when `base` is zero, when a reserve is zero, when `base` is the
/// whole base reserve or more, and when a fee, the total or the limit does
/// not fit in 64 bits.
pub fn buy_base_input(
    base: u64,
    slippage: u8,
    base_reserve: u64,
    quote_reserve: u64,
    lp_fee_bps: u64,
    protocol_fee_bps: u64,
) -> (r: Result<(u64, u64, u64), ClientError>)
    ensures
        r == buy_base_input_result(
            base,
            slippage,
            base_reserve,
            quote_reserve,
            lp_fee_bps,
            protocol_fee_bps,
        ),
        r matches Ok((raw, total, max_quote)) ==> raw <= total <= max_quote,
        r matches Ok((raw, total, max_quote)) ==> (slippage == 0 ==> max_quote == total),
{
    if base == 0 {
        return Err(ClientError::ZeroAmount);
    }
    if base_reserve == 0 || quote_reserve == 0 {
        return Err(ClientError::ZeroReserve);
    }
    if base > base_reserve {
        return Err(ClientError::PoolDepleted);
    }
    proof {
        lemma_u64_product_fits(quote_reserve, base);
    }
    let numerator: u128 = match (quote_reserve as u128).checked_mul(base as u128) {
        Some(n) => n,
        None => {
            return Err(ClientError::MultiplicationOverflow);
        },
    };
    let denominator: u128 = match (base_reserve as u128).checked_sub(base as u128) {
        Some(d) => d,
        None => {
            return Err(ClientError::SubtractionUnderflow);
        },
    };
    if denominator == 0 {
        return Err(ClientError::PoolDepleted);
    }
    let quote_amount_in: u64 = narrow_u128(ceil_div(numerator, denominator)?)?;

    let lp_fee: u64 = fee(quote_amount_in, lp_fee_bps)?;
    let protocol_fee: u64 = fee(quote_amount_in, protocol_fee_bps)?;
    let with_lp_fee: u64 = match quote_amount_in.checked_add(lp_fee) {
        Some(t) => t,
        None => {
            return Err(ClientError::AdditionOverflow);
        },
    };
    let total_quote: u64 = match with_lp_fee.checked_add(protocol_fee) {
        Some(t) => t,
        None => {
            return Err(ClientError::AdditionOverflow);
        },
    };

    let max_quote: u64 = max_with_slippage(total_quote, slippage)?;
    Ok((quote_amount_in, total_quote, max_quote))
}

/// Quotes a purchase paid with `quote` quote tokens, fees included.
///
/// Returns the part of `quote` that reaches the pool, the base tokens it
/// buys, and the most the buyer accepts to pay at `slippage` percent
/// tolerance, taken on `quote` itself.
///
/// Fails when `quote` is zero, when a reserve is zero, when the fee rates
/// cannot be summed, and when the limit does not fit in 64 bits.
pub fn buy_quote_input(
    quote: u64,
    slippage: u8,
    base_reserve: u64,
    quote_reserve: u64,
    lp_fee_bps: u64,
    protocol_fee_bps: u64,
) -> (r: Result<(u64, u64, u64), ClientError>)
    ensures
        r == buy_quote_input_result(
            quote,
            slippage,
            base_reserve,
            quote_reserve,
            lp_fee_bps,
            protocol_fee_bps,
        ),
        r matches Ok((effective, base, max_quote)) ==> effective <= quote <= max_quote && base
            < base_reserve,
        r matches Ok((effective, base, max_quote)) ==> (slippage == 0 ==> max_quote == quote),
{
    if quote == 0 {
        return Err(ClientError::ZeroAmount);
    }
    if base_reserve == 0 || quote_reserve == 0 {
        return Err(ClientError::ZeroReserve);
    }
    let total_fee_bps: u64 = match lp_fee_bps.checked_add(protocol_fee_bps) {
        Some(t) => t,
        None => {
            return Err(ClientError::AdditionOverflow);
        },
    };
    let denominator: u64 = match MAX_FEE_BASIS_POINTS.checked_add(total_fee_bps) {
        Some(d) => d,
        None => {
            return Err(ClientError::AdditionOverflow);
        },
    };

    proof {
        lemma_effective_quote_bounds(quote as int, total_fee_bps as int);
    }
    let scaled_quote: u128 = match (quote as u128).checked_mul(MAX_FEE_BASIS_POINTS as u128) {
        Some(n) => n,
        None => {
            return Err(ClientError::MultiplicationOverflow);
        },
    };
    let effective_quote: u64 = match scaled_quote.checked_div(denominator as u128) {
        Some(e) => narrow_u128(e)?,
        None => {
            return Err(ClientError::DivisionByZero);
        },
    };

    proof {
        lemma_u64_product_fits(base_reserve, effective_quote);
        lemma_base_received_bounds(
            effective_quote as int,
            base_reserve as int,
            quote_reserve as int,
        );
    }
    let numerator: u128 = match (base_reserve as u128).checked_mul(effective_quote as u128) {
        Some(n) => n,
        None => {
            return Err(ClientError::MultiplicationOverflow);
        },
    };
    let denominator_effective: u128 = match (quote_reserve as u128).checked_add(
        effective_quote as u128,
    ) {
        Some(d) => d,
        None => {
            return Err(ClientError::AdditionOverflow);
        },
    };
    if denominator_effective == 0 {
        return Err(ClientError::PoolDepleted);
    }
    let base_amount_out: u64 = match numerator.checked_div(denominator_effective) {
        Some(b) => narrow_u128(b)?,
        None => {
            return Err(ClientError::DivisionByZero);
        },
    };

    let max_quote: u64 = max_with_slippage(quote, slippage)?;
    Ok((effective_quote, base_amount_out, max_quote))
}

/// Taking fees off a quote amount leaves at most that amount, and what is
/// left, with its share of fees, is covered by the amount.
pub proof fn lemma_effective_quote_bounds(quote: int, total_fee_bps: int)
    requires
        0 <= quote,
        0 <= total_fee_bps,
    ensures
        0 <= quote * 10_000,
        0 <= effective_quote_spec(quote, total_fee_bps) <= quote,
        (10_000 + total_fee_bps) * effective_quote_spec(quote, total_fee_bps) <= quote * 10_000,
{
    let d: int = 10_000 + total_fee_bps;
    let e: int = quote * 10_000 / d;
    lemma_floor_div_bounds(quote * 10_000, d);
    if e > quote {
        assert(d * e >= 10_000 * (quote + 1)) by (nonlinear_arith)
            requires
                d >= 10_000,
                e >= quote + 1,
                quote >= 0,
        ;
    }
}

/// A purchase takes fewer base tokens than the base reserve holds.
pub proof fn lemma_base_received_bounds(effective_quote: int, base_reserve: int, quote_reserve: int)
    requires
        0 <= effective_quote,
        0 < base_reserve,
        0 < quote_reserve,
    ensures
        0 <= base_reserve * effective_quote,
        0 <= base_received_spec(effective_quote, base_reserve, quote_reserve) < base_reserve,
        (quote_reserve + effective_quote) * base_received_spec(
            effective_quote,
            base_reserve,
            quote_reserve,
        ) <= base_reserve * effective_quote,
        base_reserve * effective_quote < (quote_reserve + effective_quote) * (base_received_spec(
            effective_quote,
            base_reserve,
            quote_reserve,
        ) + 1),
{
    let d: int = quote_reserve + effective_quote;
    let n: int = base_reserve * effective_quote;
    let b: int = n / d;
    assert(0 <= n) by (nonlinear_arith)
        requires
            n == base_reserve * effective_quote,
            0 <= effective_quote,
            0 < base_reserve,
    ;
    lemma_floor_div_bounds(n, d);
    assert(d * (b + 1) == d * b + d) by (nonlinear_arith);
    if b >= base_reserve {
        assert(d * b > n) by (nonlinear_arith)
            requires
                b >= base_reserve,
                d == quote_reserve + effective_quote,
                n == base_reserve * effective_quote,
                0 < quote_reserve,
                0 <= effective_quote,
                0 < base_reserve,
        ;
    }
}

/// The quote amount needed for a purchase that leaves some base reserve is
/// never negative and is the least amount that pays for it.
pub proof fn lemma_quote_needed_bounds(base_out: int, base_reserve: int, quote_reserve: int)
    requires
        0 <= base_out < base_reserve,
        0 <= quote_reserve,
    ensures
        0 <= quote_reserve * base_out,
        0 <= quote_needed_spec(base_out, base_reserve, quote_reserve),
        quote_reserve * base_out <= (base_reserve - base_out) * quote_needed_spec(
            base_out,
            base_reserve,
            quote_reserve,
        ) < quote_reserve * base_out + (base_reserve - base_out),
{
    assert(0 <= quote_reserve * base_out) by (nonlinear_arith)
        requires
            0 <= base_out,
            0 <= quote_reserve,
    ;
    lemma_ceil_div_bounds(quote_reserve * base_out, base_reserve - base_out);
}

} // verus!
