//! Quotes for selling base tokens for quote tokens.

use crate::address::{zero_address, Address};
use crate::error::ClientError;
use crate::utils::amm::arith::{lemma_floor_div_bounds, lemma_u64_product_fits};
use crate::utils::amm::{
    ceil_div, ceil_div_spec, fee, fee_result, min_with_slippage, min_with_slippage_result, narrow,
    narrow_u128, MAX_FEE_BASIS_POINTS,
};
use vstd::prelude::*;

verus! {

/// Quote tokens that leave the pool when `base_in` base tokens enter it,
/// before fees: `quote_reserve * base_in / (base_reserve + base_in)`, rounded
/// down.
pub open spec fn quote_received_spec(base_in: int, base_reserve: int, quote_reserve: int) -> int {
    quote_reserve * base_in / (base_reserve + base_in)
}

/// Quote tokens that must leave the pool for the seller to keep
/// `user_quote` after fees of `total_fee_bps` basis points:
/// `user_quote * 10000 / (10000 - total_fee_bps)`, rounded up.
pub open spec fn raw_quote_spec(user_quote: int, total_fee_bps: int) -> int {
    ceil_div_spec(
        user_quote * (MAX_FEE_BASIS_POINTS as int),
        MAX_FEE_BASIS_POINTS as int - total_fee_bps,
    )
}

/// Base tokens that must enter the pool for `raw_quote` quote tokens to
/// leave it: `base_reserve * raw_quote / (quote_reserve - raw_quote)`,
/// rounded up.
pub open spec fn base_needed_spec(raw_quote: int, base_reserve: int, quote_reserve: int) -> int {
    ceil_div_spec(base_reserve * raw_quote, quote_reserve - raw_quote)
}

/// The creator's rate that applies: none when the creator is the all-zero
/// address.
pub open spec fn creator_rate(coin_creator_fee_bps: u64, coin_creator: Seq<u8>) -> u64 {
    if coin_creator == zero_address() {
        0
    } else {
        coin_creator_fee_bps
    }
}

/// What `sell_base_input` returns: the amount the seller keeps, the raw
/// amount leaving the pool, and the lower limit after slippage; or the first
/// failure met.
pub open spec fn sell_base_input_result(
    base: u64,
    slippage: u8,
    base_reserve: u64,
    quote_reserve: u64,
    lp_fee_bps: u64,
    protocol_fee_bps: u64,
    coin_creator_fee_bps: u64,
    coin_creator: Seq<u8>,
) -> Result<(u64, u64, u64), ClientError> {
    if base_reserve == 0 || quote_reserve == 0 {
        Err(ClientError::ZeroReserve)
    } else {
        let raw = quote_received_spec(base as int, base_reserve as int, quote_reserve as int) as u64;
        match fee_result(raw, lp_fee_bps) {
            Err(e) => Err(e),
            Ok(lp_fee) => match fee_result(raw, protocol_fee_bps) {
                Err(e) => Err(e),
                Ok(protocol_fee) => match (if coin_creator == zero_address() {
                    Ok(0u64)
                } else {
                    fee_result(raw, coin_creator_fee_bps)
                }) {
                    Err(e) => Err(e),
                    Ok(creator_fee) => if raw - lp_fee - protocol_fee - creator_fee < 0 {
                        Err(ClientError::SubtractionUnderflow)
                    } else {
                        let kept = (raw - lp_fee - protocol_fee - creator_fee) as u64;
                        match min_with_slippage_result(kept, slippage) {
                            Err(e) => Err(e),
                            Ok(min_quote) => Ok((kept, raw, min_quote)),
                        }
                    },
                },
            },
        }
    }
}

/// What `calculate_quote_amount_out` returns.
pub open spec fn calculate_quote_amount_out_result(
    user_quote_amount_out: u64,
    lp_fee_bps: u64,
    protocol_fee_bps: u64,
    coin_creator_fee_bps: u64,
) -> Result<u64, ClientError> {
    let total_fee_bps = lp_fee_bps + protocol_fee_bps + coin_creator_fee_bps;
    if total_fee_bps > u64::MAX {
        Err(ClientError::AdditionOverflow)
    } else if total_fee_bps > MAX_FEE_BASIS_POINTS {
        Err(ClientError::SubtractionUnderflow)
    } else if total_fee_bps == MAX_FEE_BASIS_POINTS {
        Err(ClientError::DivisionByZero)
    } else {
        narrow(raw_quote_spec(user_quote_amount_out as int, total_fee_bps))
    }
}

/// What `sell_quote_input` returns: the raw amount leaving the pool, the
/// base amount to sell, and the lower limit after slippage on the amount
/// desired; or the first failure met.
pub open spec fn sell_quote_input_result(
    quote: u64,
    slippage: u8,
    base_reserve: u64,
    quote_reserve: u64,
    lp_fee_bps: u64,
    protocol_fee_bps: u64,
    coin_creator_fee_bps: u64,
    coin_creator: Seq<u8>,
) -> Result<(u64, u64, u64), ClientError> {
    if base_reserve == 0 || quote_reserve == 0 {
        Err(ClientError::ZeroReserve)
    } else if quote > quote_reserve {
        Err(ClientError::PoolDepleted)
    } else {
        match calculate_quote_amount_out_result(
            quote,
            lp_fee_bps,
            protocol_fee_bps,
            creator_rate(coin_creator_fee_bps, coin_creator),
        ) {
            Err(e) => Err(e),
            Ok(raw) => if raw >= quote_reserve {
                Err(ClientError::PoolDepleted)
            } else {
                match narrow(base_needed_spec(raw as int, base_reserve as int, quote_reserve as int)) {
                    Err(e) => Err(e),
                    Ok(base) => match min_with_slippage_result(quote, slippage) {
                        Err(e) => Err(e),
                        Ok(min_quote) => Ok((raw, base, min_quote)),
                    },
                }
            },
        }
    }
}

/// Quotes a sale of exactly `base` base tokens.
///
/// Returns the quote amount the seller keeps once the liquidity-provider,
/// protocol and creator fees are taken off, the raw quote amount leaving the
/// pool, and the least the seller accepts at `slippage` percent tolerance.
/// No creator fee is charged when `coin_creator` is the all-zero address.
///
/// Fails when a reserve is zero, when a fee does not fit in 64 bits, when
/// the fees exceed the raw amount, and when `slippage` is above 100.
pub fn sell_base_input(
    base: u64,
    slippage: u8,
    base_reserve: u64,
    quote_reserve: u64,
    lp_fee_bps: u64,
    protocol_fee_bps: u64,
    coin_creator_fee_bps: u64,
    coin_creator: &Address,
) -> (r: Result<(u64, u64, u64), ClientError>)
    ensures
        r == sell_base_input_result(
            base,
            slippage,
            base_reserve,
            quote_reserve,
            lp_fee_bps,
            protocol_fee_bps,
            coin_creator_fee_bps,
            coin_creator@,
        ),
        r matches Ok((kept, raw, min_quote)) ==> min_quote <= kept <= raw < quote_reserve,
        r matches Ok((kept, raw, min_quote)) ==> (slippage == 0 ==> min_quote == kept),
{
    if base_reserve == 0 || quote_reserve == 0 {
        return Err(ClientError::ZeroReserve);
    }
    proof {
        lemma_u64_product_fits(quote_reserve, base);
        lemma_quote_received_bounds(base as int, base_reserve as int, quote_reserve as int);
    }
    let numerator: u128 = match (quote_reserve as u128).checked_mul(base as u128) {
        Some(n) => n,
        None => {
            return Err(ClientError::MultiplicationOverflow);
        },
    };
    let denominator: u128 = match (base_reserve as u128).checked_add(base as u128) {
        Some(d) => d,
        None => {
            return Err(ClientError::AdditionOverflow);
        },
    };
    let quote_amount_out: u64 = match numerator.checked_div(denominator) {
        Some(q) => narrow_u128(q)?,
        None => {
            return Err(ClientError::DivisionByZero);
        },
    };

    let lp_fee: u64 = fee(quote_amount_out, lp_fee_bps)?;
    let protocol_fee: u64 = fee(quote_amount_out, protocol_fee_bps)?;
    let coin_creator_fee: u64 = if coin_creator.is_zero() {
        0
    } else {
        fee(quote_amount_out, coin_creator_fee_bps)?
    };

    let after_lp_fee: u64 = match quote_amount_out.checked_sub(lp_fee) {
        Some(q) => q,
        None => {
            return Err(ClientError::SubtractionUnderflow);
        },
    };
    let after_protocol_fee: u64 = match after_lp_fee.checked_sub(protocol_fee) {
        Some(q) => q,
        None => {
            return Err(ClientError::SubtractionUnderflow);
        },
    };
    let final_quote: u64 = match after_protocol_fee.checked_sub(coin_creator_fee) {
        Some(q) => q,
        None => {
            return Err(ClientError::SubtractionUnderflow);
        },
    };

    let min_quote: u64 = min_with_slippage(final_quote, slippage)?;
    Ok((final_quote, quote_amount_out, min_quote))
}

/// The raw quote amount that must leave the pool for a seller to keep
/// `user_quote_amount_out` once fees at the three rates are taken off.
///
/// Fails when the rates cannot be summed, when they sum to 100% or more, and
/// when the raw amount does not fit in 64 bits.
pub fn calculate_quote_amount_out(
    user_quote_amount_out: u64,
    lp_fee_bps: u64,
    protocol_fee_bps: u64,
    coin_creator_fee_bps: u64,
) -> (r: Result<u64, ClientError>)
    ensures
        r == calculate_quote_amount_out_result(
            user_quote_amount_out,
            lp_fee_bps,
            protocol_fee_bps,
            coin_creator_fee_bps,
        ),
        r matches Ok(raw) ==> raw >= user_quote_amount_out,
{
    let partial_fee_bps: u64 = match lp_fee_bps.checked_add(protocol_fee_bps) {
        Some(t) => t,
        None => {
            return Err(ClientError::AdditionOverflow);
        },
    };
    let total_fee_bps: u64 = match partial_fee_bps.checked_add(coin_creator_fee_bps) {
        Some(t) => t,
        None => {
            return Err(ClientError::AdditionOverflow);
        },
    };
    let denominator: u64 = match MAX_FEE_BASIS_POINTS.checked_sub(total_fee_bps) {
        Some(d) => d,
        None => {
            return Err(ClientError::SubtractionUnderflow);
        },
    };
    proof {
        lemma_u64_product_fits(user_quote_amount_out, MAX_FEE_BASIS_POINTS);
        if denominator != 0 {
            lemma_raw_quote_bounds(user_quote_amount_out as int, total_fee_bps as int);
        }
    }
    let numerator: u128 = match (user_quote_amount_out as u128).checked_mul(
        MAX_FEE_BASIS_POINTS as u128,
    ) {
        Some(n) => n,
        None => {
            return Err(ClientError::MultiplicationOverflow);
        },
    };
    narrow_u128(ceil_div(numerator, denominator as u128)?)
}

/// Quotes a sale that leaves the seller `quote` quote tokens after fees.
///
/// Returns the raw quote amount leaving the pool, the base tokens to sell
/// for it, and the least the seller accepts at `slippage` percent
/// tolerance, taken on `quote` itself. No creator fee is counted when
/// `coin_creator` is the all-zero address.
///
/// Fails when a reserve is zero, when `quote` or the raw amount would take
/// the whole quote reserve or more, when the fee rates sum to 100% or more
/// or cannot be summed, when an amount does not fit in 64 bits, and when
/// `slippage` is above 100.
pub fn sell_quote_input(
    quote: u64,
    slippage: u8,
    base_reserve: u64,
    quote_reserve: u64,
    lp_fee_bps: u64,
    protocol_fee_bps: u64,
    coin_creator_fee_bps: u64,
    coin_creator: &Address,
) -> (r: Result<(u64, u64, u64), ClientError>)
    ensures
        r == sell_quote_input_result(
            quote,
            slippage,
            base_reserve,
            quote_reserve,
            lp_fee_bps,
            protocol_fee_bps,
            coin_creator_fee_bps,
            coin_creator@,
        ),
        r matches Ok((raw, base, min_quote)) ==> min_quote <= quote <= raw < quote_reserve,
        r matches Ok((raw, base, min_quote)) ==> (slippage == 0 ==> min_quote == quote),
{
    if base_reserve == 0 || quote_reserve == 0 {
        return Err(ClientError::ZeroReserve);
    }
    if quote > quote_reserve {
        return Err(ClientError::PoolDepleted);
    }
    let coin_creator_fee_bps: u64 = if coin_creator.is_zero() {
        0
    } else {
        coin_creator_fee_bps
    };
    let raw_quote: u64 = calculate_quote_amount_out(
        quote,
        lp_fee_bps,
        protocol_fee_bps,
        coin_creator_fee_bps,
    )?;
    if raw_quote >= quote_reserve {
        return Err(ClientError::PoolDepleted);
    }
    proof {
        lemma_u64_product_fits(base_reserve, raw_quote);
    }
    let numerator: u128 = match (base_reserve as u128).checked_mul(raw_quote as u128) {
        Some(n) => n,
        None => {
            return Err(ClientError::MultiplicationOverflow);
        },
    };
    let denominator: u128 = match (quote_reserve as u128).checked_sub(raw_quote as u128) {
        Some(d) => d,
        None => {
            return Err(ClientError::SubtractionUnderflow);
        },
    };
    let base_amount_in: u64 = narrow_u128(ceil_div(numerator, denominator)?)?;

    let min_quote: u64 = min_with_slippage(quote, slippage)?;
    Ok((raw_quote, base_amount_in, min_quote))
}

/// A sale takes fewer quote tokens than the quote reserve holds.
pub proof fn lemma_quote_received_bounds(base_in: int, base_reserve: int, quote_reserve: int)
    requires
        0 <= base_in,
        0 < base_reserve,
        0 < quote_reserve,
    ensures
        0 <= quote_received_spec(base_in, base_reserve, quote_reserve) < quote_reserve,
{
    let d: int = base_reserve + base_in;
    let n: int = quote_reserve * base_in;
    let q: int = n / d;
    assert(0 <= n) by (nonlinear_arith)
        requires
            n == quote_reserve * base_in,
            0 <= base_in,
            0 < quote_reserve,
    ;
    lemma_floor_div_bounds(n, d);
    if q >= quote_reserve {
        assert(d * q > n) by (nonlinear_arith)
            requires
                q >= quote_reserve,
                d == base_reserve + base_in,
                n == quote_reserve * base_in,
                0 < base_reserve,
                0 <= base_in,
                0 < quote_reserve,
        ;
    }
}

/// The raw amount that covers fees is never below the amount the seller
/// keeps.
pub proof fn lemma_raw_quote_bounds(user_quote: int, total_fee_bps: int)
    requires
        0 <= user_quote,
        0 <= total_fee_bps < 10_000,
    ensures
        raw_quote_spec(user_quote, total_fee_bps) >= user_quote,
{
    let d: int = 10_000 - total_fee_bps;
    let n: int = user_quote * 10_000;
    let c: int = (n + d - 1) / d;
    crate::utils::amm::arith::lemma_ceil_div_bounds(n, d);
    if c < user_quote {
        assert(d * c < n) by (nonlinear_arith)
            requires
                0 <= c,
                c <= user_quote - 1,
                0 < d <= 10_000,
                n == user_quote * 10_000,
        ;
    }
}

} // verus!
