//! Fee and slippage arithmetic shared by every quote.

pub mod arith;
pub mod buy;
pub mod deposit;
pub mod laws;
pub mod sell;
pub mod withdraw;

use crate::error::ClientError;
use crate::utils::amm::arith::{
    lemma_ceil_div_bounds, lemma_ceil_div_exact, lemma_scaled_div, lemma_u64_product_fits,
};
use vstd::prelude::*;

verus! {

/// Number of basis points that make up one whole (100%).
pub const MAX_FEE_BASIS_POINTS: u64 = 10_000;

/// Scale of the fixed-point slippage factor.
pub const SLIPPAGE_PRECISION: u128 = 1_000_000_000;

/// The least integer that is at least `a / b`, for `a >= 0` and `b > 0`.
pub open spec fn ceil_div_spec(a: int, b: int) -> int {
    (a + b - 1) / b
}

/// The fee on `amount` at `fee_bps` basis points, rounded up.
pub open spec fn fee_spec(amount: int, fee_bps: int) -> int {
    ceil_div_spec(amount * fee_bps, MAX_FEE_BASIS_POINTS as int)
}

/// A double-width result brought back to 64 bits: the value itself where it
/// fits, a conversion failure where it does not.
pub open spec fn narrow(x: int) -> Result<u64, ClientError> {
    if 0 <= x <= u64::MAX {
        Ok(x as u64)
    } else {
        Err(ClientError::ConversionOverflow)
    }
}

/// What `fee` returns.
pub open spec fn fee_result(amount: u64, fee_bps: u64) -> Result<u64, ClientError> {
    narrow(fee_spec(amount as int, fee_bps as int))
}

/// The most a payer accepts: `amount` raised by `slippage` percent, rounded
/// down.
pub open spec fn slippage_max_spec(amount: int, slippage: int) -> int {
    amount * (100 + slippage) / 100
}

/// The least a receiver accepts: `amount` lowered by `slippage` percent,
/// rounded down.
pub open spec fn slippage_min_spec(amount: int, slippage: int) -> int {
    amount * (100 - slippage) / 100
}

/// What `max_with_slippage` returns.
pub open spec fn max_with_slippage_result(amount: u64, slippage: u8) -> Result<u64, ClientError> {
    narrow(slippage_max_spec(amount as int, slippage as int))
}

/// What `min_with_slippage` returns.
pub open spec fn min_with_slippage_result(amount: u64, slippage: u8) -> Result<u64, ClientError> {
    if slippage > 100 {
        Err(ClientError::InvalidSlippage)
    } else {
        Ok(slippage_min_spec(amount as int, slippage as int) as u64)
    }
}

/// Brings a double-width value back to 64 bits, or reports that it does not
/// fit.
pub fn narrow_u128(x: u128) -> (r: Result<u64, ClientError>)
    ensures
        r == narrow(x as int),
{
    if x > u64::MAX as u128 {
        Err(ClientError::ConversionOverflow)
    } else {
        Ok(x as u64)
    }
}

/// Divides `a` by `b`, rounding up. A zero divisor is a division failure.
pub fn ceil_div(a: u128, b: u128) -> (r: Result<u128, ClientError>)
    ensures
        r == (if b == 0 {
            Err::<u128, ClientError>(ClientError::DivisionByZero)
        } else {
            Ok(ceil_div_spec(a as int, b as int) as u128)
        }),
        b != 0 ==> 0 <= ceil_div_spec(a as int, b as int) <= a,
{
    if b == 0 {
        return Err(ClientError::DivisionByZero);
    }
    let quotient: u128 = a / b;
    let remainder: u128 = a % b;
    proof {
        lemma_ceil_div_exact(a as int, b as int);
    }
    if remainder == 0 {
        Ok(quotient)
    } else {
        Ok(quotient + 1)
    }
}

/// The fee on `amount` at `fee_bps` basis points, rounded up.
///
/// The product is taken in 128 bits, where it always fits. The fee itself
/// fits in 64 bits whenever the rate is at most 100%; above that it may not,
/// and the call then fails rather than truncating.
pub fn fee(amount: u64, fee_bps: u64) -> (r: Result<u64, ClientError>)
    ensures
        r == fee_result(amount, fee_bps),
        fee_bps <= MAX_FEE_BASIS_POINTS ==> r is Ok && r->Ok_0 <= amount,
{
    proof {
        lemma_u64_product_fits(amount, fee_bps);
        lemma_fee_at_most_amount(amount as int, fee_bps as int);
    }
    let product: u128 = match (amount as u128).checked_mul(fee_bps as u128) {
        Some(p) => p,
        None => {
            return Err(ClientError::MultiplicationOverflow);
        },
    };
    match ceil_div(product, MAX_FEE_BASIS_POINTS as u128) {
        Ok(rounded) => narrow_u128(rounded),
        Err(e) => Err(e),
    }
}

/// The upper limit a payer sends with a trade: `amount` raised by `slippage`
/// percent.
///
/// The factor is held in fixed point at a scale of one billion; since that
/// scale is a multiple of 100 the result is exactly
/// `amount * (100 + slippage) / 100`, rounded down.
pub fn max_with_slippage(amount: u64, slippage: u8) -> (r: Result<u64, ClientError>)
    ensures
        r == max_with_slippage_result(amount, slippage),
        r matches Ok(limit) ==> limit >= amount,
        slippage == 0 ==> r == Ok::<u64, ClientError>(amount),
{
    let factor: u128 = ((100 + slippage as u128) * SLIPPAGE_PRECISION) / 100;
    proof {
        assert(factor == (100 + slippage as int) * 10_000_000);
        assert(amount as int * factor as int <= u128::MAX) by (nonlinear_arith)
            requires
                0 <= amount <= u64::MAX,
                0 <= factor <= 0xffff_ffff,
        ;
        lemma_slippage_max_bounds(amount as int, slippage as int);
        lemma_scaled_div(amount as int * (100 + slippage as int), 100, 10_000_000);
        assert(amount as int * factor as int == (amount as int * (100 + slippage as int))
            * 10_000_000) by (nonlinear_arith)
            requires
                factor == (100 + slippage as int) * 10_000_000,
        ;
    }
    let scaled: u128 = match (amount as u128).checked_mul(factor) {
        Some(p) => p,
        None => {
            return Err(ClientError::MultiplicationOverflow);
        },
    };
    match scaled.checked_div(SLIPPAGE_PRECISION) {
        Some(limit) => narrow_u128(limit),
        None => Err(ClientError::DivisionByZero),
    }
}

/// The lower limit a receiver sends with a trade: `amount` lowered by
/// `slippage` percent. A tolerance above 100 is rejected.
pub fn min_with_slippage(amount: u64, slippage: u8) -> (r: Result<u64, ClientError>)
    ensures
        r == min_with_slippage_result(amount, slippage),
        r matches Ok(limit) ==> limit <= amount,
        slippage == 0 ==> r == Ok::<u64, ClientError>(amount),
{
    let remaining: u128 = match 100u128.checked_sub(slippage as u128) {
        Some(d) => d,
        None => {
            return Err(ClientError::InvalidSlippage);
        },
    };
    let factor: u128 = (remaining * SLIPPAGE_PRECISION) / 100;
    proof {
        assert(factor == (100 - slippage as int) * 10_000_000);
        assert(amount as int * factor as int <= u128::MAX) by (nonlinear_arith)
            requires
                0 <= amount <= u64::MAX,
                0 <= factor <= 0xffff_ffff,
        ;
        lemma_slippage_min_bounds(amount as int, slippage as int);
        lemma_scaled_div(amount as int * (100 - slippage as int), 100, 10_000_000);
        assert(amount as int * factor as int == (amount as int * (100 - slippage as int))
            * 10_000_000) by (nonlinear_arith)
            requires
                factor == (100 - slippage as int) * 10_000_000,
        ;
    }
    let scaled: u128 = match (amount as u128).checked_mul(factor) {
        Some(p) => p,
        None => {
            return Err(ClientError::MultiplicationOverflow);
        },
    };
    match scaled.checked_div(SLIPPAGE_PRECISION) {
        Some(limit) => narrow_u128(limit),
        None => Err(ClientError::DivisionByZero),
    }
}

/// A fee never exceeds the amount it is charged on while the rate is at most
/// 100%, and it is never negative.
pub proof fn lemma_fee_at_most_amount(amount: int, fee_bps: int)
    requires
        0 <= amount,
        0 <= fee_bps,
    ensures
        0 <= fee_spec(amount, fee_bps),
        fee_bps <= MAX_FEE_BASIS_POINTS ==> fee_spec(amount, fee_bps) <= amount,
{
    let product: int = amount * fee_bps;
    assert(0 <= product) by (nonlinear_arith)
        requires
            0 <= amount,
            0 <= fee_bps,
            product == amount * fee_bps,
    ;
    lemma_ceil_div_bounds(product, 10_000);
    if fee_bps <= 10_000 {
        assert(product <= amount * 10_000) by (nonlinear_arith)
            requires
                0 <= amount,
                0 <= fee_bps <= 10_000,
                product == amount * fee_bps,
        ;
    }
}

/// The fee grows, or stays, when the amount or the rate grows.
pub proof fn lemma_fee_monotonic(amount1: int, fee_bps1: int, amount2: int, fee_bps2: int)
    requires
        0 <= amount1 <= amount2,
        0 <= fee_bps1 <= fee_bps2,
    ensures
        fee_spec(amount1, fee_bps1) <= fee_spec(amount2, fee_bps2),
{
    let low: int = amount1 * fee_bps1;
    let high: int = amount2 * fee_bps2;
    assert(0 <= low <= high) by (nonlinear_arith)
        requires
            0 <= amount1 <= amount2,
            0 <= fee_bps1 <= fee_bps2,
            low == amount1 * fee_bps1,
            high == amount2 * fee_bps2,
    ;
    lemma_ceil_div_bounds(low, 10_000);
    lemma_ceil_div_bounds(high, 10_000);
}

/// The upper limit is never below the amount, and equals it at zero
/// tolerance.
pub proof fn lemma_slippage_max_bounds(amount: int, slippage: int)
    requires
        0 <= amount,
        0 <= slippage,
    ensures
        amount * (100 + slippage) >= 0,
        slippage_max_spec(amount, slippage) >= amount,
        slippage_max_spec(amount, 0) == amount,
{
    assert(amount * (100 + slippage) >= amount * 100) by (nonlinear_arith)
        requires
            0 <= amount,
            0 <= slippage,
    ;
}

/// The lower limit is never above the amount nor below zero, and equals the
/// amount at zero tolerance.
pub proof fn lemma_slippage_min_bounds(amount: int, slippage: int)
    requires
        0 <= amount,
        0 <= slippage <= 100,
    ensures
        amount * (100 - slippage) >= 0,
        0 <= slippage_min_spec(amount, slippage) <= amount,
        slippage_min_spec(amount, 0) == amount,
{
    assert(0 <= amount * (100 - slippage) <= amount * 100) by (nonlinear_arith)
        requires
            0 <= amount,
            0 <= slippage <= 100,
    ;
}

} // verus!
