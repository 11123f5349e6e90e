//! Slippage in basis points, token metadata, and the quoting helpers of the
//! market maker.

pub mod amm;
pub mod metadata;

pub use metadata::{CreateTokenMetadata, TokenMetadata, TokenMetadataResponse};

use vstd::prelude::*;

verus! {

/// `amount` raised by `basis_points` hundredths of a percent, the share
/// rounded down.
pub open spec fn with_slippage_buy_spec(amount: int, basis_points: int) -> int {
    amount + amount * basis_points / 10_000
}

/// `amount` lowered by `basis_points` hundredths of a percent, the share
/// rounded down.
pub open spec fn with_slippage_sell_spec(amount: int, basis_points: int) -> int {
    amount - amount * basis_points / 10_000
}

/// The most to pay for `amount` at a tolerance of `basis_points`.
///
/// The product and the sum are taken in 64 bits and must fit.
pub fn calculate_with_slippage_buy(amount: u64, basis_points: u64) -> (r: u64)
    requires
        amount * basis_points <= u64::MAX,
        with_slippage_buy_spec(amount as int, basis_points as int) <= u64::MAX,
    ensures
        r == with_slippage_buy_spec(amount as int, basis_points as int),
        r >= amount,
{
    amount + (amount * basis_points) / 10000
}

/// The least to receive for `amount` at a tolerance of `basis_points`.
///
/// The product is taken in 64 bits and must fit, and the share taken off
/// must not exceed the amount.
pub fn calculate_with_slippage_sell(amount: u64, basis_points: u64) -> (r: u64)
    requires
        amount * basis_points <= u64::MAX,
        with_slippage_sell_spec(amount as int, basis_points as int) >= 0,
    ensures
        r == with_slippage_sell_spec(amount as int, basis_points as int),
        r <= amount,
{
    proof {
        assert(0 <= amount * basis_points) by (nonlinear_arith)
            requires
                0 <= amount,
                0 <= basis_points,
        ;
    }
    amount - (amount * basis_points) / 10000
}

} // verus!
