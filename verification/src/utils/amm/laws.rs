//! Laws that relate one quote to another.

use crate::error::ClientError;
use crate::utils::amm::arith::{
    lemma_ceil_div_bounds, lemma_floor_div_bounds, lemma_floor_div_unique,
};
use crate::utils::amm::buy::{
    base_received_spec, buy_base_input_result, buy_quote_input_result, effective_quote_spec,
    lemma_base_received_bounds, lemma_effective_quote_bounds, lemma_quote_needed_bounds,
    quote_needed_spec,
};
use crate::utils::amm::deposit::{deposit_amount_spec, deposit_lp_token_result};
use crate::utils::amm::withdraw::{withdraw_amount_spec, withdraw_lp_token_result};
use crate::utils::amm::{fee_spec, lemma_slippage_max_bounds, lemma_slippage_min_bounds};
use vstd::prelude::*;

verus! {

/// Buying back what a quote amount bought, before fees.
///
/// Let `effective` quote tokens buy `base` base tokens, with `base`
/// positive. Then the raw quote amount needed to buy exactly `base` is at
/// most `effective`, and it buys exactly `base` again: the two roundings
/// lose nothing but the surplus that bought no further base token.
pub proof fn lemma_swap_round_trip(effective: int, base_reserve: int, quote_reserve: int)
    requires
        0 <= effective,
        0 < base_reserve,
        0 < quote_reserve,
        0 < base_received_spec(effective, base_reserve, quote_reserve),
    ensures
        ({
            let base = base_received_spec(effective, base_reserve, quote_reserve);
            let raw = quote_needed_spec(base, base_reserve, quote_reserve);
            &&& base < base_reserve
            &&& 0 < raw <= effective
            &&& base_received_spec(raw, base_reserve, quote_reserve) == base
        }),
{
    let base: int = base_received_spec(effective, base_reserve, quote_reserve);
    lemma_base_received_bounds(effective, base_reserve, quote_reserve);
    let raw: int = quote_needed_spec(base, base_reserve, quote_reserve);
    lemma_quote_needed_bounds(base, base_reserve, quote_reserve);
    let left: int = base_reserve - base;
    // The raw amount is positive, since the purchase is.
    if raw <= 0 {
        assert(quote_reserve * base > 0) by (nonlinear_arith)
            requires
                0 < quote_reserve,
                0 < base,
        ;
        assert(left * raw <= 0) by (nonlinear_arith)
            requires
                0 < left,
                raw <= 0,
        ;
    }
    // The raw amount does not exceed what was supplied.
    if raw > effective {
        assert(left * raw >= left * effective + left) by (nonlinear_arith)
            requires
                raw >= effective + 1,
                0 < left,
        ;
        assert((quote_reserve + effective) * base > base_reserve * effective) by (nonlinear_arith)
            requires
                quote_reserve * base > left * effective,
                left == base_reserve - base,
        ;
    }
    // The raw amount buys the same base amount.
    assert((quote_reserve + raw) * base <= base_reserve * raw) by (nonlinear_arith)
        requires
            quote_reserve * base <= left * raw,
            left == base_reserve - base,
    ;
    assert(base_reserve * raw < (quote_reserve + raw) * base + (quote_reserve + raw))
        by (nonlinear_arith)
        requires
            base_reserve * effective < (quote_reserve + effective) * (base + 1),
            0 <= raw <= effective,
            0 <= base < base_reserve,
            0 < quote_reserve,
    ;
    lemma_floor_div_unique(base_reserve * raw, quote_reserve + raw, base);
}

/// The fee-inclusive cost of a raw amount that fees were taken off for is
/// at most one unit above the amount the fees were taken off from.
pub proof fn lemma_fees_round_trip(quote: int, raw: int, lp_fee_bps: int, protocol_fee_bps: int)
    requires
        0 <= quote,
        0 <= lp_fee_bps,
        0 <= protocol_fee_bps,
        0 <= raw <= effective_quote_spec(quote, lp_fee_bps + protocol_fee_bps),
    ensures
        0 <= fee_spec(raw, lp_fee_bps) <= quote,
        0 <= fee_spec(raw, protocol_fee_bps) <= quote,
        raw + fee_spec(raw, lp_fee_bps) + fee_spec(raw, protocol_fee_bps) <= quote + 1,
{
    let total_bps: int = lp_fee_bps + protocol_fee_bps;
    let effective: int = effective_quote_spec(quote, total_bps);
    lemma_effective_quote_bounds(quote, total_bps);
    let lp_part: int = raw * lp_fee_bps;
    let protocol_part: int = raw * protocol_fee_bps;
    assert(0 <= lp_part && 0 <= protocol_part && raw * 10_000 + lp_part + protocol_part <= (10_000
        + total_bps) * effective) by (nonlinear_arith)
        requires
            0 <= raw <= effective,
            0 <= lp_fee_bps,
            0 <= protocol_fee_bps,
            total_bps == lp_fee_bps + protocol_fee_bps,
            lp_part == raw * lp_fee_bps,
            protocol_part == raw * protocol_fee_bps,
    ;
    lemma_ceil_div_bounds(lp_part, 10_000);
    lemma_ceil_div_bounds(protocol_part, 10_000);
}

/// Buying with a quote amount, then quoting a purchase of the base amount
/// that it bought.
///
/// Where `buy_quote_input` turns `quote` into a positive base amount,
/// `buy_base_input` for that base amount, at zero slippage, asks for a raw
/// amount no larger than the fee-stripped `quote`, and for a fee-inclusive
/// total of at most `quote + 1`: one unit is all that rounding the two fees
/// up can cost. The raw amount buys that base amount again. The second
/// quote can fail only where `quote + 1` itself does not fit in 64 bits.
pub proof fn lemma_buy_round_trip(
    quote: u64,
    slippage: u8,
    base_reserve: u64,
    quote_reserve: u64,
    lp_fee_bps: u64,
    protocol_fee_bps: u64,
)
    requires
        base_reserve > 0,
        quote_reserve > 0,
    ensures
        buy_quote_input_result(
            quote,
            slippage,
            base_reserve,
            quote_reserve,
            lp_fee_bps,
            protocol_fee_bps,
        ) matches Ok((effective, base, _)) ==> base > 0 ==> match buy_base_input_result(
            base,
            0,
            base_reserve,
            quote_reserve,
            lp_fee_bps,
            protocol_fee_bps,
        ) {
            Ok((raw, total, max_quote)) => {
                &&& raw <= effective
                &&& total <= quote + 1
                &&& max_quote == total
                &&& base_received_spec(raw as int, base_reserve as int, quote_reserve as int)
                    == base
            },
            Err(e) => e == ClientError::AdditionOverflow && quote == u64::MAX,
        },
{
    let first = buy_quote_input_result(
        quote,
        slippage,
        base_reserve,
        quote_reserve,
        lp_fee_bps,
        protocol_fee_bps,
    );
    if let Ok((effective, base, _)) = first {
        if base > 0 {
            let total_bps: int = lp_fee_bps + protocol_fee_bps;
            lemma_effective_quote_bounds(quote as int, total_bps);
            let e: int = effective_quote_spec(quote as int, total_bps);
            lemma_base_received_bounds(e, base_reserve as int, quote_reserve as int);
            assert(effective == e);
            assert(base == base_received_spec(e, base_reserve as int, quote_reserve as int));
            lemma_swap_round_trip(e, base_reserve as int, quote_reserve as int);
            let raw: int = quote_needed_spec(base as int, base_reserve as int, quote_reserve as int);
            lemma_fees_round_trip(quote as int, raw, lp_fee_bps as int, protocol_fee_bps as int);
            let total: int = raw + fee_spec(raw, lp_fee_bps as int) + fee_spec(
                raw,
                protocol_fee_bps as int,
            );
            if total <= u64::MAX {
                lemma_slippage_max_bounds(total, 0);
            }
        }
    }
}

/// Depositing for liquidity-provider tokens and withdrawing them again, on
/// one reserve.
///
/// The deposit adds the share of the reserve rounded up; withdrawing the
/// same tokens from the enlarged reserve and supply pays the share rounded
/// down. What comes back is the deposit or one unit less.
pub proof fn lemma_liquidity_round_trip(reserve: int, lp_token: int, total_lp_tokens: int)
    requires
        0 <= reserve,
        0 <= lp_token,
        0 < total_lp_tokens,
    ensures
        ({
            let deposited = deposit_amount_spec(reserve, lp_token, total_lp_tokens);
            let withdrawn = withdraw_amount_spec(
                reserve + deposited,
                lp_token,
                total_lp_tokens + lp_token,
            );
            &&& 0 <= withdrawn
            &&& deposited - 1 <= withdrawn <= deposited
        }),
{
    let deposited: int = deposit_amount_spec(reserve, lp_token, total_lp_tokens);
    let share: int = reserve * lp_token;
    assert(0 <= share) by (nonlinear_arith)
        requires
            share == reserve * lp_token,
            0 <= reserve,
            0 <= lp_token,
    ;
    lemma_ceil_div_bounds(share, total_lp_tokens);
    let supply: int = total_lp_tokens + lp_token;
    let enlarged: int = (reserve + deposited) * lp_token;
    assert(enlarged == share + deposited * lp_token) by (nonlinear_arith)
        requires
            enlarged == (reserve + deposited) * lp_token,
            share == reserve * lp_token,
    ;
    assert(0 <= deposited * lp_token) by (nonlinear_arith)
        requires
            0 <= deposited,
            0 <= lp_token,
    ;
    lemma_floor_div_bounds(enlarged, supply);
    let withdrawn: int = enlarged / supply;
    assert(supply * deposited == total_lp_tokens * deposited + deposited * lp_token)
        by (nonlinear_arith)
        requires
            supply == total_lp_tokens + lp_token,
    ;
    // Not more than the deposit.
    if withdrawn > deposited {
        assert(supply * withdrawn >= supply * deposited + supply) by (nonlinear_arith)
            requires
                withdrawn >= deposited + 1,
                0 < supply,
        ;
    }
    // Not less than the deposit minus one.
    if withdrawn < deposited - 1 {
        assert(supply * withdrawn + supply <= supply * deposited - supply) by (nonlinear_arith)
            requires
                withdrawn + 1 <= deposited - 1,
                0 < supply,
        ;
    }
}

/// Depositing for liquidity-provider tokens and withdrawing them again, on
/// a pool.
///
/// Take the amounts that `deposit_lp_token` quotes at zero slippage, add
/// them to the reserves and the minted tokens to the supply, and quote the
/// withdrawal of the same tokens at zero slippage. Where the enlarged pool
/// still fits in 64 bits, the withdrawal succeeds and pays, of each token,
/// the deposit or one unit less.
pub proof fn lemma_deposit_withdraw_round_trip(
    lp_token: u64,
    base_reserve: u64,
    quote_reserve: u64,
    total_lp_tokens: u64,
)
    requires
        lp_token > 0,
    ensures
        match deposit_lp_token_result(lp_token, 0, base_reserve, quote_reserve, total_lp_tokens) {
            Ok((base_in, quote_in)) => (base_reserve + base_in <= u64::MAX && quote_reserve
                + quote_in <= u64::MAX && total_lp_tokens + lp_token <= u64::MAX)
                ==> match withdraw_lp_token_result(
                lp_token,
                0,
                (base_reserve + base_in) as u64,
                (quote_reserve + quote_in) as u64,
                (total_lp_tokens + lp_token) as u64,
            ) {
                Ok((base_out, quote_out, min_base, min_quote)) => {
                    &&& base_in - 1 <= base_out <= base_in
                    &&& quote_in - 1 <= quote_out <= quote_in
                    &&& min_base == base_out
                    &&& min_quote == quote_out
                },
                Err(_) => false,
            },
            Err(_) => true,
        },
{
    let deposit = deposit_lp_token_result(
        lp_token,
        0,
        base_reserve,
        quote_reserve,
        total_lp_tokens,
    );
    if let Ok((base_in, quote_in)) = deposit {
        let base_share: int = deposit_amount_spec(
            base_reserve as int,
            lp_token as int,
            total_lp_tokens as int,
        );
        let quote_share: int = deposit_amount_spec(
            quote_reserve as int,
            lp_token as int,
            total_lp_tokens as int,
        );
        lemma_liquidity_round_trip(base_reserve as int, lp_token as int, total_lp_tokens as int);
        lemma_liquidity_round_trip(quote_reserve as int, lp_token as int, total_lp_tokens as int);
        lemma_slippage_max_bounds(base_share, 0);
        lemma_slippage_max_bounds(quote_share, 0);
        assert(base_in == base_share);
        assert(quote_in == quote_share);
        if base_reserve + base_in <= u64::MAX && quote_reserve + quote_in <= u64::MAX
            && total_lp_tokens + lp_token <= u64::MAX {
            let base_out: int = withdraw_amount_spec(
                base_reserve + base_in,
                lp_token as int,
                total_lp_tokens + lp_token,
            );
            let quote_out: int = withdraw_amount_spec(
                quote_reserve + quote_in,
                lp_token as int,
                total_lp_tokens + lp_token,
            );
            lemma_slippage_min_bounds(base_out, 0);
            lemma_slippage_min_bounds(quote_out, 0);
        }
    }
}

} // verus!
