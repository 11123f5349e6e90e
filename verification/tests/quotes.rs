use pumpfun::address::Address;
use pumpfun::error::ClientError;
use pumpfun::utils::amm::buy::{buy_base_input, buy_quote_input};
use pumpfun::utils::amm::deposit::{deposit_lp_token, deposit_token0};
use pumpfun::utils::amm::sell::{calculate_quote_amount_out, sell_base_input, sell_quote_input};
use pumpfun::utils::amm::withdraw::withdraw_lp_token;
use pumpfun::utils::amm::{ceil_div, fee, max_with_slippage, min_with_slippage};
use pumpfun::utils::{calculate_with_slippage_buy, calculate_with_slippage_sell};

#[test]
fn fee_rounds_up() {
    assert_eq!(fee(1002, 30), Ok(4));
    assert_eq!(fee(1002, 5), Ok(1));
    assert_eq!(fee(10_000, 30), Ok(30));
    assert_eq!(fee(10_001, 30), Ok(31));
    assert_eq!(fee(0, 30), Ok(0));
    assert_eq!(fee(1, 1), Ok(1));
    assert_eq!(fee(12345, 0), Ok(0));
}

#[test]
fn fee_at_full_rate_is_the_amount() {
    assert_eq!(fee(u64::MAX, 10_000), Ok(u64::MAX));
    assert_eq!(fee(987_654_321, 10_000), Ok(987_654_321));
}

#[test]
fn fee_above_full_rate_may_not_fit() {
    assert_eq!(fee(u64::MAX, 10_001), Err(ClientError::ConversionOverflow));
    assert_eq!(fee(u64::MAX, u64::MAX), Err(ClientError::ConversionOverflow));
    assert_eq!(fee(100, 20_000), Ok(200));
}

#[test]
fn fee_is_monotonic_on_samples() {
    let amounts = [0u64, 1, 7, 9_999, 10_000, 10_001, 1_000_000_007, u64::MAX / 3];
    let rates = [0u64, 1, 5, 30, 100, 9_999, 10_000];
    for (i, a1) in amounts.iter().enumerate() {
        for a2 in amounts[i..].iter() {
            for (j, r1) in rates.iter().enumerate() {
                for r2 in rates[j..].iter() {
                    let low = fee(*a1, *r1).unwrap();
                    let high = fee(*a2, *r2).unwrap();
                    assert!(low <= high);
                    assert!(low <= *a1);
                }
            }
        }
    }
}

#[test]
fn ceil_div_rounds_up_and_rejects_zero() {
    assert_eq!(ceil_div(10, 3), Ok(4));
    assert_eq!(ceil_div(9, 3), Ok(3));
    assert_eq!(ceil_div(0, 3), Ok(0));
    assert_eq!(ceil_div(u128::MAX, 1), Ok(u128::MAX));
    assert_eq!(ceil_div(u128::MAX, 2), Ok(u128::MAX / 2 + 1));
    assert_eq!(ceil_div(5, 0), Err(ClientError::DivisionByZero));
}

#[test]
fn slippage_limits() {
    assert_eq!(max_with_slippage(1007, 1), Ok(1017));
    assert_eq!(max_with_slippage(1007, 0), Ok(1007));
    assert_eq!(max_with_slippage(100, 255), Ok(355));
    assert_eq!(max_with_slippage(u64::MAX, 1), Err(ClientError::ConversionOverflow));
    assert_eq!(max_with_slippage(u64::MAX, 0), Ok(u64::MAX));
    assert_eq!(min_with_slippage(1000, 1), Ok(990));
    assert_eq!(min_with_slippage(999, 1), Ok(989));
    assert_eq!(min_with_slippage(1000, 0), Ok(1000));
    assert_eq!(min_with_slippage(1000, 100), Ok(0));
    assert_eq!(min_with_slippage(u64::MAX, 50), Ok(u64::MAX / 2));
    assert_eq!(min_with_slippage(1000, 101), Err(ClientError::InvalidSlippage));
}

#[test]
fn buy_base_input_scenario() {
    let (raw, total, max_quote) = buy_base_input(1000, 1, 1_000_000, 1_000_000, 30, 5).unwrap();
    assert_eq!(raw, 1002);
    assert_eq!(total, 1002 + 4 + 1);
    assert_eq!(max_quote, 1017);
    assert_eq!(max_quote, total * 101 / 100);
}

#[test]
fn buy_base_input_rejections() {
    assert_eq!(buy_base_input(0, 1, 10, 10, 30, 5), Err(ClientError::ZeroAmount));
    assert_eq!(buy_base_input(1, 1, 0, 10, 30, 5), Err(ClientError::ZeroReserve));
    assert_eq!(buy_base_input(1, 1, 10, 0, 30, 5), Err(ClientError::ZeroReserve));
    assert_eq!(buy_base_input(10, 1, 10, 10, 30, 5), Err(ClientError::PoolDepleted));
    assert_eq!(buy_base_input(11, 1, 10, 10, 30, 5), Err(ClientError::PoolDepleted));
    assert_eq!(
        buy_base_input(u64::MAX - 1, 0, u64::MAX, u64::MAX, 0, 0),
        Err(ClientError::ConversionOverflow)
    );
    assert_eq!(
        buy_base_input(5, 0, 10, u64::MAX / 2, 10_000, 10_000),
        Err(ClientError::AdditionOverflow)
    );
    assert_eq!(
        buy_base_input(5, 1, 10, u64::MAX - 10, 0, 0),
        Err(ClientError::ConversionOverflow)
    );
}

#[test]
fn buy_quote_input_values() {
    let (effective, base, max_quote) =
        buy_quote_input(1007, 1, 1_000_000, 1_000_000, 30, 5).unwrap();
    assert_eq!(effective, 1007 * 10_000 / 10_035);
    assert_eq!(effective, 1003);
    assert_eq!(base, 1_000_000u64 * 1003 / 1_001_003);
    assert_eq!(base, 1001);
    assert_eq!(max_quote, 1017);
}

#[test]
fn buy_quote_input_rejections() {
    assert_eq!(buy_quote_input(0, 1, 10, 10, 30, 5), Err(ClientError::ZeroAmount));
    assert_eq!(buy_quote_input(1, 1, 0, 10, 30, 5), Err(ClientError::ZeroReserve));
    assert_eq!(buy_quote_input(1, 1, 10, 0, 30, 5), Err(ClientError::ZeroReserve));
    assert_eq!(buy_quote_input(1, 1, 10, 10, u64::MAX, 1), Err(ClientError::AdditionOverflow));
    assert_eq!(
        buy_quote_input(1, 1, 10, 10, u64::MAX - 10_000, 1),
        Err(ClientError::AdditionOverflow)
    );
    assert_eq!(
        buy_quote_input(u64::MAX, 1, 10, 10, 30, 5),
        Err(ClientError::ConversionOverflow)
    );
}

#[test]
fn buy_round_trip_on_samples() {
    let reserves = [(1_000_000u64, 1_000_000u64), (10, 1000), (1000, 10), (123_456_789, 987)];
    let quotes = [1u64, 2, 500, 1007, 99_999, 1_000_000_000];
    let rates = [(0u64, 0u64), (30, 5), (20, 5), (9_000, 2_000)];
    for (base_reserve, quote_reserve) in reserves {
        for quote in quotes {
            for (lp, protocol) in rates {
                let (effective, base, _) =
                    buy_quote_input(quote, 3, base_reserve, quote_reserve, lp, protocol).unwrap();
                if base == 0 {
                    assert_eq!(
                        buy_base_input(base, 0, base_reserve, quote_reserve, lp, protocol),
                        Err(ClientError::ZeroAmount)
                    );
                    continue;
                }
                let (raw, total, max_quote) =
                    buy_base_input(base, 0, base_reserve, quote_reserve, lp, protocol).unwrap();
                assert!(raw <= effective);
                assert!(total <= quote + 1);
                assert_eq!(max_quote, total);
                let again = (base_reserve as u128 * raw as u128)
                    / (quote_reserve as u128 + raw as u128);
                assert_eq!(again as u64, base);
            }
        }
    }
}

#[test]
fn buy_round_trip_can_drift_far_below_the_quote() {
    let (effective, base, _) = buy_quote_input(500, 0, 10, 1000, 0, 0).unwrap();
    assert_eq!((effective, base), (500, 3));
    let (raw, total, _) = buy_base_input(base, 0, 10, 1000, 0, 0).unwrap();
    assert_eq!((raw, total), (429, 429));
}

#[test]
fn sell_base_input_values() {
    let creator = Address::new([7u8; 32]);
    let (kept, raw, min_quote) =
        sell_base_input(1000, 1, 1_000_000, 1_000_000, 20, 5, 5, &creator).unwrap();
    assert_eq!(raw, 999);
    assert_eq!(kept, 999 - 2 - 1 - 1);
    assert_eq!(min_quote, 995 * 99 / 100);
    let none = Address::default();
    let (kept, raw, min_quote) =
        sell_base_input(1000, 0, 1_000_000, 1_000_000, 20, 5, 5, &none).unwrap();
    assert_eq!((kept, raw, min_quote), (996, 999, 996));
}

#[test]
fn sell_base_input_rejections() {
    let creator = Address::new([7u8; 32]);
    assert_eq!(
        sell_base_input(1, 1, 0, 10, 20, 5, 5, &creator),
        Err(ClientError::ZeroReserve)
    );
    assert_eq!(
        sell_base_input(1, 1, 10, 0, 20, 5, 5, &creator),
        Err(ClientError::ZeroReserve)
    );
    assert_eq!(
        sell_base_input(1000, 1, 1_000_000, 1_000_000, 6_000, 5_000, 0, &creator),
        Err(ClientError::SubtractionUnderflow)
    );
    assert_eq!(
        sell_base_input(1000, 101, 1_000_000, 1_000_000, 20, 5, 5, &creator),
        Err(ClientError::InvalidSlippage)
    );
    assert_eq!(
        sell_base_input(u64::MAX, 1, 1, u64::MAX, u64::MAX, 5, 5, &creator),
        Err(ClientError::ConversionOverflow)
    );
    assert_eq!(sell_base_input(0, 1, 10, 10, 20, 5, 5, &creator), Ok((0, 0, 0)));
}

#[test]
fn calculate_quote_amount_out_values() {
    assert_eq!(calculate_quote_amount_out(1000, 20, 5, 5), Ok(1004));
    assert_eq!(calculate_quote_amount_out(9970, 20, 5, 5), Ok(10_000));
    assert_eq!(calculate_quote_amount_out(1000, 0, 0, 0), Ok(1000));
    assert_eq!(
        calculate_quote_amount_out(1000, u64::MAX, 1, 0),
        Err(ClientError::AdditionOverflow)
    );
    assert_eq!(
        calculate_quote_amount_out(1000, 1, 1, u64::MAX - 1),
        Err(ClientError::AdditionOverflow)
    );
    assert_eq!(
        calculate_quote_amount_out(1000, 10_000, 1, 0),
        Err(ClientError::SubtractionUnderflow)
    );
    assert_eq!(
        calculate_quote_amount_out(1000, 5_000, 5_000, 0),
        Err(ClientError::DivisionByZero)
    );
    assert_eq!(
        calculate_quote_amount_out(u64::MAX, 9_999, 0, 0),
        Err(ClientError::ConversionOverflow)
    );
}

#[test]
fn sell_quote_input_values() {
    let creator = Address::new([7u8; 32]);
    let (raw, base, min_quote) =
        sell_quote_input(1000, 1, 1_000_000, 1_000_000, 20, 5, 5, &creator).unwrap();
    assert_eq!(raw, 1004);
    assert_eq!(base, (1_000_000u64 * 1004 + 998_995) / 998_996);
    assert_eq!(base, 1006);
    assert_eq!(min_quote, 990);
    let none = Address::default();
    let (raw, _, _) = sell_quote_input(1000, 1, 1_000_000, 1_000_000, 20, 5, 5_000, &none).unwrap();
    assert_eq!(raw, 1003);
}

#[test]
fn sell_quote_input_rejections() {
    let creator = Address::new([7u8; 32]);
    assert_eq!(
        sell_quote_input(1, 1, 0, 10, 20, 5, 5, &creator),
        Err(ClientError::ZeroReserve)
    );
    assert_eq!(
        sell_quote_input(11, 1, 10, 10, 20, 5, 5, &creator),
        Err(ClientError::PoolDepleted)
    );
    assert_eq!(
        sell_quote_input(10, 1, 10, 10, 20, 5, 5, &creator),
        Err(ClientError::PoolDepleted)
    );
    assert_eq!(
        sell_quote_input(5, 1, 10, 10, 5_000, 5_000, 0, &creator),
        Err(ClientError::DivisionByZero)
    );
    assert_eq!(
        sell_quote_input(5, 1, 10, 10, 5_000, 5_000, 1, &creator),
        Err(ClientError::SubtractionUnderflow)
    );
    assert_eq!(
        sell_quote_input(5, 101, 10, 20, 20, 5, 5, &creator),
        Err(ClientError::InvalidSlippage)
    );
    assert_eq!(
        sell_quote_input(u64::MAX - 2, 1, u64::MAX, u64::MAX, 0, 0, 0, &creator),
        Err(ClientError::ConversionOverflow)
    );
}

#[test]
fn deposit_lp_token_values() {
    assert_eq!(deposit_lp_token(100_000, 0, 10_000_000, 10_000_000, 1_000_000), Ok((1_000_000, 1_000_000)));
    assert_eq!(deposit_lp_token(100_000, 1, 10_000_000, 10_000_000, 1_000_000), Ok((1_010_000, 1_010_000)));
    assert_eq!(deposit_lp_token(1, 0, 10, 7, 3), Ok((4, 3)));
    assert_eq!(deposit_lp_token(1, 50, 10, 7, 3), Ok((6, 4)));
    assert_eq!(deposit_lp_token(0, 50, 10, 7, 3), Ok((0, 0)));
}

#[test]
fn deposit_lp_token_rejections() {
    assert_eq!(deposit_lp_token(1, 0, 10, 7, 0), Err(ClientError::ZeroLpSupply));
    assert_eq!(deposit_lp_token(1, 101, 10, 7, 3), Err(ClientError::InvalidSlippage));
    assert_eq!(deposit_lp_token(1, 101, 10, 7, 0), Err(ClientError::ZeroLpSupply));
    assert_eq!(deposit_lp_token(u64::MAX, 0, 10, 7, 3), Err(ClientError::ConversionOverflow));
    assert_eq!(deposit_lp_token(1, 1, u64::MAX, 7, 1), Err(ClientError::ConversionOverflow));
}

#[test]
fn deposit_token0_values() {
    assert_eq!(
        deposit_token0(1_000, 1, 1_000_000, 2_000_000, 500_000),
        Ok((2_000, 500, 1_010, 2_020))
    );
    assert_eq!(deposit_token0(7, 0, 3, 10, 5), Ok((23, 11, 7, 23)));
}

#[test]
fn deposit_token0_rejections() {
    assert_eq!(deposit_token0(7, 101, 3, 10, 5), Err(ClientError::InvalidSlippage));
    assert_eq!(deposit_token0(7, 1, 0, 10, 5), Err(ClientError::DivisionByZero));
    assert_eq!(deposit_token0(u64::MAX, 1, 1, 10, 5), Err(ClientError::ConversionOverflow));
    assert_eq!(deposit_token0(u64::MAX, 0, 1, 1, 5), Err(ClientError::ConversionOverflow));
}

#[test]
fn withdraw_lp_token_scenario() {
    assert_eq!(
        withdraw_lp_token(100_000, 0, 10_000_000, 10_000_000, 1_000_000),
        Ok((1_000_000, 1_000_000, 1_000_000, 1_000_000))
    );
    assert_eq!(
        withdraw_lp_token(100_000, 1, 10_000_000, 10_000_000, 1_000_000),
        Ok((1_000_000, 1_000_000, 990_000, 990_000))
    );
    assert_eq!(withdraw_lp_token(1, 0, 10, 7, 3), Ok((3, 2, 3, 2)));
}

#[test]
fn withdraw_lp_token_rejections() {
    assert_eq!(withdraw_lp_token(0, 0, 10, 7, 3), Err(ClientError::ZeroAmount));
    assert_eq!(withdraw_lp_token(1, 0, 10, 7, 0), Err(ClientError::ZeroLpSupply));
    assert_eq!(withdraw_lp_token(0, 0, 10, 7, 0), Err(ClientError::ZeroAmount));
    assert_eq!(withdraw_lp_token(1, 101, 10, 7, 3), Err(ClientError::InvalidSlippage));
    assert_eq!(withdraw_lp_token(u64::MAX, 0, 10, 7, 3), Err(ClientError::ConversionOverflow));
}

#[test]
fn deposit_then_withdraw_round_trip_on_samples() {
    let pools = [
        (10_000_000u64, 10_000_000u64, 1_000_000u64),
        (10, 7, 3),
        (1, 1, 1),
        (999_999_937, 1_000_003, 123_457),
        (0, 5, 9),
    ];
    let amounts = [1u64, 2, 3, 1000, 100_000, 77_777_777];
    for (base_reserve, quote_reserve, supply) in pools {
        for lp in amounts {
            let (base_in, quote_in) =
                deposit_lp_token(lp, 0, base_reserve, quote_reserve, supply).unwrap();
            let (base_out, quote_out, min_base, min_quote) = withdraw_lp_token(
                lp,
                0,
                base_reserve + base_in,
                quote_reserve + quote_in,
                supply + lp,
            )
            .unwrap();
            assert!(base_out <= base_in && base_in <= base_out + 1);
            assert!(quote_out <= quote_in && quote_in <= quote_out + 1);
            assert_eq!((min_base, min_quote), (base_out, quote_out));
        }
    }
}

#[test]
fn slippage_bounds_on_samples() {
    let creator = Address::new([9u8; 32]);
    for slippage in [0u8, 1, 5, 50, 100] {
        let (_, total, max_quote) =
            buy_base_input(1000, slippage, 1_000_000, 2_000_000, 30, 5).unwrap();
        assert!(max_quote >= total);
        assert_eq!(slippage == 0, max_quote == total);
        let (_, _, max_quote) =
            buy_quote_input(1000, slippage, 1_000_000, 2_000_000, 30, 5).unwrap();
        assert!(max_quote >= 1000);
        assert_eq!(slippage == 0, max_quote == 1000);
        let (kept, _, min_quote) =
            sell_base_input(1000, slippage, 1_000_000, 2_000_000, 30, 5, 5, &creator).unwrap();
        assert!(min_quote <= kept);
        assert_eq!(slippage == 0, min_quote == kept);
        let (_, _, min_quote) =
            sell_quote_input(1000, slippage, 1_000_000, 2_000_000, 30, 5, 5, &creator).unwrap();
        assert!(min_quote <= 1000);
        assert_eq!(slippage == 0, min_quote == 1000);
    }
}

#[test]
fn slippage_in_basis_points() {
    assert_eq!(calculate_with_slippage_buy(1_000_000_000, 100), 1_010_000_000);
    assert_eq!(calculate_with_slippage_sell(1_000_000_000, 100), 990_000_000);
    assert_eq!(calculate_with_slippage_buy(999, 1), 999);
    assert_eq!(calculate_with_slippage_sell(999, 10_000), 0);
    assert_eq!(calculate_with_slippage_buy(0, 500), 0);
}
