use amm_core::curve::{quote_swap, quote_withdraw, SwapResult, XYAmounts};
use amm_core::AmmError;

#[test]
fn swap_scenario_floor_met() {
    let quote = quote_swap(1_000_000, 1_000_000, 10_000, 30, 9871);
    assert_eq!(quote, Ok(SwapResult { deposit: 9970, withdraw: 9871, fee: 30 }));
}

#[test]
fn swap_scenario_floor_missed() {
    assert_eq!(quote_swap(1_000_000, 1_000_000, 10_000, 30, 9872), Err(AmmError::SlippageViolation));
}

#[test]
fn swap_without_fee_keeps_whole_amount() {
    let quote = quote_swap(1_000, 4_000, 1_000, 0, 1);
    assert_eq!(quote, Ok(SwapResult { deposit: 1_000, withdraw: 2_000, fee: 0 }));
}

#[test]
fn swap_rounds_output_down() {
    // 500 * 100 / (300 + 100) = 125; 501 * 100 / 400 = 125.25
    assert_eq!(quote_swap(300, 500, 100, 0, 1).map(|q| q.withdraw), Ok(125));
    assert_eq!(quote_swap(300, 501, 100, 0, 1).map(|q| q.withdraw), Ok(125));
    assert_eq!(quote_swap(300, 504, 100, 0, 1).map(|q| q.withdraw), Ok(126));
}

#[test]
fn swap_rounds_fee_against_the_user() {
    // 999 * 9970 / 10000 = 996.003
    let quote = quote_swap(1_000_000, 1_000_000, 999, 30, 1).unwrap();
    assert_eq!(quote.deposit, 996);
    assert_eq!(quote.fee, 3);
}

#[test]
fn swap_on_empty_reserve_fails() {
    assert_eq!(quote_swap(0, 1_000, 10, 30, 1), Err(AmmError::ArithmeticFailure));
    assert_eq!(quote_swap(1_000, 0, 10, 30, 1), Err(AmmError::ArithmeticFailure));
}

#[test]
fn swap_with_fee_of_one_hundred_percent_fails() {
    assert_eq!(quote_swap(1_000, 1_000, 10, 10_000, 1), Err(AmmError::ArithmeticFailure));
    assert_eq!(quote_swap(1_000, 1_000, 10, u16::MAX, 1), Err(AmmError::ArithmeticFailure));
}

#[test]
fn swap_with_highest_fee_keeps_one_part_in_ten_thousand() {
    let quote = quote_swap(1_000_000, 1_000_000, 20_000, 9_999, 1).unwrap();
    assert_eq!(quote.deposit, 2);
    assert_eq!(quote.fee, 19_998);
    assert_eq!(quote.withdraw, 1);
}

#[test]
fn swap_whose_amount_the_fee_eats_fails() {
    // 1 * 9970 / 10000 = 0
    assert_eq!(quote_swap(1_000, 1_000, 1, 30, 1), Err(AmmError::InvalidArgument));
}

#[test]
fn swap_that_pays_nothing_fails() {
    // 10 * 5 / (1000 + 5) = 0
    assert_eq!(quote_swap(1_000, 10, 5, 0, 1), Err(AmmError::InvalidArgument));
}

#[test]
fn swap_of_largest_numbers_does_not_overflow() {
    let quote = quote_swap(u64::MAX, u64::MAX, u64::MAX, 0, 1).unwrap();
    assert_eq!(quote.deposit, u64::MAX);
    assert_eq!(quote.withdraw, u64::MAX / 2);
    assert_eq!(quote.fee, 0);
}

#[test]
fn swap_never_lowers_the_product() {
    let cases: [(u64, u64, u64, u16); 5] = [
        (1_000_000, 1_000_000, 10_000, 30),
        (7, 3, 5, 0),
        (123_456_789, 987_654_321, 55_555, 9_999),
        (1, u64::MAX, 1_000, 1),
        (u64::MAX, 1_000, u64::MAX, 5_000),
    ];
    for (reserve_in, reserve_out, amount_in, fee) in cases {
        if let Ok(quote) = quote_swap(reserve_in, reserve_out, amount_in, fee, 0) {
            assert!(quote.withdraw < reserve_out);
            let before = (reserve_in as u128) * (reserve_out as u128);
            let after = (reserve_in as u128 + quote.deposit as u128)
                * (reserve_out as u128 - quote.withdraw as u128);
            assert!(after >= before);
        }
    }
}

#[test]
fn withdraw_of_whole_supply_returns_reserves() {
    assert_eq!(quote_withdraw(1_234, 5_678, 100, 100), Ok(XYAmounts { x: 1_234, y: 5_678 }));
    assert_eq!(quote_withdraw(0, 0, 7, 7), Ok(XYAmounts { x: 0, y: 0 }));
    assert_eq!(
        quote_withdraw(u64::MAX, u64::MAX, u64::MAX, u64::MAX),
        Ok(XYAmounts { x: u64::MAX, y: u64::MAX })
    );
}

#[test]
fn withdraw_of_a_tenth() {
    // ratio left: 90 * 10^6 / 100 = 900000; kept: 1000 * 900000 / 10^6 = 900
    assert_eq!(quote_withdraw(1_000, 2_000, 100, 10), Ok(XYAmounts { x: 100, y: 200 }));
}

#[test]
fn withdraw_rounds_ratio_to_six_places() {
    // ratio left: 2 * 10^6 / 3 = 666666; kept: 3000000 * 666666 / 10^6 = 1999998
    assert_eq!(quote_withdraw(3_000_000, 3, 3, 1), Ok(XYAmounts { x: 1_000_002, y: 2 }));
}

#[test]
fn withdraw_of_more_than_supply_fails() {
    assert_eq!(quote_withdraw(1_000, 1_000, 10, 11), Err(AmmError::ArithmeticFailure));
    assert_eq!(quote_withdraw(1_000, 1_000, 0, 1), Err(AmmError::ArithmeticFailure));
}

#[test]
fn withdraw_of_nothing_returns_nothing() {
    assert_eq!(quote_withdraw(1_000, 1_000, 10, 0), Ok(XYAmounts { x: 0, y: 0 }));
}

#[test]
fn withdraw_grows_with_the_amount() {
    let supply: u64 = 1_000;
    let mut last = XYAmounts { x: 0, y: 0 };
    let mut amount: u64 = 1;
    while amount <= supply {
        let now = quote_withdraw(987_654_321, 12_345, supply, amount).unwrap();
        assert!(now.x >= last.x);
        assert!(now.y >= last.y);
        assert!(now.x <= 987_654_321);
        assert!(now.y <= 12_345);
        last = now;
        amount += 1;
    }
    assert_eq!(last, XYAmounts { x: 987_654_321, y: 12_345 });
}

#[test]
fn withdraw_quote_is_repeatable() {
    let first = quote_withdraw(5_000_000, 7_000_000, 123_456, 6_543);
    let second = quote_withdraw(5_000_000, 7_000_000, 123_456, 6_543);
    assert_eq!(first, second);
}
