use hyperplane::curve::base::{CurveCalculator, CurveParameters, CurveType, SwapCurve};
use hyperplane::curve::calculator::{RoundDirection, TradeDirection, INITIAL_SWAP_POOL_AMOUNT};
use hyperplane::curve::constant_price::ConstantPriceCurve;
use hyperplane::curve::constant_product::{self, ConstantProductCurve};
use hyperplane::curve::fees::Fees;
use hyperplane::curve::offset::OffsetCurve;
use hyperplane::curve::precise::{to_imprecise_fits, Precise};
use hyperplane::curve::wide::Wide;
use hyperplane::curve::stable::{self, StableCurve};
use hyperplane::error::SwapError;

const CONVERSION_BASIS_POINTS_GUARANTEE: u128 = 50;

fn fees_of(numbers: [u64; 8]) -> Fees {
    Fees {
        trade_fee_numerator: numbers[0],
        trade_fee_denominator: numbers[1],
        owner_trade_fee_numerator: numbers[2],
        owner_trade_fee_denominator: numbers[3],
        owner_withdraw_fee_numerator: numbers[4],
        owner_withdraw_fee_denominator: numbers[5],
        host_fee_numerator: numbers[6],
        host_fee_denominator: numbers[7],
    }
}

fn constant_product_curve() -> SwapCurve {
    SwapCurve {
        curve_type: CurveType::ConstantProduct,
        calculator: CurveCalculator::ConstantProduct(ConstantProductCurve::default()),
    }
}

#[test]
fn constant_product_trade_fee() {
    // calculation on https://github.com/solana-labs/solana-program-library/issues/341
    let swap_source_amount = 1000;
    let swap_destination_amount = 50000;
    let fees = fees_of([1, 100, 0, 0, 0, 0, 0, 0]);
    let source_amount = 100;
    let swap_curve = constant_product_curve();
    let result = swap_curve
        .swap(
            source_amount,
            swap_source_amount,
            swap_destination_amount,
            TradeDirection::AtoB,
            &fees,
        )
        .unwrap();
    assert_eq!(result.new_pool_source_amount, 1100);
    assert_eq!(result.destination_amount_swapped, 4504);
    assert_eq!(result.new_pool_destination_amount, 45496);
    assert_eq!(result.trade_fee, 1);
    assert_eq!(result.owner_fee, 0);
}

#[test]
fn constant_product_owner_fee() {
    // calculation on https://github.com/solana-labs/solana-program-library/issues/341
    let swap_source_amount = 1000;
    let swap_destination_amount = 50000;
    let fees = fees_of([0, 0, 1, 100, 0, 0, 0, 0]);
    let source_amount: u128 = 100;
    let swap_curve = constant_product_curve();
    let result = swap_curve
        .swap(
            source_amount,
            swap_source_amount,
            swap_destination_amount,
            TradeDirection::AtoB,
            &fees,
        )
        .unwrap();
    assert_eq!(result.new_pool_source_amount, 1099);
    assert_eq!(result.total_source_amount_swapped, 100);
    assert_eq!(result.source_amount_swapped, 99);
    assert_eq!(result.destination_amount_swapped, 4504);
    assert_eq!(result.new_pool_destination_amount, 45496);
    assert_eq!(result.trade_fee, 0);
    assert_eq!(result.owner_fee, 1);
}

#[test]
fn constant_product_no_fee() {
    let swap_source_amount: u128 = 1_000;
    let swap_destination_amount: u128 = 50_000;
    let source_amount: u128 = 100;
    let fees = Fees::default();
    let swap_curve = constant_product_curve();
    let result = swap_curve
        .swap(
            source_amount,
            swap_source_amount,
            swap_destination_amount,
            TradeDirection::AtoB,
            &fees,
        )
        .unwrap();
    assert_eq!(result.new_pool_source_amount, 1100);
    assert_eq!(result.destination_amount_swapped, 4545);
    assert_eq!(result.new_pool_destination_amount, 45455);
}

#[test]
fn constant_product_initial_pool_amount() {
    let calculator = CurveCalculator::ConstantProduct(ConstantProductCurve::default());
    assert_eq!(calculator.new_pool_supply(), INITIAL_SWAP_POOL_AMOUNT);
}

fn check_pool_token_rate(
    calculator: &CurveCalculator,
    token_a: u128,
    token_b: u128,
    deposit: u128,
    supply: u128,
    expected_a: u128,
    expected_b: u128,
) {
    let results = calculator
        .pool_tokens_to_trading_tokens(deposit, supply, token_a, token_b, RoundDirection::Ceiling)
        .unwrap();
    assert_eq!(results.token_a_amount, expected_a);
    assert_eq!(results.token_b_amount, expected_b);
}

#[test]
fn constant_product_trading_token_conversion() {
    let calculator = CurveCalculator::ConstantProduct(ConstantProductCurve::default());
    check_pool_token_rate(&calculator, 2, 49, 5, 10, 1, 25);
    check_pool_token_rate(&calculator, 100, 202, 5, 101, 5, 10);
    check_pool_token_rate(&calculator, 5, 501, 2, 10, 1, 101);
}

#[test]
fn fail_trading_token_conversion() {
    let calculator = ConstantProductCurve::default();
    let results =
        calculator.pool_tokens_to_trading_tokens(5, 10, u128::MAX, 0, RoundDirection::Floor);
    assert_eq!(results, Err(SwapError::CalculationFailure));
    let results =
        calculator.pool_tokens_to_trading_tokens(5, 10, 0, u128::MAX, RoundDirection::Floor);
    assert_eq!(results, Err(SwapError::CalculationFailure));
}

fn test_truncation(
    curve: &ConstantProductCurve,
    source_amount: u128,
    swap_source_amount: u128,
    swap_destination_amount: u128,
    expected_source_amount_swapped: u128,
    expected_destination_amount_swapped: u128,
) {
    let invariant = swap_source_amount * swap_destination_amount;
    let result = curve
        .swap_without_fees(
            source_amount,
            swap_source_amount,
            swap_destination_amount,
            TradeDirection::AtoB,
        )
        .unwrap();
    assert_eq!(result.source_amount_swapped, expected_source_amount_swapped);
    assert_eq!(
        result.destination_amount_swapped,
        expected_destination_amount_swapped
    );
    let new_invariant = (swap_source_amount + result.source_amount_swapped)
        * (swap_destination_amount - result.destination_amount_swapped);
    assert!(new_invariant >= invariant);
}

#[test]
fn constant_product_swap_rounding() {
    let curve = ConstantProductCurve::default();

    // much too small
    assert!(curve
        .swap_without_fees(10, 70_000_000_000, 4_000_000, TradeDirection::AtoB)
        .is_err()); // spot: 10 * 4m / 70b = 0

    let tests: &[(u128, u128, u128, u128, u128)] = &[
        (10, 4_000_000, 70_000_000_000, 10, 174_999), // spot: 10 * 70b / ~4m = 174,999.99
        (20, 30_000 - 20, 10_000, 18, 6), // spot: 20 * 1 / 3.000 = 6.6667 (source can be 18 to get 6 dest.)
        (19, 30_000 - 20, 10_000, 18, 6), // spot: 19 * 1 / 2.999 = 6.3334 (source can be 18 to get 6 dest.)
        (18, 30_000 - 20, 10_000, 18, 6), // spot: 18 * 1 / 2.999 = 6.0001
        (10, 20_000, 30_000, 10, 14),     // spot: 10 * 3 / 2.0010 = 14.99
        (10, 20_000 - 9, 30_000, 10, 14), // spot: 10 * 3 / 2.0001 = 14.999
        (10, 20_000 - 10, 30_000, 10, 15), // spot: 10 * 3 / 2.0000 = 15
        (100, 60_000, 30_000, 99, 49), // spot: 100 * 3 / 6.001 = 49.99 (source can be 99 to get 49 dest.)
        (99, 60_000, 30_000, 99, 49),  // spot: 99 * 3 / 6.001 = 49.49
        (98, 60_000, 30_000, 97, 48), // spot: 98 * 3 / 6.001 = 48.99 (source can be 97 to get 48 dest.)
    ];
    for (
        source_amount,
        swap_source_amount,
        swap_destination_amount,
        expected_source_amount,
        expected_destination_amount,
    ) in tests.iter()
    {
        test_truncation(
            &curve,
            *source_amount,
            *swap_source_amount,
            *swap_destination_amount,
            *expected_source_amount,
            *expected_destination_amount,
        );
    }
}

#[test]
fn swap_no_offset() {
    let swap_source_amount: u128 = 1_000;
    let swap_destination_amount: u128 = 50_000;
    let source_amount: u128 = 100;
    let curve = OffsetCurve::default();
    let result = curve
        .swap_without_fees(
            source_amount,
            swap_source_amount,
            swap_destination_amount,
            TradeDirection::AtoB,
        )
        .unwrap();
    assert_eq!(result.source_amount_swapped, source_amount);
    assert_eq!(result.destination_amount_swapped, 4545);
    let result = curve
        .swap_without_fees(
            source_amount,
            swap_source_amount,
            swap_destination_amount,
            TradeDirection::BtoA,
        )
        .unwrap();
    assert_eq!(result.source_amount_swapped, source_amount);
    assert_eq!(result.destination_amount_swapped, 4545);
}

#[test]
fn swap_offset() {
    let swap_source_amount: u128 = 1_000_000;
    let swap_destination_amount: u128 = 0;
    let source_amount: u128 = 100;
    let token_b_offset = 1_000_000;
    let curve = OffsetCurve { token_b_offset };
    let result = curve
        .swap_without_fees(
            source_amount,
            swap_source_amount,
            swap_destination_amount,
            TradeDirection::AtoB,
        )
        .unwrap();
    assert_eq!(result.source_amount_swapped, source_amount);
    assert_eq!(result.destination_amount_swapped, source_amount - 1);

    let bad_result = curve.swap_without_fees(
        source_amount,
        swap_source_amount,
        swap_destination_amount,
        TradeDirection::BtoA,
    );
    assert!(bad_result.is_err());
}

#[test]
fn swap_a_to_b_max_offset() {
    let swap_source_amount: u128 = 10_000_000;
    let swap_destination_amount: u128 = 1_000;
    let source_amount: u128 = 1_000;
    let token_b_offset = u64::MAX;
    let curve = OffsetCurve { token_b_offset };
    let result = curve
        .swap_without_fees(
            source_amount,
            swap_source_amount,
            swap_destination_amount,
            TradeDirection::AtoB,
        )
        .unwrap();
    assert_eq!(result.source_amount_swapped, source_amount);
    assert_eq!(result.destination_amount_swapped, 1_844_489_958_375_117);
}

#[test]
fn swap_b_to_a_max_offset() {
    let swap_source_amount: u128 = 10_000_000;
    let swap_destination_amount: u128 = 1_000;
    let source_amount: u128 = u64::MAX.into();
    let token_b_offset = u64::MAX;
    let curve = OffsetCurve { token_b_offset };
    let result = curve
        .swap_without_fees(
            source_amount,
            swap_source_amount,
            swap_destination_amount,
            TradeDirection::BtoA,
        )
        .unwrap();
    assert_eq!(result.source_amount_swapped, 18_373_104_376_818_475_561);
    assert_eq!(result.destination_amount_swapped, 499);
}

#[test]
fn stable_initial_pool_amount() {
    let calculator = CurveCalculator::Stable(StableCurve {
        amp: 1,
        ..Default::default()
    });
    assert_eq!(calculator.new_pool_supply(), INITIAL_SWAP_POOL_AMOUNT);
}

#[test]
fn stable_trading_token_conversion() {
    let calculator = CurveCalculator::Stable(StableCurve {
        amp: 1,
        ..Default::default()
    });
    check_pool_token_rate(&calculator, 2, 49, 5, 10, 1, 25);
    check_pool_token_rate(&calculator, 100, 202, 5, 101, 5, 10);
    check_pool_token_rate(&calculator, 5, 501, 2, 10, 1, 101);
}

#[test]
fn swap_zero() {
    let curve = StableCurve {
        amp: 100,
        ..Default::default()
    };
    let result = curve.swap_without_fees(0, 100, 1_000_000_000_000_000, TradeDirection::AtoB);

    let result = result.unwrap();
    assert_eq!(result.source_amount_swapped, 0);
    assert_eq!(result.destination_amount_swapped, 0);
}

fn check_withdraw_token_conversion(
    curve: &StableCurve,
    pool_token_amount: u128,
    pool_token_supply: u128,
    swap_token_a_amount: u128,
    swap_token_b_amount: u128,
    trade_direction: TradeDirection,
    epsilon_in_basis_points: u128,
) {
    // withdraw the pool tokens
    let withdraw_result = curve
        .pool_tokens_to_trading_tokens(
            pool_token_amount,
            pool_token_supply,
            swap_token_a_amount,
            swap_token_b_amount,
            RoundDirection::Floor,
        )
        .unwrap();

    let new_swap_token_a_amount = swap_token_a_amount - withdraw_result.token_a_amount;
    let new_swap_token_b_amount = swap_token_b_amount - withdraw_result.token_b_amount;

    // swap one side of them
    let source_token_amount = match trade_direction {
        TradeDirection::AtoB => {
            let results = curve
                .swap_without_fees(
                    withdraw_result.token_a_amount,
                    new_swap_token_a_amount,
                    new_swap_token_b_amount,
                    trade_direction,
                )
                .unwrap();
            withdraw_result.token_b_amount + results.destination_amount_swapped
        }
        TradeDirection::BtoA => {
            let results = curve
                .swap_without_fees(
                    withdraw_result.token_b_amount,
                    new_swap_token_b_amount,
                    new_swap_token_a_amount,
                    trade_direction,
                )
                .unwrap();
            withdraw_result.token_a_amount + results.destination_amount_swapped
        }
    };

    // see how many pool tokens it would cost to withdraw one side for the
    // total amount of tokens, should be close!
    let opposite_direction = trade_direction.opposite();
    let pool_token_amount_from_single_side_withdraw = curve
        .withdraw_single_token_type_exact_out(
            source_token_amount,
            swap_token_a_amount,
            swap_token_b_amount,
            pool_token_supply,
            opposite_direction,
            RoundDirection::Ceiling,
        )
        .unwrap();

    // slight discrepancy due to rounding, but it should be within epsilon
    let epsilon = std::cmp::max(1, pool_token_amount * epsilon_in_basis_points / 10000);
    let difference = if pool_token_amount >= pool_token_amount_from_single_side_withdraw {
        pool_token_amount - pool_token_amount_from_single_side_withdraw
    } else {
        pool_token_amount_from_single_side_withdraw - pool_token_amount
    };
    assert!(
        difference <= epsilon,
        "difference expected to be less than {}, actually {}",
        epsilon,
        difference
    );
}

// this test comes from a failed proptest
#[test]
fn withdraw_token_conversion_huge_withdrawal() {
    let pool_token_supply: u64 = 12798273514859089136;
    let pool_token_amount: u64 = 12798243809352362806;
    let swap_token_a_amount: u64 = 10000000000000000000;
    let swap_token_b_amount: u64 = 6000000000000000000;
    let amp = 72;
    let curve = StableCurve {
        amp,
        ..Default::default()
    };
    check_withdraw_token_conversion(
        &curve,
        pool_token_amount as u128,
        pool_token_supply as u128,
        swap_token_a_amount as u128,
        swap_token_b_amount as u128,
        TradeDirection::AtoB,
        CONVERSION_BASIS_POINTS_GUARANTEE,
    );
}

#[test]
fn stable_swap_balanced_pool() {
    // a balanced pool with a high amplifier trades close to one to one
    let curve = StableCurve {
        amp: 100,
        ..Default::default()
    };
    let result = curve
        .swap_without_fees(1_000, 1_000_000, 1_000_000, TradeDirection::AtoB)
        .unwrap();
    assert_eq!(result.source_amount_swapped, 1_000);
    assert!(result.destination_amount_swapped <= 1_000);
    assert!(result.destination_amount_swapped >= 990);
}

#[test]
fn stable_compute_d_of_balanced_pool() {
    // on a balanced pool the invariant is the sum of the amounts
    assert_eq!(stable::compute_d(200, 1_000_000, 1_000_000), Some(2_000_000));
    assert_eq!(stable::compute_d(200, 0, 0), Some(0));
    assert_eq!(stable::compute_a(100), Some(200));
    assert_eq!(stable::compute_a(u64::MAX), None);
}

#[test]
fn stable_validate_amp() {
    assert_eq!(StableCurve { amp: 0, ..Default::default() }.validate(), Err(SwapError::InvalidCurve));
    assert_eq!(StableCurve { amp: 1, ..Default::default() }.validate(), Ok(()));
    assert_eq!(StableCurve { amp: 2, ..Default::default() }.validate(), Ok(()));
    assert_eq!(StableCurve { amp: 1_000_000, ..Default::default() }.validate(), Ok(()));
    assert_eq!(
        StableCurve { amp: 1_000_001, ..Default::default() }.validate(),
        Err(SwapError::InvalidCurve)
    );
}

#[test]
fn stable_deposit_single_token_type() {
    let curve = StableCurve {
        amp: 100,
        ..Default::default()
    };
    assert_eq!(
        curve.deposit_single_token_type(0, 1_000_000, 1_000_000, 1_000, TradeDirection::AtoB),
        Some(0)
    );
    // depositing a tenth of one side of a balanced pool buys a bit under a
    // twentieth of the pool
    let minted = curve
        .deposit_single_token_type(100_000, 1_000_000, 1_000_000, 1_000_000, TradeDirection::AtoB)
        .unwrap();
    assert!(minted <= 50_000);
    assert!(minted >= 49_000);
}

#[test]
fn stable_normalized_value_is_invariant() {
    let curve = StableCurve {
        amp: 100,
        ..Default::default()
    };
    let value = curve.normalized_value(1_000_000, 1_000_000).unwrap();
    // two million, in twelve-decimal fixed point
    let raw = (value.value.w0 as u128) + ((value.value.w1 as u128) << 64);
    assert_eq!(value.value.w2, 0);
    assert_eq!(value.value.w3, 0);
    assert_eq!(raw, 2_000_000 * 1_000_000_000_000);
}

#[test]
fn constant_product_normalized_value_is_square_root() {
    let value = constant_product::normalized_value(4, 9).unwrap();
    let raw = (value.value.w0 as u128) + ((value.value.w1 as u128) << 64);
    // six, within the precision of the square root
    let six = 6 * 1_000_000_000_000u128;
    let diff = if raw > six { raw - six } else { six - raw };
    assert!(diff < 1_000);
}

#[test]
fn offset_curve_rules() {
    let curve = OffsetCurve { token_b_offset: 0 };
    assert_eq!(curve.validate(), Err(SwapError::InvalidCurve));
    let curve = OffsetCurve { token_b_offset: 10 };
    assert_eq!(curve.validate(), Ok(()));
    assert!(!curve.allows_deposits());
    assert_eq!(curve.validate_supply(0, 100), Err(SwapError::EmptySupply));
    assert_eq!(curve.validate_supply(1, 0), Ok(()));
    // the offset counts on the token B side
    let result = curve
        .pool_tokens_to_trading_tokens(5, 10, 20, 10, RoundDirection::Floor)
        .unwrap();
    assert_eq!(result.token_a_amount, 10);
    assert_eq!(result.token_b_amount, 10);
}

#[test]
fn constant_price_swap() {
    let curve = ConstantPriceCurve { token_b_price: 10 };
    // 25 A buys 2 B; the 5 left over stay with the user
    let result = curve.swap_without_fees(25, 0, 0, TradeDirection::AtoB).unwrap();
    assert_eq!(result.source_amount_swapped, 20);
    assert_eq!(result.destination_amount_swapped, 2);
    let result = curve.swap_without_fees(3, 0, 0, TradeDirection::BtoA).unwrap();
    assert_eq!(result.source_amount_swapped, 3);
    assert_eq!(result.destination_amount_swapped, 30);
    assert_eq!(
        curve.swap_without_fees(9, 0, 0, TradeDirection::AtoB),
        Err(SwapError::ZeroTradingTokens)
    );
    assert_eq!(ConstantPriceCurve { token_b_price: 0 }.validate(), Err(SwapError::InvalidCurve));
}

#[test]
fn constant_price_withdraw_all() {
    // a pool of 1_000_000_000 A and 1_000 B at 2_000_000 A per B is worth
    // 1_500_000_000 of each side when fully withdrawn
    let calculator = CurveCalculator::ConstantPrice(ConstantPriceCurve {
        token_b_price: 2_000_000,
    });
    let result = calculator
        .pool_tokens_to_trading_tokens(
            INITIAL_SWAP_POOL_AMOUNT,
            INITIAL_SWAP_POOL_AMOUNT,
            1_000_000_000,
            1_000,
            RoundDirection::Floor,
        )
        .unwrap();
    assert_eq!(result.token_a_amount, 1_500_000_000);
    assert_eq!(result.token_b_amount, 750);
}

#[test]
fn curve_from_params() {
    let curve = SwapCurve::new_from_params(CurveParameters::Offset { token_b_offset: 7 }).unwrap();
    assert_eq!(curve.curve_type, CurveType::Offset);
    assert_eq!(
        curve.calculator,
        CurveCalculator::Offset(OffsetCurve { token_b_offset: 7 })
    );
    for curve_type in [
        CurveType::ConstantProduct,
        CurveType::ConstantPrice,
        CurveType::Offset,
        CurveType::Stable,
    ] {
        assert_eq!(CurveType::from_u64(curve_type.to_u64()), Some(curve_type));
    }
    assert_eq!(CurveType::from_u64(0), None);
    assert_eq!(CurveType::from_u64(5), None);
}

#[test]
fn swap_conserves_source_tokens() {
    let fees = fees_of([25, 10_000, 5, 10_000, 0, 0, 0, 0]);
    let swap_curve = constant_product_curve();
    let result = swap_curve
        .swap(1_000_000, 100_000_000, 300_000_000, TradeDirection::AtoB, &fees)
        .unwrap();
    assert_eq!(result.trade_fee, 2_500);
    assert_eq!(result.owner_fee, 500);
    assert_eq!(result.total_fees, 3_000);
    assert_eq!(
        result.total_source_amount_swapped,
        result.source_amount_swapped + result.total_fees
    );
    assert!(result.total_source_amount_swapped <= 1_000_000);
    assert_eq!(
        result.new_pool_source_amount,
        100_000_000 + result.source_amount_swapped + result.trade_fee
    );
    assert_eq!(
        result.new_pool_destination_amount + result.destination_amount_swapped,
        300_000_000
    );
}

#[test]
fn stable_single_token_rounding_fits() {
    let curve = StableCurve {
        amp: 100,
        ..Default::default()
    };
    assert!(curve.deposit_single_token_type_fits(0, 1_000_000, 1_000_000, 1_000, TradeDirection::AtoB));
    assert!(curve.deposit_single_token_type_fits(
        100_000,
        1_000_000,
        1_000_000,
        1_000_000,
        TradeDirection::AtoB
    ));
    for round in [RoundDirection::Floor, RoundDirection::Ceiling] {
        assert!(curve.withdraw_single_token_type_exact_out_fits(
            100_000,
            1_000_000,
            1_000_000,
            1_000_000,
            TradeDirection::BtoA,
            round
        ));
    }
}

#[test]
fn precise_to_imprecise_fits_only_u128_wholes() {
    // 2^128 - 1 whole units fit, 2^128 do not
    let fits = |w0: u64, w1: u64, w2: u64, w3: u64| {
        to_imprecise_fits(&Precise { value: Wide { w0, w1, w2, w3 } })
    };
    assert!(fits(5, 0, 0, 0));
    // 2^128 * 10^12, written in 64-bit words: 10^12 in the third word
    assert!(!fits(0, 0, 1_000_000_000_000, 0));
    // a value whose rounding overflows 256 bits returns None, no panic
    assert!(fits(u64::MAX, u64::MAX, u64::MAX, u64::MAX));
}

fn xorshift(seed: &mut u64) -> u64 {
    *seed ^= *seed << 13;
    *seed ^= *seed >> 7;
    *seed ^= *seed << 17;
    *seed
}

/// `4xy(L(x + y) - (L - 1)d) - d^3`: not negative where the pool is on or
/// above the stable curve of invariant `d`.
fn stable_gap(leverage: i128, x: i128, y: i128, d: i128) -> i128 {
    4 * x * y * (leverage * (x + y) - (leverage - 1) * d) - d * d * d
}

#[test]
fn stable_swap_keeps_the_pool_on_its_curve() {
    let mut seed = 0x9e37_79b9_7f4a_7c15u64;
    for _ in 0..3_000 {
        let amp = 1 + xorshift(&mut seed) % 99;
        let src = 1 + (xorshift(&mut seed) % 100_000) as u128;
        let dst = 1 + (xorshift(&mut seed) % 100_000) as u128;
        let amount = 1 + (xorshift(&mut seed) % 10_000) as u128;
        let curve = StableCurve { amp, ..Default::default() };
        if let Some(r) = curve.swap_without_fees(amount, src, dst, TradeDirection::AtoB) {
            let leverage = stable::compute_a(amp).unwrap();
            let d = stable::compute_d(leverage, src, dst).unwrap() as i128;
            let x = (src + amount) as i128;
            let y = (dst - r.destination_amount_swapped) as i128;
            let l = leverage as i128;
            let slack = (d * d * d) % (4 * x * l);
            assert!(stable_gap(l, x, y, d) + slack >= 0, "amp={amp} src={src} dst={dst} amount={amount}");
            // and the invariant Newton's method computes does not fall
            let d_after = stable::compute_d(leverage, src + amount, dst - r.destination_amount_swapped)
                .unwrap() as i128;
            assert!(d_after >= d, "amp={amp} src={src} dst={dst} amount={amount}");
        }
    }
}

#[test]
fn stable_deposit_and_withdraw_keep_value_per_pool_token() {
    let curve = SwapCurve::new_from_params(CurveParameters::Stable {
        amp: 50,
        token_a_decimals: 6,
        token_b_decimals: 6,
    })
    .unwrap();
    let leverage = stable::compute_a(50).unwrap();
    let (a, b, s): (u128, u128, u128) = (7_000, 13_000, 10_000);
    let d = stable::compute_d(leverage, a, b).unwrap() as i128;
    let l = leverage as i128;
    // the pool is on or above the curve of the invariant Newton's method gives
    assert!(stable_gap(l, a as i128, b as i128, d) >= 0);
    for p in [1u128, 7, 333, 1_234, 9_999] {
        let t = curve
            .calculator
            .pool_tokens_to_trading_tokens(p, s, a, b, RoundDirection::Ceiling)
            .unwrap();
        let (x2, y2, s2) = ((a + t.token_a_amount) as i128, (b + t.token_b_amount) as i128, (s + p) as i128);
        let si = s as i128;
        assert!(stable_gap(l, si * x2, si * y2, s2 * d) >= 0, "deposit p={p}");
        let t = curve
            .calculator
            .pool_tokens_to_trading_tokens(p, s, a, b, RoundDirection::Floor)
            .unwrap();
        let (x2, y2, s2) = ((a - t.token_a_amount) as i128, (b - t.token_b_amount) as i128, (s - p) as i128);
        assert!(stable_gap(l, si * x2, si * y2, s2 * d) >= 0, "withdraw p={p}");
    }
}

#[test]
fn offset_pool_token_value_never_falls_over_a_sequence() {
    let offset = 500_000u128;
    let curve = SwapCurve::new_from_params(CurveParameters::Offset { token_b_offset: offset as u64 }).unwrap();
    let fees = Fees {
        trade_fee_numerator: 25,
        trade_fee_denominator: 10_000,
        ..Default::default()
    };
    let (mut a, mut b, mut s): (u128, u128, u128) = (1_000_000, 200_000, 1_000_000);
    for round in 0..20u128 {
        let before = (a, b + offset, s);
        if round % 3 == 2 {
            let burnt = 1_111 + round;
            let t = curve
                .calculator
                .pool_tokens_to_trading_tokens(burnt, s, a, b, RoundDirection::Floor)
                .unwrap();
            if t.token_a_amount > a || t.token_b_amount > b {
                continue;
            }
            a -= t.token_a_amount;
            b -= t.token_b_amount;
            s -= burnt;
        } else if round % 2 == 0 {
            let res = curve.swap(3_000 + round * 11, a, b, TradeDirection::AtoB, &fees).unwrap();
            a = res.new_pool_source_amount;
            b = res.new_pool_destination_amount;
        } else {
            let res = curve.swap(2_000 + round * 13, b, a, TradeDirection::BtoA, &fees).unwrap();
            b = res.new_pool_source_amount;
            a = res.new_pool_destination_amount;
        }
        let after = (a, b + offset, s);
        assert!(
            before.0 * before.1 * after.2 * after.2 <= after.0 * after.1 * before.2 * before.2,
            "round {round}"
        );
    }
}
