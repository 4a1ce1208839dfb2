use hyperplane::curve::fees::{calculate_fee, Fees};
use hyperplane::error::SwapError;

#[test]
fn calculate_fee_rounds_down_with_a_minimum_of_one() {
    assert_eq!(calculate_fee(1_000, 25, 10_000), Ok(2));
    assert_eq!(calculate_fee(10, 25, 10_000), Ok(1));
    assert_eq!(calculate_fee(0, 25, 10_000), Ok(0));
    assert_eq!(calculate_fee(1_000, 0, 10_000), Ok(0));
    assert_eq!(calculate_fee(1_000, 1, 0), Err(SwapError::CalculationFailure));
    assert_eq!(
        calculate_fee(u128::MAX, 2, 10_000),
        Err(SwapError::CalculationFailure)
    );
}

#[test]
fn fee_methods_use_their_fraction() {
    let fees = Fees {
        trade_fee_numerator: 1,
        trade_fee_denominator: 100,
        owner_trade_fee_numerator: 2,
        owner_trade_fee_denominator: 100,
        owner_withdraw_fee_numerator: 3,
        owner_withdraw_fee_denominator: 100,
        host_fee_numerator: 20,
        host_fee_denominator: 100,
    };
    assert_eq!(fees.trading_fee(1_000), Ok(10));
    assert_eq!(fees.owner_trading_fee(1_000), Ok(20));
    assert_eq!(fees.owner_withdraw_fee(1_000), Ok(30));
    assert_eq!(fees.host_fee(1_000), Ok(200));
    assert_eq!(fees.validate(), Ok(()));
}

#[test]
fn pre_trading_fee_amount_inverts_fees() {
    let fees = Fees {
        trade_fee_numerator: 1,
        trade_fee_denominator: 100,
        ..Default::default()
    };
    // 99 after a 1% fee comes from 100
    assert_eq!(fees.pre_trading_fee_amount(99), Ok(100));
    let fees = Fees {
        trade_fee_numerator: 1,
        trade_fee_denominator: 100,
        owner_trade_fee_numerator: 1,
        owner_trade_fee_denominator: 100,
        ..Default::default()
    };
    // 98 after 1% + 1% comes from 100
    assert_eq!(fees.pre_trading_fee_amount(98), Ok(100));
    assert_eq!(Fees::default().pre_trading_fee_amount(98), Ok(98));
    let fees = Fees {
        owner_trade_fee_numerator: 5,
        owner_trade_fee_denominator: 5,
        ..Default::default()
    };
    assert_eq!(fees.pre_trading_fee_amount(98), Ok(0));
}

#[test]
fn validate_rejects_improper_fractions() {
    assert_eq!(Fees::default().validate(), Ok(()));
    let fees = Fees {
        trade_fee_numerator: 1,
        trade_fee_denominator: 1,
        ..Default::default()
    };
    assert_eq!(fees.validate(), Err(SwapError::InvalidFee));
    let fees = Fees {
        host_fee_numerator: 1,
        host_fee_denominator: 0,
        ..Default::default()
    };
    assert_eq!(fees.validate(), Err(SwapError::InvalidFee));
}

#[test]
fn pre_trading_fee_amount_covers_the_output() {
    let fees = Fees {
        trade_fee_numerator: 25,
        trade_fee_denominator: 10_000,
        owner_trade_fee_numerator: 5,
        owner_trade_fee_denominator: 10_000,
        ..Default::default()
    };
    for post in [1_000u128, 4_321, 99_999, 1_000_000] {
        let pre = fees.pre_trading_fee_amount(post).unwrap();
        let left = pre - fees.trading_fee(pre).unwrap() - fees.owner_trading_fee(pre).unwrap();
        assert!(left >= post, "post={post} pre={pre}");
    }
}
