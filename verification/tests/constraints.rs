use hyperplane::constraints::SwapConstraints;
use hyperplane::curve::base::{CurveCalculator, CurveType, SwapCurve};
use hyperplane::curve::constant_product::ConstantProductCurve;
use hyperplane::curve::fees::Fees;
use hyperplane::error::SwapError;
use solana_program::program_option::COption;
use solana_program::program_error::ProgramError;
use solana_program::pubkey::Pubkey;
use spl_token_2022::extension::transfer_fee::{TransferFee, TransferFeeConfig};
use spl_token_2022::extension::{ExtensionType, StateWithExtensionsMut};
use spl_token_2022::state::Mint;

#[test]
fn test_validate_fees() {
    let trade_fee_numerator = 1;
    let trade_fee_denominator = 4;
    let owner_trade_fee_numerator = 2;
    let owner_trade_fee_denominator = 5;
    let owner_withdraw_fee_numerator = 4;
    let owner_withdraw_fee_denominator = 10;
    let host_fee_numerator = 10;
    let host_fee_denominator = 100;
    let owner_key = "";
    let curve_type = CurveType::ConstantProduct;
    let valid_fees = Fees {
        trade_fee_numerator,
        trade_fee_denominator,
        owner_trade_fee_numerator,
        owner_trade_fee_denominator,
        owner_withdraw_fee_numerator,
        owner_withdraw_fee_denominator,
        host_fee_numerator,
        host_fee_denominator,
    };
    let calculator = ConstantProductCurve::default();
    let swap_curve = SwapCurve {
        curve_type,
        calculator: CurveCalculator::ConstantProduct(calculator),
    };
    let constraints = SwapConstraints {
        owner_key,
        valid_curve_types: &[curve_type],
        fees: &valid_fees,
        blocked_trading_token_extensions: &[],
    };

    constraints.validate_curve(&swap_curve).unwrap();
    constraints.validate_fees(&valid_fees).unwrap();

    let mut fees = valid_fees;
    fees.trade_fee_numerator = trade_fee_numerator - 1;
    assert_eq!(Err(SwapError::InvalidFee), constraints.validate_fees(&fees),);
    fees.trade_fee_numerator = trade_fee_numerator;

    // passing higher fee is ok
    fees.trade_fee_numerator = trade_fee_numerator - 1;
    assert_eq!(constraints.validate_fees(&valid_fees), Ok(()));
    fees.trade_fee_numerator = trade_fee_numerator;

    fees.trade_fee_denominator = trade_fee_denominator - 1;
    assert_eq!(Err(SwapError::InvalidFee), constraints.validate_fees(&fees),);
    fees.trade_fee_denominator = trade_fee_denominator;

    fees.trade_fee_denominator = trade_fee_denominator + 1;
    assert_eq!(Err(SwapError::InvalidFee), constraints.validate_fees(&fees),);
    fees.trade_fee_denominator = trade_fee_denominator;

    fees.owner_trade_fee_numerator = owner_trade_fee_numerator - 1;
    assert_eq!(Err(SwapError::InvalidFee), constraints.validate_fees(&fees),);
    fees.owner_trade_fee_numerator = owner_trade_fee_numerator;

    // passing higher fee is ok
    fees.owner_trade_fee_numerator = owner_trade_fee_numerator - 1;
    assert_eq!(constraints.validate_fees(&valid_fees), Ok(()));
    fees.owner_trade_fee_numerator = owner_trade_fee_numerator;

    fees.owner_trade_fee_denominator = owner_trade_fee_denominator - 1;
    assert_eq!(Err(SwapError::InvalidFee), constraints.validate_fees(&fees),);
    fees.owner_trade_fee_denominator = owner_trade_fee_denominator;

    let swap_curve = SwapCurve {
        curve_type: CurveType::ConstantPrice,
        calculator: CurveCalculator::ConstantProduct(calculator),
    };
    assert_eq!(
        Err(SwapError::UnsupportedCurveType),
        constraints.validate_curve(&swap_curve),
    );
}

#[test]
fn test_validate_admin() {
    let key = Pubkey::new_unique();
    let owner_key = &key.to_string();
    let fees = Fees::default();
    let constraints = SwapConstraints {
        owner_key,
        valid_curve_types: &[],
        fees: &fees,
        blocked_trading_token_extensions: &[],
    };

    constraints.validate_admin(&key.to_bytes()).unwrap();
}

#[test]
fn test_validate_admin_fail_when_invalid_admin() {
    let key = Pubkey::new_unique();
    let owner_key = &key.to_string();
    let fees = Fees::default();
    let constraints = SwapConstraints {
        owner_key,
        valid_curve_types: &[],
        fees: &fees,
        blocked_trading_token_extensions: &[],
    };

    let res = constraints.validate_admin(&Pubkey::new_unique().to_bytes());
    assert_eq!(res.err(), Some(SwapError::InvaliPoolAdmin));
}

#[test]
fn validate_admin_rejects_unparseable_owner_key() {
    let fees = Fees::default();
    let constraints = SwapConstraints {
        owner_key: "not a key",
        valid_curve_types: &[],
        fees: &fees,
        blocked_trading_token_extensions: &[],
    };
    let res = constraints.validate_admin(&Pubkey::new_unique().to_bytes());
    assert_eq!(res, Err(SwapError::InvaliPoolAdmin));
}

fn mint_with_transfer_fee(mint_data: &mut [u8], transfer_fee_bps: u16) {
    let mut mint = StateWithExtensionsMut::<Mint>::unpack_uninitialized(mint_data).unwrap();
    let extension = mint.init_extension::<TransferFeeConfig>(true).unwrap();
    extension.withheld_amount = 0u64.into();

    let transfer_fee = TransferFee {
        epoch: 0u64.into(),
        transfer_fee_basis_points: transfer_fee_bps.into(),
        maximum_fee: u64::MAX.into(),
    };
    extension.older_transfer_fee = transfer_fee;
    extension.newer_transfer_fee = transfer_fee;

    mint.base.decimals = 6;
    mint.base.is_initialized = true;
    mint.base.mint_authority = COption::Some(Pubkey::new_unique());
    mint.pack_base();
    mint.init_account_type().unwrap();
}

fn mint_with_fee_data() -> Vec<u8> {
    vec![0; ExtensionType::try_calculate_account_len::<Mint>(&[ExtensionType::TransferFeeConfig]).unwrap()]
}

#[test]
fn test_validate_trading_token_extensions_when_all_allowed() {
    let mut mint_data = mint_with_fee_data();
    mint_with_transfer_fee(&mut mint_data, 10);

    let owner_key = "";
    let fees = Fees::default();
    let constraints = SwapConstraints {
        owner_key,
        valid_curve_types: &[],
        fees: &fees,
        blocked_trading_token_extensions: &[],
    };

    constraints
        .validate_token_2022_trading_token_extensions(&mint_data)
        .unwrap();
}

#[test]
fn test_validate_trading_token_extensions_fail_when_transfer_fee_blocked() {
    let mut mint_data = mint_with_fee_data();
    mint_with_transfer_fee(&mut mint_data, 10);

    let owner_key = "";
    let fees = Fees::default();
    let blocked = [u16::from(ExtensionType::TransferFeeConfig)];
    let constraints = SwapConstraints {
        owner_key,
        valid_curve_types: &[],
        fees: &fees,
        blocked_trading_token_extensions: &blocked,
    };

    let res = constraints.validate_token_2022_trading_token_extensions(&mint_data);
    assert_eq!(res.err(), Some(SwapError::InvalidTokenExtension));
}

#[test]
fn validate_trading_token_extensions_rejects_non_mint_bytes() {
    let fees = Fees::default();
    let constraints = SwapConstraints {
        owner_key: "",
        valid_curve_types: &[],
        fees: &fees,
        blocked_trading_token_extensions: &[],
    };
    let res = constraints.validate_token_2022_trading_token_extensions(&[1, 2, 3]);
    assert_eq!(
        res,
        Err(SwapError::TokenProgram(u64::from(ProgramError::InvalidAccountData)))
    );
}
