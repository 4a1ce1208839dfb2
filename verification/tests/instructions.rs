use hyperplane::constraints::SwapConstraints;
use hyperplane::curve::base::{CurveCalculator, CurveParameters, CurveType, SwapCurve};
use hyperplane::curve::calculator::{RoundDirection, TradeDirection, INITIAL_SWAP_POOL_AMOUNT};
use hyperplane::curve::constant_product::ConstantProductCurve;
use hyperplane::curve::fees::Fees;
use hyperplane::curve::offset::OffsetCurve;
use hyperplane::curve::stable::StableCurve;
use hyperplane::error::SwapError;
use hyperplane::event;
use hyperplane::instructions::{
    deposit_all_token_types, deposit_single_token_type, initialize_pool, same_key,
    stable_deposit_single_token_type, stable_withdraw_single_token_type, swap,
    update_pool_config, validate_deposit_single_inputs, validate_swap_inputs,
    validate_withdraw_single_inputs, withdraw_fees, withdraw_single_token_type,
    CurveUserParameters, InitialSupply, PoolAccounts, SwapPool,
};
use solana_program::program_option::COption;
use solana_program::program_error::ProgramError;
use solana_program::pubkey::Pubkey;
use spl_token_2022::extension::transfer_fee::{TransferFee, TransferFeeConfig};
use spl_token_2022::extension::{ExtensionType, StateWithExtensionsMut};
use spl_token_2022::state::Mint;
use hyperplane::state::{UpdatePoolConfigMode, UpdatePoolConfigValue};
use hyperplane::transfer_fee::{TransferFeeSchedule, TransferFeeTerms};

fn key(n: u8) -> [u8; 32] {
    [n; 32]
}

fn pool() -> SwapPool {
    SwapPool {
        admin: key(1),
        token_a_mint: key(2),
        token_b_mint: key(3),
        token_a_vault: key(4),
        token_b_vault: key(5),
        token_a_fees_vault: key(6),
        token_b_fees_vault: key(7),
        pool_token_mint: key(8),
        fees: Fees::default(),
        curve_type: 1,
        withdrawals_only: 0,
    }
}

fn constant_product() -> SwapCurve {
    SwapCurve::new_from_params(CurveParameters::ConstantProduct).unwrap()
}

#[test]
fn keys_compare_byte_by_byte() {
    assert!(same_key(&key(4), &key(4)));
    let mut other = key(4);
    other[31] = 0;
    assert!(!same_key(&key(4), &other));
}

#[test]
fn deposit_takes_the_pool_share_rounded_up() {
    let result = deposit_all_token_types(
        &pool(),
        &constant_product(),
        &key(20),
        &key(21),
        10,
        101,
        201,
        5,
        100,
        200,
    );
    // 5/10 of 101 and 201, rounded up
    assert_eq!(
        result,
        Ok(event::Deposit { token_a_amount: 51, token_b_amount: 101, pool_token_amount: 5 })
    );
}

#[test]
fn deposit_into_empty_pool_mints_initial_supply() {
    let result = deposit_all_token_types(
        &pool(),
        &constant_product(),
        &key(20),
        &key(21),
        0,
        1_000,
        2_000,
        5,
        1_000,
        2_000,
    );
    assert_eq!(
        result,
        Ok(event::Deposit {
            token_a_amount: 1_000,
            token_b_amount: 2_000,
            pool_token_amount: INITIAL_SWAP_POOL_AMOUNT as u64,
        })
    );
}

#[test]
fn deposit_errors() {
    let p = pool();
    let curve = constant_product();
    // slippage on token A
    assert_eq!(
        deposit_all_token_types(&p, &curve, &key(20), &key(21), 10, 101, 201, 5, 50, 100),
        Err(SwapError::ExceededSlippage)
    );
    // a share worth no token A
    assert_eq!(
        deposit_all_token_types(&p, &curve, &key(20), &key(21), 1_000, 1, 1_000, 1, 100, 100),
        Err(SwapError::ZeroTradingTokens)
    );
    // the user's account is the vault
    assert_eq!(
        deposit_all_token_types(&p, &curve, &key(4), &key(21), 10, 101, 201, 5, 100, 100),
        Err(SwapError::IncorrectSwapAccount)
    );
    // offset curves take no deposits
    let offset = SwapCurve {
        curve_type: CurveType::Offset,
        calculator: CurveCalculator::Offset(OffsetCurve { token_b_offset: 1 }),
    };
    assert_eq!(
        deposit_all_token_types(&p, &offset, &key(20), &key(21), 10, 101, 201, 5, 100, 100),
        Err(SwapError::UnsupportedCurveOperation)
    );
    let mut closed = pool();
    closed.withdrawals_only = 1;
    assert_eq!(
        deposit_all_token_types(&closed, &curve, &key(20), &key(21), 10, 101, 201, 5, 100, 100),
        Err(SwapError::WithdrawalsOnlyMode)
    );
}

#[test]
fn withdraw_fees_caps_at_vault_amount() {
    let p = pool();
    assert_eq!(
        withdraw_fees(&p, &key(2), &key(6), 50, 100),
        Ok(event::WithdrawFees { withdraw_amount: 50 })
    );
    assert_eq!(
        withdraw_fees(&p, &key(3), &key(7), 500, 100),
        Ok(event::WithdrawFees { withdraw_amount: 100 })
    );
    assert_eq!(withdraw_fees(&p, &key(2), &key(6), 50, 0), Err(SwapError::ZeroTradingTokens));
    assert_eq!(withdraw_fees(&p, &key(2), &key(7), 50, 10), Err(SwapError::IncorrectFeeAccount));
    assert_eq!(withdraw_fees(&p, &key(9), &key(6), 50, 10), Err(SwapError::IncorrectTradingMint));
    // an empty fees vault is refused before anything else
    assert_eq!(withdraw_fees(&p, &key(9), &key(6), 0, 10), Err(SwapError::ZeroTradingTokens));
}

#[test]
fn update_pool_config_sets_withdrawals_only() {
    let mut p = pool();
    let value = UpdatePoolConfigValue::Bool(true).to_bytes();
    let result = update_pool_config(&mut p, 0, &value);
    assert_eq!(
        result,
        Ok(event::UpdatePoolConfig {
            mode: UpdatePoolConfigMode::WithdrawalsOnly,
            value: UpdatePoolConfigValue::Bool(true),
        })
    );
    assert_eq!(p.withdrawals_only, 1);
    assert!(p.withdrawals_only());
    let value = UpdatePoolConfigValue::Bool(false).to_bytes();
    update_pool_config(&mut p, 0, &value).unwrap();
    assert_eq!(p.withdrawals_only, 0);
    assert_eq!(update_pool_config(&mut p, 1, &value), Err(SwapError::InstructionDidNotDeserialize));
    let mut bad = [0u8; 32];
    bad[0] = 7;
    assert_eq!(update_pool_config(&mut p, 0, &bad), Err(SwapError::InvalidInput));
    assert_eq!(p.withdrawals_only, 0);
}

fn accounts() -> PoolAccounts {
    PoolAccounts {
        admin: key(1),
        token_a_mint: key(2),
        token_b_mint: key(3),
        token_a_vault: key(4),
        token_b_vault: key(5),
        token_a_fees_vault: key(6),
        token_b_fees_vault: key(7),
        pool_token_mint: key(8),
    }
}

fn mint_with_transfer_fee_data() -> Vec<u8> {
    let mut mint_data =
        vec![0; ExtensionType::try_calculate_account_len::<Mint>(&[ExtensionType::TransferFeeConfig]).unwrap()];
    let mut mint = StateWithExtensionsMut::<Mint>::unpack_uninitialized(&mut mint_data).unwrap();
    let extension = mint.init_extension::<TransferFeeConfig>(true).unwrap();
    let transfer_fee = TransferFee {
        epoch: 0u64.into(),
        transfer_fee_basis_points: 10u16.into(),
        maximum_fee: u64::MAX.into(),
    };
    extension.older_transfer_fee = transfer_fee;
    extension.newer_transfer_fee = transfer_fee;
    mint.base.decimals = 6;
    mint.base.is_initialized = true;
    mint.base.mint_authority = COption::Some(Pubkey::new_unique());
    mint.pack_base();
    mint.init_account_type().unwrap();
    mint_data
}

fn init(
    params: CurveUserParameters,
    decimals_a: u8,
    decimals_b: u8,
    fees: &Fees,
    supply: InitialSupply,
    constraints: Option<&SwapConstraints>,
) -> Result<(SwapCurve, u64), SwapError> {
    let mint = mint_with_transfer_fee_data();
    initialize_pool(&accounts(), &mint, &mint, params, decimals_a, decimals_b, fees, supply, constraints)
        .map(|p| (p.swap_curve, p.initial_pool_token_amount))
}

#[test]
fn initialize_pool_records_the_pool() {
    let fees = Fees {
        trade_fee_numerator: 1,
        trade_fee_denominator: 100,
        ..Default::default()
    };
    let mint = mint_with_transfer_fee_data();
    let created = initialize_pool(
        &accounts(),
        &mint,
        &mint,
        CurveUserParameters::Offset { token_b_offset: 10 },
        6,
        6,
        &fees,
        InitialSupply::new(1_000, 0),
        None,
    )
    .unwrap();
    let p = created.pool;
    assert_eq!(
        [p.admin, p.token_a_mint, p.token_b_mint, p.token_a_vault, p.token_b_vault],
        [key(1), key(2), key(3), key(4), key(5)]
    );
    assert_eq!([p.token_a_fees_vault, p.token_b_fees_vault, p.pool_token_mint], [key(6), key(7), key(8)]);
    assert_eq!(p.fees, fees);
    assert_eq!(p.curve_type, CurveType::Offset.to_u64());
    assert_eq!(p.withdrawals_only, 0);
    assert_eq!(created.swap_curve.curve_type, CurveType::Offset);
    assert_eq!(created.initial_pool_token_amount, INITIAL_SWAP_POOL_AMOUNT as u64);
}

#[test]
fn initialize_pool_checks() {
    let fees = Fees {
        trade_fee_numerator: 1,
        trade_fee_denominator: 100,
        ..Default::default()
    };
    let supply = InitialSupply::new(1_000, 2_000);
    let (curve, minted) =
        init(CurveUserParameters::Stable { amp: 100 }, 6, 9, &fees, supply, None).unwrap();
    assert_eq!(curve.curve_type, CurveType::Stable);
    assert_eq!(minted, INITIAL_SWAP_POOL_AMOUNT as u64);
    assert_eq!(
        CurveUserParameters::Stable { amp: 100 }.to_curve_params(6, 9),
        CurveParameters::Stable { amp: 100, token_a_decimals: 6, token_b_decimals: 9 }
    );
    assert_eq!(
        CurveUserParameters::from_curve_params(CurveParameters::Stable {
            amp: 100,
            token_a_decimals: 6,
            token_b_decimals: 9
        }),
        CurveUserParameters::Stable { amp: 100 }
    );
    // invalid curves
    assert_eq!(
        init(CurveUserParameters::ConstantPrice { token_b_price: 0 }, 6, 6, &fees, supply, None),
        Err(SwapError::InvalidCurve)
    );
    assert_eq!(
        init(CurveUserParameters::Offset { token_b_offset: 0 }, 6, 6, &fees, supply, None),
        Err(SwapError::InvalidCurve)
    );
    // empty supply, except token B of an offset curve
    let empty_b = InitialSupply::new(1_000, 0);
    assert_eq!(
        init(CurveUserParameters::ConstantProduct, 6, 6, &fees, empty_b, None),
        Err(SwapError::EmptySupply)
    );
    assert!(init(CurveUserParameters::Offset { token_b_offset: 10 }, 6, 6, &fees, empty_b, None).is_ok());
    // invalid fees
    let bad_fees = Fees {
        trade_fee_numerator: 2,
        trade_fee_denominator: 1,
        ..Default::default()
    };
    assert_eq!(
        init(CurveUserParameters::ConstantProduct, 6, 6, &bad_fees, supply, None),
        Err(SwapError::InvalidFee)
    );
    // constraints
    let constraints = SwapConstraints {
        owner_key: "",
        valid_curve_types: &[CurveType::ConstantProduct],
        fees: &fees,
        blocked_trading_token_extensions: &[],
    };
    assert!(init(CurveUserParameters::ConstantProduct, 6, 6, &fees, supply, Some(&constraints)).is_ok());
    assert_eq!(
        init(CurveUserParameters::Stable { amp: 100 }, 6, 6, &fees, supply, Some(&constraints)),
        Err(SwapError::UnsupportedCurveType)
    );
    assert_eq!(
        init(CurveUserParameters::ConstantProduct, 6, 6, &Fees::default(), supply, Some(&constraints)),
        Err(SwapError::InvalidFee)
    );
    // a trading mint with a blocked extension
    let blocked = [u16::from(ExtensionType::TransferFeeConfig)];
    let blocking = SwapConstraints {
        owner_key: "",
        valid_curve_types: &[CurveType::ConstantProduct],
        fees: &fees,
        blocked_trading_token_extensions: &blocked,
    };
    assert_eq!(
        init(CurveUserParameters::ConstantProduct, 6, 6, &fees, supply, Some(&blocking)),
        Err(SwapError::InvalidTokenExtension)
    );
    // bytes that are no mint
    let mint = mint_with_transfer_fee_data();
    assert_eq!(
        initialize_pool(
            &accounts(),
            &mint,
            &[1, 2, 3],
            CurveUserParameters::ConstantProduct,
            6,
            6,
            &fees,
            supply,
            Some(&constraints)
        )
        .map(|p| p.initial_pool_token_amount),
        Err(SwapError::TokenProgram(u64::from(ProgramError::InvalidAccountData)))
    );
}

#[test]
fn swap_inputs_find_direction() {
    let p = pool();
    assert_eq!(
        validate_swap_inputs(&p, &key(2), &key(3), &key(4), &key(5), &key(6)),
        Ok(TradeDirection::AtoB)
    );
    assert_eq!(
        validate_swap_inputs(&p, &key(3), &key(2), &key(5), &key(4), &key(7)),
        Ok(TradeDirection::BtoA)
    );
    assert_eq!(
        validate_swap_inputs(&p, &key(2), &key(3), &key(5), &key(4), &key(6)),
        Err(SwapError::IncorrectSwapAccount)
    );
    assert_eq!(
        validate_swap_inputs(&p, &key(2), &key(9), &key(4), &key(5), &key(6)),
        Err(SwapError::IncorrectSwapAccount)
    );
    let mut closed = pool();
    closed.withdrawals_only = 1;
    assert_eq!(
        validate_swap_inputs(&closed, &key(2), &key(3), &key(4), &key(5), &key(6)),
        Err(SwapError::WithdrawalsOnlyMode)
    );
}

#[test]
fn swap_without_transfer_fees() {
    let fees = Fees {
        trade_fee_numerator: 1,
        trade_fee_denominator: 100,
        owner_trade_fee_numerator: 1,
        owner_trade_fee_denominator: 100,
        host_fee_numerator: 20,
        host_fee_denominator: 100,
        ..Default::default()
    };
    let curve = SwapCurve {
        curve_type: CurveType::ConstantProduct,
        calculator: CurveCalculator::ConstantProduct(ConstantProductCurve::default()),
    };
    let result = swap(&curve, &fees, None, None, 0, TradeDirection::AtoB, 1_000, 0, 100_000, 100_000, true).unwrap();
    // 1% trade fee and 1% owner fee, of which the host takes a fifth
    assert_eq!(result.owner_fee_transfer, 8);
    assert_eq!(result.host_fee_transfer, 2);
    assert_eq!(result.event.total_fees, 20);
    assert_eq!(result.source_amount_to_vault + result.owner_fee_transfer + result.host_fee_transfer, 1_000);
    assert_eq!(result.destination_amount_from_vault, result.event.token_out_amount);
    // slippage
    assert_eq!(
        swap(&curve, &fees, None, None, 0, TradeDirection::AtoB, 1_000, 1_000, 100_000, 100_000, true),
        Err(SwapError::ExceededSlippage)
    );
    // too small to swap
    assert_eq!(
        swap(&curve, &fees, None, None, 0, TradeDirection::AtoB, 1, 0, 1_000_000, 1, false),
        Err(SwapError::ZeroTradingTokens)
    );
}

#[test]
fn swap_with_transfer_fees() {
    let schedule = TransferFeeSchedule {
        older: TransferFeeTerms { epoch: 0, maximum_fee: u64::MAX, transfer_fee_basis_points: 100 },
        newer: TransferFeeTerms { epoch: 0, maximum_fee: u64::MAX, transfer_fee_basis_points: 100 },
    };
    let curve = SwapCurve {
        curve_type: CurveType::ConstantProduct,
        calculator: CurveCalculator::ConstantProduct(ConstantProductCurve::default()),
    };
    let result = swap(
        &curve,
        &Fees::default(),
        Some(schedule),
        Some(schedule),
        0,
        TradeDirection::AtoB,
        10_000,
        0,
        1_000_000,
        1_000_000,
        false,
    )
    .unwrap();
    // 1% of the input pays the transfer into the vault
    assert_eq!(result.source_amount_to_vault, 10_000);
    assert_eq!(result.owner_fee_transfer, 0);
    assert_eq!(result.host_fee_transfer, 0);
}

#[test]
fn single_deposit_side_follows_the_source_mint() {
    let p = pool();
    assert_eq!(
        validate_deposit_single_inputs(&p, &key(2), &key(20), &key(2), &key(3)),
        Ok(TradeDirection::AtoB)
    );
    assert_eq!(
        validate_deposit_single_inputs(&p, &key(3), &key(20), &key(2), &key(3)),
        Ok(TradeDirection::BtoA)
    );
    // paying from the pool's own vault
    assert_eq!(
        validate_deposit_single_inputs(&p, &key(2), &key(4), &key(2), &key(3)),
        Err(SwapError::IncorrectSwapAccount)
    );
    assert_eq!(
        validate_deposit_single_inputs(&p, &key(9), &key(20), &key(2), &key(3)),
        Err(SwapError::IncorrectSwapAccount)
    );
}

#[test]
fn single_deposit_mints_what_the_curve_gives() {
    let curve = constant_product();
    assert_eq!(
        deposit_single_token_type(&curve, 100, Some(7), 50, 7),
        Ok(event::DepositSingleTokenType { token_amount: 50, pool_token_amount: 7 })
    );
    assert_eq!(
        deposit_single_token_type(&curve, 100, Some(7), 50, 8),
        Err(SwapError::ExceededSlippage)
    );
    assert_eq!(
        deposit_single_token_type(&curve, 100, Some(0), 50, 0),
        Err(SwapError::ZeroTradingTokens)
    );
    assert_eq!(
        deposit_single_token_type(&curve, 100, None, 50, 0),
        Err(SwapError::ZeroTradingTokens)
    );
    assert_eq!(
        deposit_single_token_type(&curve, 100, Some(u64::MAX as u128 + 1), 50, 0),
        Err(SwapError::ConversionFailure)
    );
    // an empty pool mints the initial supply whatever the curve says
    assert_eq!(
        deposit_single_token_type(&curve, 0, None, 50, 0),
        Ok(event::DepositSingleTokenType {
            token_amount: 50,
            pool_token_amount: INITIAL_SWAP_POOL_AMOUNT as u64,
        })
    );
}

#[test]
fn single_deposit_refused_on_offset_curve() {
    let curve = SwapCurve::new_from_params(CurveParameters::Offset { token_b_offset: 10 }).unwrap();
    assert_eq!(
        deposit_single_token_type(&curve, 100, Some(7), 50, 0),
        Err(SwapError::UnsupportedCurveOperation)
    );
}

#[test]
fn single_withdraw_side_follows_the_destination_mint() {
    assert_eq!(validate_withdraw_single_inputs(&key(2), &key(2), &key(3)), Ok(TradeDirection::AtoB));
    assert_eq!(validate_withdraw_single_inputs(&key(3), &key(2), &key(3)), Ok(TradeDirection::BtoA));
    assert_eq!(
        validate_withdraw_single_inputs(&key(9), &key(2), &key(3)),
        Err(SwapError::IncorrectSwapAccount)
    );
}

#[test]
fn single_withdraw_adds_the_owner_withdraw_fee() {
    let fees = Fees {
        owner_withdraw_fee_numerator: 2,
        owner_withdraw_fee_denominator: 20,
        ..Fees::default()
    };
    // 10% of 100 burnt pool tokens on top
    assert_eq!(
        withdraw_single_token_type(&fees, Some(100), 40, 110),
        Ok(event::WithdrawSingleTokenType { pool_token_amount: 110, token_amount: 40, fee: 10 })
    );
    assert_eq!(withdraw_single_token_type(&fees, Some(100), 40, 109), Err(SwapError::ExceededSlippage));
    assert_eq!(withdraw_single_token_type(&fees, None, 40, 109), Err(SwapError::ZeroTradingTokens));
    assert_eq!(withdraw_single_token_type(&fees, Some(0), 0, 109), Err(SwapError::ZeroTradingTokens));
    assert_eq!(
        withdraw_single_token_type(&fees, Some(u128::MAX), 40, u64::MAX),
        Err(SwapError::FeeCalculationFailure)
    );
    let half = Fees {
        owner_withdraw_fee_numerator: 1,
        owner_withdraw_fee_denominator: 2,
        ..Fees::default()
    };
    assert_eq!(
        withdraw_single_token_type(&half, Some(u128::MAX - 10), 40, u64::MAX),
        Err(SwapError::CalculationFailure)
    );
}

#[test]
fn pool_token_value_never_falls_over_a_sequence() {
    let curve = constant_product();
    let fees = Fees {
        trade_fee_numerator: 25,
        trade_fee_denominator: 10_000,
        owner_trade_fee_numerator: 5,
        owner_trade_fee_denominator: 10_000,
        ..Default::default()
    };
    let (mut a, mut b, mut s): (u128, u128, u128) = (1_000_000, 2_000_000, 1_000_000);
    let worth_le = |before: (u128, u128, u128), after: (u128, u128, u128)| {
        before.0 * before.1 * after.2 * after.2 <= after.0 * after.1 * before.2 * before.2
    };
    for round in 0..20u128 {
        let before = (a, b, s);
        match round % 3 {
            0 => {
                let (source, destination) = if round % 2 == 0 { (a, b) } else { (b, a) };
                let dir = if round % 2 == 0 { TradeDirection::AtoB } else { TradeDirection::BtoA };
                let res = curve.swap(1_234 + round * 777, source, destination, dir, &fees).unwrap();
                if round % 2 == 0 {
                    a = res.new_pool_source_amount;
                    b = res.new_pool_destination_amount;
                } else {
                    b = res.new_pool_source_amount;
                    a = res.new_pool_destination_amount;
                }
            },
            1 => {
                let d = deposit_all_token_types(
                    &pool(),
                    &curve,
                    &key(20),
                    &key(21),
                    s as u64,
                    a as u64,
                    b as u64,
                    3_333 + round as u64,
                    u64::MAX,
                    u64::MAX,
                )
                .unwrap();
                a += d.token_a_amount as u128;
                b += d.token_b_amount as u128;
                s += d.pool_token_amount as u128;
            },
            _ => {
                let burnt = 2_221 + round;
                let t = curve
                    .calculator
                    .pool_tokens_to_trading_tokens(burnt, s, a, b, RoundDirection::Floor)
                    .unwrap();
                a -= t.token_a_amount;
                b -= t.token_b_amount;
                s -= burnt;
            },
        }
        assert!(worth_le(before, (a, b, s)), "round {round}");
    }
}

#[test]
fn repeated_mints_are_refused() {
    let p = pool();
    assert_eq!(
        validate_swap_inputs(&p, &key(2), &key(2), &key(4), &key(5), &key(6)),
        Err(SwapError::RepeatedMint)
    );
    let mut same = accounts();
    same.token_b_mint = same.token_a_mint;
    let mint = mint_with_transfer_fee_data();
    assert_eq!(
        initialize_pool(
            &same,
            &mint,
            &mint,
            CurveUserParameters::ConstantProduct,
            6,
            6,
            &Fees::default(),
            InitialSupply::new(1_000, 1_000),
            None
        )
        .map(|p| p.initial_pool_token_amount),
        Err(SwapError::RepeatedMint)
    );
}

#[test]
fn constant_price_pool_token_value_never_falls_over_a_sequence() {
    let price: u128 = 7;
    let curve = SwapCurve::new_from_params(CurveParameters::ConstantPrice { token_b_price: price as u64 }).unwrap();
    let fees = Fees {
        trade_fee_numerator: 25,
        trade_fee_denominator: 10_000,
        ..Default::default()
    };
    let (mut a, mut b, mut s): (u128, u128, u128) = (70_001, 10_000, 10_000);
    let worth = |a: u128, b: u128| (a + b * price) / 2;
    for round in 0..24u128 {
        let before = (worth(a, b), s);
        match round % 4 {
            0 => {
                let res = curve.swap(1_003 + round * 7, a, b, TradeDirection::AtoB, &fees).unwrap();
                a = res.new_pool_source_amount;
                b = res.new_pool_destination_amount;
            },
            1 => {
                let res = curve.swap(211 + round, b, a, TradeDirection::BtoA, &fees).unwrap();
                b = res.new_pool_source_amount;
                a = res.new_pool_destination_amount;
            },
            2 => {
                let d = deposit_all_token_types(
                    &pool(),
                    &curve,
                    &key(20),
                    &key(21),
                    s as u64,
                    a as u64,
                    b as u64,
                    333 + round as u64,
                    u64::MAX,
                    u64::MAX,
                )
                .unwrap();
                a += d.token_a_amount as u128;
                b += d.token_b_amount as u128;
                s += d.pool_token_amount as u128;
            },
            _ => {
                let burnt = 221 + round;
                let t = curve
                    .calculator
                    .pool_tokens_to_trading_tokens(burnt, s, a, b, RoundDirection::Floor)
                    .unwrap();
                a -= t.token_a_amount;
                b -= t.token_b_amount;
                s -= burnt;
            },
        }
        assert!(before.0 * s <= worth(a, b) * before.1, "round {round}");
    }
}

#[test]
fn stable_single_token_operations_use_the_curve() {
    let curve = StableCurve { amp: 100, ..Default::default() };
    let minted = curve
        .deposit_single_token_type(100_000, 1_000_000, 1_000_000, 1_000_000, TradeDirection::AtoB)
        .unwrap();
    assert_eq!(
        stable_deposit_single_token_type(&curve, 1_000_000, 1_000_000, 1_000_000, TradeDirection::AtoB, 100_000, 0),
        Ok(event::DepositSingleTokenType { token_amount: 100_000, pool_token_amount: minted as u64 })
    );
    assert_eq!(
        stable_deposit_single_token_type(
            &curve,
            1_000_000,
            1_000_000,
            1_000_000,
            TradeDirection::AtoB,
            100_000,
            minted as u64 + 1
        ),
        Err(SwapError::ExceededSlippage)
    );
    let fees = Fees {
        owner_withdraw_fee_numerator: 1,
        owner_withdraw_fee_denominator: 100,
        ..Default::default()
    };
    let burnt = curve
        .withdraw_single_token_type_exact_out(
            50_000,
            1_000_000,
            1_000_000,
            1_000_000,
            TradeDirection::BtoA,
            RoundDirection::Ceiling,
        )
        .unwrap();
    let fee = fees.owner_withdraw_fee(burnt).unwrap();
    assert_eq!(
        stable_withdraw_single_token_type(
            &curve,
            &fees,
            1_000_000,
            1_000_000,
            1_000_000,
            TradeDirection::BtoA,
            50_000,
            u64::MAX
        ),
        Ok(event::WithdrawSingleTokenType {
            pool_token_amount: (burnt + fee) as u64,
            token_amount: 50_000,
            fee: fee as u64,
        })
    );
}
