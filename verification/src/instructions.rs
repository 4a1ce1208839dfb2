//! The decisions of each pool instruction, apart from the token transfers
//! that carry them out

use vstd::prelude::*;

use crate::constraints::{extensions_check_of, fees_meet, SwapConstraints};
use crate::curve::base::{
    calculator_is_valid, calculator_trading_tokens_of, curve_of_params, curve_type_number, swap_of,
    CurveCalculator, CurveParameters, CurveType, SwapCurve, SwapResult,
};
use crate::curve::calculator::{RoundDirection, TradeDirection, INITIAL_SWAP_POOL_AMOUNT};
use crate::curve::fees::{u128_max, Fees};
use crate::curve::math::{lemma_trading_tokens_rounding, trading_tokens_of};
use crate::curve::stable::{
    as_u128_opt, ceiled_of, ceiling_fits, floor_fits, floored_of, stable_deposit_share_of,
    stable_withdraw_share_of, StableCurve,
};
use crate::error::SwapError;
use crate::event;
use crate::state::{
    decode_bool_bytes, UpdatePoolConfigMode, UpdatePoolConfigValue, VALUE_BYTE_ARRAY_LEN,
};
use crate::transfer_fee::{
    add_inverse_transfer_fee_for_schedule, add_inverse_transfer_fee_of,
    sub_input_transfer_fees_for_schedule, sub_input_transfer_fees_of,
    sub_transfer_fee_for_schedule, sub_transfer_fee_of, to_u64, u64_max, TransferFeeSchedule,
};

verus! {

/// The state of a pool that its instructions read.
#[derive(Debug, Clone, Copy)]
pub struct SwapPool {
    /// Admin of the pool
    pub admin: [u8; 32],
    /// Token A mint
    pub token_a_mint: [u8; 32],
    /// Token B mint
    pub token_b_mint: [u8; 32],
    /// Vault holding token A
    pub token_a_vault: [u8; 32],
    /// Vault holding token B
    pub token_b_vault: [u8; 32],
    /// Vault collecting token A fees
    pub token_a_fees_vault: [u8; 32],
    /// Vault collecting token B fees
    pub token_b_fees_vault: [u8; 32],
    /// Pool token mint
    pub pool_token_mint: [u8; 32],
    /// All fee information
    pub fees: Fees,
    /// The stored curve type number
    pub curve_type: u64,
    /// 1 while the pool only accepts withdrawals, 0 otherwise
    pub withdrawals_only: u64,
}

impl SwapPool {
    /// Whether the pool only accepts withdrawals.
    pub open spec fn withdrawals_only_spec(&self) -> bool {
        self.withdrawals_only != 0
    }

    /// Whether the pool only accepts withdrawals.
    pub fn withdrawals_only(&self) -> (r: bool)
        ensures
            r == self.withdrawals_only_spec(),
    {
        self.withdrawals_only != 0
    }
}

/// Whether two account keys are the same.
pub fn same_key(a: &[u8; 32], b: &[u8; 32]) -> (r: bool)
    ensures
        r == (a@ == b@),
{
    let mut i: usize = 0;
    while i < 32
        invariant
            i <= 32,
            forall|j: int| 0 <= j < i ==> a@[j] == b@[j],
        decreases 32 - i,
    {
        if a[i] != b[i] {
            proof {
                assert(a@[i as int] != b@[i as int]);
            }
            return false;
        }
        i = i + 1;
    }
    proof {
        assert(a@ =~= b@);
    }
    true
}

/// The curve parameters a pool creator gives.
#[derive(Debug, Clone, Copy, PartialEq, Eq, Structural)]
pub enum CurveUserParameters {
    /// Constant product curve
    ConstantProduct,
    /// Constant price curve
    ConstantPrice {
        /// Amount of token A required to get 1 token B
        token_b_price: u64,
    },
    /// Offset curve
    Offset {
        /// Amount to offset the token B liquidity account
        token_b_offset: u64,
    },
    /// Stable curve
    Stable {
        /// Amplifier constant
        amp: u64,
    },
}

/// The initial amounts of a new pool.
#[derive(Debug, Clone, Copy, PartialEq, Eq, Structural)]
pub struct InitialSupply {
    /// Initial amount of token A
    pub initial_supply_a: u64,
    /// Initial amount of token B
    pub initial_supply_b: u64,
}

impl InitialSupply {
    /// Bundle the initial amounts.
    pub fn new(initial_supply_a: u64, initial_supply_b: u64) -> (r: Self)
        ensures
            r == (InitialSupply { initial_supply_a, initial_supply_b }),
    {
        InitialSupply { initial_supply_a, initial_supply_b }
    }
}

/// The curve parameters for the user's choice and the mints' decimals.
pub open spec fn curve_params_of(
    params: CurveUserParameters,
    token_a_decimals: u8,
    token_b_decimals: u8,
) -> CurveParameters {
    match params {
        CurveUserParameters::ConstantProduct => CurveParameters::ConstantProduct,
        CurveUserParameters::ConstantPrice { token_b_price } => CurveParameters::ConstantPrice {
            token_b_price,
        },
        CurveUserParameters::Offset { token_b_offset } => CurveParameters::Offset { token_b_offset },
        CurveUserParameters::Stable { amp } => CurveParameters::Stable {
            amp,
            token_a_decimals,
            token_b_decimals,
        },
    }
}

/// The user's choice that curve parameters come from.
pub open spec fn user_params_of(params: CurveParameters) -> CurveUserParameters {
    match params {
        CurveParameters::ConstantProduct => CurveUserParameters::ConstantProduct,
        CurveParameters::ConstantPrice { token_b_price } => CurveUserParameters::ConstantPrice {
            token_b_price,
        },
        CurveParameters::Offset { token_b_offset } => CurveUserParameters::Offset { token_b_offset },
        CurveParameters::Stable { amp, .. } => CurveUserParameters::Stable { amp },
    }
}

impl CurveUserParameters {
    /// The curve parameters for this choice and the mints' decimals.
    pub fn to_curve_params(&self, token_a_decimals: u8, token_b_decimals: u8) -> (r:
        CurveParameters)
        ensures
            r == curve_params_of(*self, token_a_decimals, token_b_decimals),
    {
        match self {
            CurveUserParameters::ConstantProduct => CurveParameters::ConstantProduct,
            CurveUserParameters::ConstantPrice { token_b_price } => CurveParameters::ConstantPrice {
                token_b_price: *token_b_price,
            },
            CurveUserParameters::Offset { token_b_offset } => CurveParameters::Offset {
                token_b_offset: *token_b_offset,
            },
            CurveUserParameters::Stable { amp } => CurveParameters::Stable {
                amp: *amp,
                token_a_decimals,
                token_b_decimals,
            },
        }
    }

    /// The user's choice that curve parameters come from, dropping the decimals.
    pub fn from_curve_params(curve_params: CurveParameters) -> (r: Self)
        ensures
            r == user_params_of(curve_params),
    {
        match curve_params {
            CurveParameters::ConstantProduct => CurveUserParameters::ConstantProduct,
            CurveParameters::ConstantPrice { token_b_price } => CurveUserParameters::ConstantPrice {
                token_b_price,
            },
            CurveParameters::Offset { token_b_offset } => CurveUserParameters::Offset {
                token_b_offset,
            },
            CurveParameters::Stable { amp, token_a_decimals: _, token_b_decimals: _ } => {
                CurveUserParameters::Stable { amp }
            },
        }
    }
}

/// Turning a user's curve choice into curve parameters and back gives the
/// same choice, whatever the decimals.
pub proof fn lemma_curve_params_round_trip(
    params: CurveUserParameters,
    token_a_decimals: u8,
    token_b_decimals: u8,
)
    ensures
        user_params_of(curve_params_of(params, token_a_decimals, token_b_decimals)) == params,
{
}

// ---------------------------------------------------------------------------
// initialize_pool

/// The accounts a new pool records.
#[derive(Debug, Clone, Copy)]
pub struct PoolAccounts {
    /// Admin of the pool
    pub admin: [u8; 32],
    /// Token A mint
    pub token_a_mint: [u8; 32],
    /// Token B mint
    pub token_b_mint: [u8; 32],
    /// Vault holding token A
    pub token_a_vault: [u8; 32],
    /// Vault holding token B
    pub token_b_vault: [u8; 32],
    /// Vault collecting token A fees
    pub token_a_fees_vault: [u8; 32],
    /// Vault collecting token B fees
    pub token_b_fees_vault: [u8; 32],
    /// Pool token mint
    pub pool_token_mint: [u8; 32],
}

/// The program owner's constraints as plain values: the allowed curve
/// types, the required fees and the blocked trading token extensions.
pub open spec fn constraints_of(swap_constraints: Option<&SwapConstraints>) -> Option<
    (Seq<CurveType>, Fees, Seq<u16>),
> {
    match swap_constraints {
        Some(c) => Some((c.valid_curve_types@, *c.fees, c.blocked_trading_token_extensions@)),
        None => None,
    }
}

/// What initializing a pool decides: the curve, or the first check it fails.
/// Under constraints, the curve type must be allowed, the fees must meet the
/// required ones, and neither trading mint (given by its account's bytes)
/// may carry a blocked extension.
pub open spec fn initialize_pool_of(
    curve_parameters: CurveUserParameters,
    token_a_decimals: u8,
    token_b_decimals: u8,
    fees: Fees,
    initial_supply: InitialSupply,
    constraints: Option<(Seq<CurveType>, Fees, Seq<u16>)>,
    token_a_mint_data: Seq<u8>,
    token_b_mint_data: Seq<u8>,
) -> Result<SwapCurve, SwapError> {
    let curve = curve_of_params(curve_params_of(curve_parameters, token_a_decimals, token_b_decimals));
    let a = initial_supply.initial_supply_a;
    let b = initial_supply.initial_supply_b;
    if (if curve.calculator is Offset {
        a == 0
    } else {
        a == 0 || b == 0
    }) {
        Err(SwapError::EmptySupply)
    } else if constraints is Some && !constraints->Some_0.0.contains(curve.curve_type) {
        Err(SwapError::UnsupportedCurveType)
    } else if constraints is Some && !fees_meet(fees, constraints->Some_0.1) {
        Err(SwapError::InvalidFee)
    } else if constraints is Some && extensions_check_of(
        token_a_mint_data,
        constraints->Some_0.2,
    ) is Err {
        Err(extensions_check_of(token_a_mint_data, constraints->Some_0.2)->Err_0)
    } else if constraints is Some && extensions_check_of(
        token_b_mint_data,
        constraints->Some_0.2,
    ) is Err {
        Err(extensions_check_of(token_b_mint_data, constraints->Some_0.2)->Err_0)
    } else if !fees.is_valid() {
        Err(SwapError::InvalidFee)
    } else if !calculator_is_valid(curve.calculator) {
        Err(SwapError::InvalidCurve)
    } else {
        Ok(curve)
    }
}

/// The pool record a new pool starts with: the given accounts and fees, the
/// curve's type number, and deposits allowed.
pub open spec fn initialized_pool_of(accounts: PoolAccounts, fees: Fees, curve: SwapCurve) -> SwapPool {
    SwapPool {
        admin: accounts.admin,
        token_a_mint: accounts.token_a_mint,
        token_b_mint: accounts.token_b_mint,
        token_a_vault: accounts.token_a_vault,
        token_b_vault: accounts.token_b_vault,
        token_a_fees_vault: accounts.token_a_fees_vault,
        token_b_fees_vault: accounts.token_b_fees_vault,
        pool_token_mint: accounts.pool_token_mint,
        fees,
        curve_type: curve_type_number(curve.curve_type),
        withdrawals_only: 0,
    }
}

/// A pool just created: its record, its curve, and the pool tokens minted
/// to the admin.
#[derive(Debug, Clone, Copy)]
pub struct InitializedPool {
    /// The pool record
    pub pool: SwapPool,
    /// The pool's curve
    pub swap_curve: SwapCurve,
    /// Pool tokens minted to the admin
    pub initial_pool_token_amount: u64,
}

/// Initialize a pool, given the mints' decimals and account bytes and, in a
/// production build, the program owner's constraints: the pool record and
/// curve to store and the pool tokens to mint. The two trading mints must
/// differ. The initial supply is what
/// the admin transfers into the vaults.
pub fn initialize_pool(
    accounts: &PoolAccounts,
    token_a_mint_data: &[u8],
    token_b_mint_data: &[u8],
    curve_parameters: CurveUserParameters,
    token_a_decimals: u8,
    token_b_decimals: u8,
    fees: &Fees,
    initial_supply: InitialSupply,
    swap_constraints: Option<&SwapConstraints>,
) -> (r: Result<InitializedPool, SwapError>)
    ensures
        accounts.token_a_mint@ == accounts.token_b_mint@ ==> r == Err::<InitializedPool, SwapError>(
            SwapError::RepeatedMint,
        ),
        accounts.token_a_mint@ != accounts.token_b_mint@ ==> match initialize_pool_of(
            curve_parameters,
            token_a_decimals,
            token_b_decimals,
            *fees,
            initial_supply,
            constraints_of(swap_constraints),
            token_a_mint_data@,
            token_b_mint_data@,
        ) {
            Ok(curve) => r == Ok::<InitializedPool, SwapError>(
                InitializedPool {
                    pool: initialized_pool_of(*accounts, *fees, curve),
                    swap_curve: curve,
                    initial_pool_token_amount: INITIAL_SWAP_POOL_AMOUNT as u64,
                },
            ),
            Err(e) => r == Err::<InitializedPool, SwapError>(e),
        },
        // under constraints, neither trading mint carries a blocked extension
        r is Ok && swap_constraints is Some ==> extensions_check_of(
            token_a_mint_data@,
            swap_constraints->Some_0.blocked_trading_token_extensions@,
        ) is Ok && extensions_check_of(
            token_b_mint_data@,
            swap_constraints->Some_0.blocked_trading_token_extensions@,
        ) is Ok,
{
    proof {
        if initialize_pool_of(
            curve_parameters,
            token_a_decimals,
            token_b_decimals,
            *fees,
            initial_supply,
            constraints_of(swap_constraints),
            token_a_mint_data@,
            token_b_mint_data@,
        ) is Ok {
            lemma_initialize_pool_meets_constraints(
                curve_parameters,
                token_a_decimals,
                token_b_decimals,
                *fees,
                initial_supply,
                constraints_of(swap_constraints),
                token_a_mint_data@,
                token_b_mint_data@,
            );
        }
    }
    if same_key(&accounts.token_a_mint, &accounts.token_b_mint) {
        return Err(SwapError::RepeatedMint);
    }
    let curve_params = curve_parameters.to_curve_params(token_a_decimals, token_b_decimals);
    let swap_curve = SwapCurve::new_from_params(curve_params)?;
    swap_curve.calculator.validate_supply(
        initial_supply.initial_supply_a,
        initial_supply.initial_supply_b,
    )?;
    match swap_constraints {
        Some(constraints) => {
            constraints.validate_curve(&swap_curve)?;
            constraints.validate_fees(fees)?;
            constraints.validate_token_2022_trading_token_extensions(token_a_mint_data)?;
            constraints.validate_token_2022_trading_token_extensions(token_b_mint_data)?;
        },
        None => {},
    }
    fees.validate()?;
    swap_curve.calculator.validate()?;
    let initial_amount = swap_curve.calculator.new_pool_supply();
    let initial_amount = to_u64(initial_amount)?;
    let pool = SwapPool {
        admin: accounts.admin,
        token_a_mint: accounts.token_a_mint,
        token_b_mint: accounts.token_b_mint,
        token_a_vault: accounts.token_a_vault,
        token_b_vault: accounts.token_b_vault,
        token_a_fees_vault: accounts.token_a_fees_vault,
        token_b_fees_vault: accounts.token_b_fees_vault,
        pool_token_mint: accounts.pool_token_mint,
        fees: *fees,
        curve_type: swap_curve.curve_type.to_u64(),
        withdrawals_only: 0,
    };
    Ok(InitializedPool { pool, swap_curve, initial_pool_token_amount: initial_amount })
}

// ---------------------------------------------------------------------------
// deposit_all_token_types

/// What a deposit of both tokens decides.
pub open spec fn deposit_all_token_types_of(
    withdrawals_only: bool,
    calculator: CurveCalculator,
    pool_mint_supply: int,
    token_a_vault_amount: int,
    token_b_vault_amount: int,
    pool_token_amount: int,
    maximum_token_a_amount: int,
    maximum_token_b_amount: int,
) -> Result<event::Deposit, SwapError> {
    if withdrawals_only {
        Err(SwapError::WithdrawalsOnlyMode)
    } else if calculator is Offset {
        Err(SwapError::UnsupportedCurveOperation)
    } else {
        let (pool_tokens, supply) = if pool_mint_supply > 0 {
            (pool_token_amount, pool_mint_supply)
        } else {
            (INITIAL_SWAP_POOL_AMOUNT as int, INITIAL_SWAP_POOL_AMOUNT as int)
        };
        match calculator_trading_tokens_of(
            calculator,
            pool_tokens,
            supply,
            token_a_vault_amount,
            token_b_vault_amount,
            RoundDirection::Ceiling,
        ) {
            Err(_) => Err(SwapError::ZeroTradingTokens),
            Ok(t) => if t.token_a_amount > u64_max() {
                Err(SwapError::ConversionFailure)
            } else if t.token_a_amount > maximum_token_a_amount {
                Err(SwapError::ExceededSlippage)
            } else if t.token_a_amount == 0 {
                Err(SwapError::ZeroTradingTokens)
            } else if t.token_b_amount > u64_max() {
                Err(SwapError::ConversionFailure)
            } else if t.token_b_amount > maximum_token_b_amount {
                Err(SwapError::ExceededSlippage)
            } else if t.token_b_amount == 0 {
                Err(SwapError::ZeroTradingTokens)
            } else if pool_tokens > u64_max() {
                Err(SwapError::ConversionFailure)
            } else {
                Ok(
                    event::Deposit {
                        token_a_amount: t.token_a_amount as u64,
                        token_b_amount: t.token_b_amount as u64,
                        pool_token_amount: pool_tokens as u64,
                    },
                )
            },
        }
    }
}

/// Decide a deposit of both tokens for `pool_token_amount` pool tokens: how
/// much of each token to take and how many pool tokens to mint. An empty pool
/// mints the initial supply.
pub fn deposit_all_token_types(
    pool: &SwapPool,
    swap_curve: &SwapCurve,
    token_a_user_ata: &[u8; 32],
    token_b_user_ata: &[u8; 32],
    pool_mint_supply: u64,
    token_a_vault_amount: u64,
    token_b_vault_amount: u64,
    pool_token_amount: u64,
    maximum_token_a_amount: u64,
    maximum_token_b_amount: u64,
) -> (r: Result<event::Deposit, SwapError>)
    ensures
        r == (if pool.withdrawals_only_spec() {
            Err(SwapError::WithdrawalsOnlyMode)
        } else if pool.token_a_vault@ == token_a_user_ata@ || pool.token_b_vault@
            == token_b_user_ata@ {
            Err(SwapError::IncorrectSwapAccount)
        } else {
            deposit_all_token_types_of(
                false,
                swap_curve.calculator,
                pool_mint_supply as int,
                token_a_vault_amount as int,
                token_b_vault_amount as int,
                pool_token_amount as int,
                maximum_token_a_amount as int,
                maximum_token_b_amount as int,
            )
        }),
        // never more of either token than the user allows
        r is Ok ==> r->Ok_0.token_a_amount <= maximum_token_a_amount && r->Ok_0.token_b_amount
            <= maximum_token_b_amount,
{
    proof {
        if deposit_all_token_types_of(
            false,
            swap_curve.calculator,
            pool_mint_supply as int,
            token_a_vault_amount as int,
            token_b_vault_amount as int,
            pool_token_amount as int,
            maximum_token_a_amount as int,
            maximum_token_b_amount as int,
        ) is Ok {
            lemma_deposit_within_maximums(
                false,
                swap_curve.calculator,
                pool_mint_supply as int,
                token_a_vault_amount as int,
                token_b_vault_amount as int,
                pool_token_amount as int,
                maximum_token_a_amount as int,
                maximum_token_b_amount as int,
            );
        }
    }
    if pool.withdrawals_only() {
        return Err(SwapError::WithdrawalsOnlyMode);
    }
    if same_key(&pool.token_a_vault, token_a_user_ata) {
        return Err(SwapError::IncorrectSwapAccount);
    }
    if same_key(&pool.token_b_vault, token_b_user_ata) {
        return Err(SwapError::IncorrectSwapAccount);
    }
    let calculator = &swap_curve.calculator;
    if !calculator.allows_deposits() {
        return Err(SwapError::UnsupportedCurveOperation);
    }
    let current_pool_mint_supply = pool_mint_supply as u128;
    let (pool_token_amount, pool_mint_supply) = if current_pool_mint_supply > 0 {
        (pool_token_amount as u128, current_pool_mint_supply)
    } else {
        (calculator.new_pool_supply(), calculator.new_pool_supply())
    };
    let results = match calculator.pool_tokens_to_trading_tokens(
        pool_token_amount,
        pool_mint_supply,
        token_a_vault_amount as u128,
        token_b_vault_amount as u128,
        RoundDirection::Ceiling,
    ) {
        Ok(t) => t,
        Err(_) => return Err(SwapError::ZeroTradingTokens),
    };
    let token_a_amount = to_u64(results.token_a_amount)?;
    if token_a_amount > maximum_token_a_amount {
        return Err(SwapError::ExceededSlippage);
    }
    if token_a_amount == 0 {
        return Err(SwapError::ZeroTradingTokens);
    }
    let token_b_amount = to_u64(results.token_b_amount)?;
    if token_b_amount > maximum_token_b_amount {
        return Err(SwapError::ExceededSlippage);
    }
    if token_b_amount == 0 {
        return Err(SwapError::ZeroTradingTokens);
    }
    let pool_token_amount = to_u64(pool_token_amount)?;
    Ok(event::Deposit { token_a_amount, token_b_amount, pool_token_amount })
}

/// A deposit into a constant product or stable pool that holds tokens
/// never mints pool tokens below their worth: each side paid is at least the
/// minted share of what the pool holds on that side.
pub proof fn lemma_deposit_pays_share(
    calculator: CurveCalculator,
    pool_mint_supply: int,
    token_a_vault_amount: int,
    token_b_vault_amount: int,
    pool_token_amount: int,
    maximum_token_a_amount: int,
    maximum_token_b_amount: int,
)
    requires
        calculator is ConstantProduct || calculator is Stable,
        0 <= pool_mint_supply,
        0 <= token_a_vault_amount,
        0 <= token_b_vault_amount,
        0 <= pool_token_amount,
        deposit_all_token_types_of(
            false,
            calculator,
            pool_mint_supply,
            token_a_vault_amount,
            token_b_vault_amount,
            pool_token_amount,
            maximum_token_a_amount,
            maximum_token_b_amount,
        ) is Ok,
    ensures
        ({
            let deposit = deposit_all_token_types_of(
                false,
                calculator,
                pool_mint_supply,
                token_a_vault_amount,
                token_b_vault_amount,
                pool_token_amount,
                maximum_token_a_amount,
                maximum_token_b_amount,
            )->Ok_0;
            let supply = if pool_mint_supply > 0 {
                pool_mint_supply
            } else {
                INITIAL_SWAP_POOL_AMOUNT as int
            };
            &&& deposit.token_a_amount * supply >= deposit.pool_token_amount * token_a_vault_amount
            &&& deposit.token_b_amount * supply >= deposit.pool_token_amount * token_b_vault_amount
        }),
{
    let (pool_tokens, supply) = if pool_mint_supply > 0 {
        (pool_token_amount, pool_mint_supply)
    } else {
        (INITIAL_SWAP_POOL_AMOUNT as int, INITIAL_SWAP_POOL_AMOUNT as int)
    };
    assert(trading_tokens_of(
        pool_tokens,
        supply,
        token_a_vault_amount,
        token_b_vault_amount,
        RoundDirection::Ceiling,
    ) is Ok);
    lemma_trading_tokens_rounding(pool_tokens, supply, token_a_vault_amount, token_b_vault_amount);
}

// ---------------------------------------------------------------------------
// deposit_single_token_type

/// The side a single-token deposit pays into, from the mint of the user's
/// source account, or the check it fails: the user's account must not be
/// the pool's own vault.
pub open spec fn deposit_single_inputs_of(
    pool: &SwapPool,
    source_mint: Seq<u8>,
    source_user_ata: Seq<u8>,
    token_a_vault_mint: Seq<u8>,
    token_b_vault_mint: Seq<u8>,
) -> Result<TradeDirection, SwapError> {
    if source_mint == token_a_vault_mint {
        if pool.token_a_vault@ == source_user_ata {
            Err(SwapError::IncorrectSwapAccount)
        } else {
            Ok(TradeDirection::AtoB)
        }
    } else if source_mint == token_b_vault_mint {
        if pool.token_b_vault@ == source_user_ata {
            Err(SwapError::IncorrectSwapAccount)
        } else {
            Ok(TradeDirection::BtoA)
        }
    } else {
        Err(SwapError::IncorrectSwapAccount)
    }
}

/// Check the accounts of a single-token deposit against the pool, and find
/// the side it pays into.
pub fn validate_deposit_single_inputs(
    pool: &SwapPool,
    source_mint: &[u8; 32],
    source_user_ata: &[u8; 32],
    token_a_vault_mint: &[u8; 32],
    token_b_vault_mint: &[u8; 32],
) -> (r: Result<TradeDirection, SwapError>)
    ensures
        r == deposit_single_inputs_of(
            pool,
            source_mint@,
            source_user_ata@,
            token_a_vault_mint@,
            token_b_vault_mint@,
        ),
        r == Ok::<TradeDirection, SwapError>(TradeDirection::AtoB) ==> source_user_ata@
            != pool.token_a_vault@,
        r == Ok::<TradeDirection, SwapError>(TradeDirection::BtoA) ==> source_user_ata@
            != pool.token_b_vault@,
{
    proof {
        lemma_deposit_single_inputs_sound(
            pool,
            source_mint@,
            source_user_ata@,
            token_a_vault_mint@,
            token_b_vault_mint@,
        );
    }
    if same_key(source_mint, token_a_vault_mint) {
        if same_key(&pool.token_a_vault, source_user_ata) {
            return Err(SwapError::IncorrectSwapAccount);
        }
        Ok(TradeDirection::AtoB)
    } else if same_key(source_mint, token_b_vault_mint) {
        if same_key(&pool.token_b_vault, source_user_ata) {
            return Err(SwapError::IncorrectSwapAccount);
        }
        Ok(TradeDirection::BtoA)
    } else {
        Err(SwapError::IncorrectSwapAccount)
    }
}

/// What a single-token deposit decides. `curve_pool_tokens` is what the
/// pool's curve gives for the deposit (`None` where it fails); it is read
/// only where the pool has pool tokens out, an empty pool minting the
/// initial supply.
pub open spec fn deposit_single_token_type_of(
    calculator: CurveCalculator,
    pool_mint_supply: int,
    curve_pool_tokens: Option<u128>,
    source_token_amount: u64,
    minimum_pool_token_amount: int,
) -> Result<event::DepositSingleTokenType, SwapError> {
    if calculator is Offset {
        Err(SwapError::UnsupportedCurveOperation)
    } else {
        let pool_tokens: Result<int, SwapError> = if pool_mint_supply > 0 {
            match curve_pool_tokens {
                None => Err(SwapError::ZeroTradingTokens),
                Some(p) => Ok(p as int),
            }
        } else {
            Ok(INITIAL_SWAP_POOL_AMOUNT as int)
        };
        match pool_tokens {
            Err(e) => Err(e),
            Ok(p) => if p > u64_max() {
                Err(SwapError::ConversionFailure)
            } else if p < minimum_pool_token_amount {
                Err(SwapError::ExceededSlippage)
            } else if p == 0 {
                Err(SwapError::ZeroTradingTokens)
            } else {
                Ok(
                    event::DepositSingleTokenType {
                        token_amount: source_token_amount,
                        pool_token_amount: p as u64,
                    },
                )
            },
        }
    }
}

/// Decide a deposit of `source_token_amount` of one token: how many pool
/// tokens to mint for it, at least `minimum_pool_token_amount`.
/// `curve_pool_tokens` is what the pool's curve gives for the deposit.
pub fn deposit_single_token_type(
    swap_curve: &SwapCurve,
    pool_mint_supply: u64,
    curve_pool_tokens: Option<u128>,
    source_token_amount: u64,
    minimum_pool_token_amount: u64,
) -> (r: Result<event::DepositSingleTokenType, SwapError>)
    ensures
        r == deposit_single_token_type_of(
            swap_curve.calculator,
            pool_mint_supply as int,
            curve_pool_tokens,
            source_token_amount,
            minimum_pool_token_amount as int,
        ),
        r is Ok ==> r->Ok_0.pool_token_amount >= minimum_pool_token_amount,
{
    let calculator = &swap_curve.calculator;
    if !calculator.allows_deposits() {
        return Err(SwapError::UnsupportedCurveOperation);
    }
    let pool_token_amount = if pool_mint_supply > 0 {
        match curve_pool_tokens {
            Some(p) => p,
            None => return Err(SwapError::ZeroTradingTokens),
        }
    } else {
        calculator.new_pool_supply()
    };
    let pool_token_amount = to_u64(pool_token_amount)?;
    if pool_token_amount < minimum_pool_token_amount {
        return Err(SwapError::ExceededSlippage);
    }
    if pool_token_amount == 0 {
        return Err(SwapError::ZeroTradingTokens);
    }
    Ok(event::DepositSingleTokenType { token_amount: source_token_amount, pool_token_amount })
}

// ---------------------------------------------------------------------------
// withdraw_single_token_type

/// The side a single-token withdrawal takes from, from the mint of the
/// user's destination account.
pub open spec fn withdraw_single_inputs_of(
    destination_mint: Seq<u8>,
    token_a_vault_mint: Seq<u8>,
    token_b_vault_mint: Seq<u8>,
) -> Result<TradeDirection, SwapError> {
    if destination_mint == token_a_vault_mint {
        Ok(TradeDirection::AtoB)
    } else if destination_mint == token_b_vault_mint {
        Ok(TradeDirection::BtoA)
    } else {
        Err(SwapError::IncorrectSwapAccount)
    }
}

/// Find the side a single-token withdrawal takes from.
pub fn validate_withdraw_single_inputs(
    destination_mint: &[u8; 32],
    token_a_vault_mint: &[u8; 32],
    token_b_vault_mint: &[u8; 32],
) -> (r: Result<TradeDirection, SwapError>)
    ensures
        r == withdraw_single_inputs_of(
            destination_mint@,
            token_a_vault_mint@,
            token_b_vault_mint@,
        ),
{
    if same_key(destination_mint, token_a_vault_mint) {
        Ok(TradeDirection::AtoB)
    } else if same_key(destination_mint, token_b_vault_mint) {
        Ok(TradeDirection::BtoA)
    } else {
        Err(SwapError::IncorrectSwapAccount)
    }
}

/// What a single-token withdrawal decides. `curve_burn_pool_tokens` is what
/// the pool's curve asks to burn for the withdrawal (`None` where it fails);
/// the owner's withdraw fee on it is added on top.
pub open spec fn withdraw_single_token_type_of(
    fees: Fees,
    curve_burn_pool_tokens: Option<u128>,
    destination_token_amount: u64,
    maximum_pool_token_amount: int,
) -> Result<event::WithdrawSingleTokenType, SwapError> {
    match curve_burn_pool_tokens {
        None => Err(SwapError::ZeroTradingTokens),
        Some(burn) => match fees.owner_withdraw_fee_of(burn as int) {
            None => Err(SwapError::FeeCalculationFailure),
            Some(fee) => if burn + fee > u128_max() {
                Err(SwapError::CalculationFailure)
            } else if burn + fee > maximum_pool_token_amount {
                Err(SwapError::ExceededSlippage)
            } else if burn + fee == 0 {
                Err(SwapError::ZeroTradingTokens)
            } else {
                Ok(
                    event::WithdrawSingleTokenType {
                        pool_token_amount: (burn + fee) as u64,
                        token_amount: destination_token_amount,
                        fee: fee as u64,
                    },
                )
            },
        },
    }
}

/// Decide a withdrawal of `destination_token_amount` of one token: the pool
/// tokens the user gives up, at most `maximum_pool_token_amount`, of which
/// `fee` go to the fees vault and the rest are burnt.
/// `curve_burn_pool_tokens` is what the pool's curve asks to burn.
pub fn withdraw_single_token_type(
    fees: &Fees,
    curve_burn_pool_tokens: Option<u128>,
    destination_token_amount: u64,
    maximum_pool_token_amount: u64,
) -> (r: Result<event::WithdrawSingleTokenType, SwapError>)
    ensures
        r == withdraw_single_token_type_of(
            *fees,
            curve_burn_pool_tokens,
            destination_token_amount,
            maximum_pool_token_amount as int,
        ),
        r is Ok ==> {
            &&& r->Ok_0.fee <= r->Ok_0.pool_token_amount <= maximum_pool_token_amount
            &&& r->Ok_0.pool_token_amount - r->Ok_0.fee == curve_burn_pool_tokens->Some_0
        },
{
    let burn_pool_token_amount = match curve_burn_pool_tokens {
        Some(b) => b,
        None => return Err(SwapError::ZeroTradingTokens),
    };
    let withdraw_fee = match fees.owner_withdraw_fee(burn_pool_token_amount) {
        Ok(f) => f,
        Err(_) => return Err(SwapError::FeeCalculationFailure),
    };
    let pool_token_amount = match burn_pool_token_amount.checked_add(withdraw_fee) {
        Some(p) => p,
        None => return Err(SwapError::CalculationFailure),
    };
    if pool_token_amount > maximum_pool_token_amount as u128 {
        return Err(SwapError::ExceededSlippage);
    }
    if pool_token_amount == 0 {
        return Err(SwapError::ZeroTradingTokens);
    }
    let withdraw_fee = to_u64(withdraw_fee)?;
    let pool_token_amount = to_u64(pool_token_amount)?;
    Ok(
        event::WithdrawSingleTokenType {
            pool_token_amount,
            token_amount: destination_token_amount,
            fee: withdraw_fee,
        },
    )
}

// ---------------------------------------------------------------------------
// single-token deposits and withdrawals on a stable pool

/// Decide a deposit of `source_token_amount` of one token into a stable
/// pool: the pool tokens minted are what the stable curve gives for the
/// whole deposit (`StableCurve::deposit_single_token_type`), with no trading
/// fee taken here. The curve's rounding must fit in a `u128`, as
/// `StableCurve::deposit_single_token_type_fits` tests.
pub fn stable_deposit_single_token_type(
    curve: &StableCurve,
    pool_mint_supply: u64,
    token_a_vault_amount: u64,
    token_b_vault_amount: u64,
    trade_direction: TradeDirection,
    source_token_amount: u64,
    minimum_pool_token_amount: u64,
) -> (r: Result<event::DepositSingleTokenType, SwapError>)
    requires
        pool_mint_supply == 0 || source_token_amount == 0 || floor_fits(
            stable_deposit_share_of(
                curve.amp as int,
                source_token_amount as int,
                token_a_vault_amount as int,
                token_b_vault_amount as int,
                pool_mint_supply as int,
                trade_direction,
            ),
        ),
    ensures
        r == deposit_single_token_type_of(
            CurveCalculator::Stable(*curve),
            pool_mint_supply as int,
            if source_token_amount == 0 {
                Some(0u128)
            } else {
                as_u128_opt(
                    floored_of(
                        stable_deposit_share_of(
                            curve.amp as int,
                            source_token_amount as int,
                            token_a_vault_amount as int,
                            token_b_vault_amount as int,
                            pool_mint_supply as int,
                            trade_direction,
                        ),
                    ),
                )
            },
            source_token_amount,
            minimum_pool_token_amount as int,
        ),
{
    let swap_curve = SwapCurve {
        curve_type: CurveType::Stable,
        calculator: CurveCalculator::Stable(*curve),
    };
    let curve_pool_tokens = if pool_mint_supply > 0 {
        curve.deposit_single_token_type(
            source_token_amount as u128,
            token_a_vault_amount as u128,
            token_b_vault_amount as u128,
            pool_mint_supply as u128,
            trade_direction,
        )
    } else {
        None
    };
    let ghost expected = if source_token_amount == 0 {
        Some(0u128)
    } else {
        as_u128_opt(
            floored_of(
                stable_deposit_share_of(
                    curve.amp as int,
                    source_token_amount as int,
                    token_a_vault_amount as int,
                    token_b_vault_amount as int,
                    pool_mint_supply as int,
                    trade_direction,
                ),
            ),
        )
    };
    let r = deposit_single_token_type(
        &swap_curve,
        pool_mint_supply,
        curve_pool_tokens,
        source_token_amount,
        minimum_pool_token_amount,
    );
    proof {
        // the curve's amount is read only where the pool has pool tokens out
        assert(deposit_single_token_type_of(
            CurveCalculator::Stable(*curve),
            pool_mint_supply as int,
            curve_pool_tokens,
            source_token_amount,
            minimum_pool_token_amount as int,
        ) == deposit_single_token_type_of(
            CurveCalculator::Stable(*curve),
            pool_mint_supply as int,
            expected,
            source_token_amount,
            minimum_pool_token_amount as int,
        ));
    }
    r
}

/// Decide a withdrawal of exactly `destination_token_amount` of one token
/// from a stable pool: the pool tokens burnt are what the stable curve asks
/// for it, rounded up (`StableCurve::withdraw_single_token_type_exact_out`),
/// with the owner's withdraw fee added on top. The curve's rounding must fit
/// in a `u128`, as `StableCurve::withdraw_single_token_type_exact_out_fits`
/// tests.
pub fn stable_withdraw_single_token_type(
    curve: &StableCurve,
    fees: &Fees,
    pool_mint_supply: u64,
    token_a_vault_amount: u64,
    token_b_vault_amount: u64,
    trade_direction: TradeDirection,
    destination_token_amount: u64,
    maximum_pool_token_amount: u64,
) -> (r: Result<event::WithdrawSingleTokenType, SwapError>)
    requires
        destination_token_amount == 0 || ceiling_fits(
            stable_withdraw_share_of(
                curve.amp as int,
                destination_token_amount as int,
                token_a_vault_amount as int,
                token_b_vault_amount as int,
                pool_mint_supply as int,
                trade_direction,
            ),
        ),
    ensures
        r == withdraw_single_token_type_of(
            *fees,
            if destination_token_amount == 0 {
                Some(0u128)
            } else {
                as_u128_opt(
                    ceiled_of(
                        stable_withdraw_share_of(
                            curve.amp as int,
                            destination_token_amount as int,
                            token_a_vault_amount as int,
                            token_b_vault_amount as int,
                            pool_mint_supply as int,
                            trade_direction,
                        ),
                    ),
                )
            },
            destination_token_amount,
            maximum_pool_token_amount as int,
        ),
{
    let burn = curve.withdraw_single_token_type_exact_out(
        destination_token_amount as u128,
        token_a_vault_amount as u128,
        token_b_vault_amount as u128,
        pool_mint_supply as u128,
        trade_direction,
        RoundDirection::Ceiling,
    );
    withdraw_single_token_type(fees, burn, destination_token_amount, maximum_pool_token_amount)
}

// ---------------------------------------------------------------------------
// withdraw_fees

/// Check that the fees vault and mint belong to the pool.
pub fn validate_withdraw_fees_inputs(pool: &SwapPool, fees_mint: &[u8; 32], fees_vault: &[u8; 32]) -> (r:
    Result<(), SwapError>)
    ensures
        r == (if fees_mint@ == pool.token_a_mint@ {
            if pool.token_a_fees_vault@ == fees_vault@ {
                Ok(())
            } else {
                Err(SwapError::IncorrectFeeAccount)
            }
        } else if fees_mint@ == pool.token_b_mint@ {
            if pool.token_b_fees_vault@ == fees_vault@ {
                Ok(())
            } else {
                Err(SwapError::IncorrectFeeAccount)
            }
        } else {
            Err(SwapError::IncorrectTradingMint)
        }),
{
    if same_key(fees_mint, &pool.token_a_mint) {
        if !same_key(&pool.token_a_fees_vault, fees_vault) {
            return Err(SwapError::IncorrectFeeAccount);
        }
    } else if same_key(fees_mint, &pool.token_b_mint) {
        if !same_key(&pool.token_b_fees_vault, fees_vault) {
            return Err(SwapError::IncorrectFeeAccount);
        }
    } else {
        return Err(SwapError::IncorrectTradingMint);
    }
    Ok(())
}

/// Decide a withdrawal from a fees vault holding `fees_vault_amount`: the
/// requested amount, capped at what the vault holds. An empty vault is
/// refused.
pub fn withdraw_fees(
    pool: &SwapPool,
    fees_mint: &[u8; 32],
    fees_vault: &[u8; 32],
    fees_vault_amount: u64,
    requested_withdraw_amount: u64,
) -> (r: Result<event::WithdrawFees, SwapError>)
    ensures
        fees_vault_amount == 0 ==> r == Err::<event::WithdrawFees, SwapError>(
            SwapError::ZeroTradingTokens,
        ),
        fees_vault_amount > 0 ==> match validate_withdraw_fees_inputs_spec(pool, fees_mint@, fees_vault@) {
            Err(e) => r == Err::<event::WithdrawFees, SwapError>(e),
            Ok(_) => if requested_withdraw_amount == 0 {
                r == Err::<event::WithdrawFees, SwapError>(SwapError::ZeroTradingTokens)
            } else {
                r == Ok::<event::WithdrawFees, SwapError>(
                    event::WithdrawFees {
                        withdraw_amount: if requested_withdraw_amount < fees_vault_amount {
                            requested_withdraw_amount
                        } else {
                            fees_vault_amount
                        },
                    },
                )
            },
        },
        r is Ok ==> r->Ok_0.withdraw_amount <= fees_vault_amount,
{
    if fees_vault_amount == 0 {
        return Err(SwapError::ZeroTradingTokens);
    }
    validate_withdraw_fees_inputs(pool, fees_mint, fees_vault)?;
    if requested_withdraw_amount == 0 {
        return Err(SwapError::ZeroTradingTokens);
    }
    let withdraw_amount = if requested_withdraw_amount < fees_vault_amount {
        requested_withdraw_amount
    } else {
        fees_vault_amount
    };
    Ok(event::WithdrawFees { withdraw_amount })
}

/// The check of `validate_withdraw_fees_inputs`, over the keys' bytes.
pub open spec fn validate_withdraw_fees_inputs_spec(
    pool: &SwapPool,
    fees_mint: Seq<u8>,
    fees_vault: Seq<u8>,
) -> Result<(), SwapError> {
    if fees_mint == pool.token_a_mint@ {
        if pool.token_a_fees_vault@ == fees_vault {
            Ok(())
        } else {
            Err(SwapError::IncorrectFeeAccount)
        }
    } else if fees_mint == pool.token_b_mint@ {
        if pool.token_b_fees_vault@ == fees_vault {
            Ok(())
        } else {
            Err(SwapError::IncorrectFeeAccount)
        }
    } else {
        Err(SwapError::IncorrectTradingMint)
    }
}

// ---------------------------------------------------------------------------
// update_pool_config

/// Apply an update of a pool setting: `mode` must number a setting, and
/// `value` must encode a value for it.
pub fn update_pool_config(
    pool: &mut SwapPool,
    mode: u16,
    value: &[u8; VALUE_BYTE_ARRAY_LEN],
) -> (r: Result<event::UpdatePoolConfig, SwapError>)
    ensures
        mode != 0 ==> r == Err::<event::UpdatePoolConfig, SwapError>(SwapError::InstructionDidNotDeserialize)
            && *final(pool) == *old(pool),
        mode == 0 ==> match decode_bool_bytes(value@) {
            Err(e) => r == Err::<event::UpdatePoolConfig, SwapError>(e) && *final(pool) == *old(
                pool,
            ),
            Ok(v) => {
                &&& r == Ok::<event::UpdatePoolConfig, SwapError>(
                    event::UpdatePoolConfig { mode: UpdatePoolConfigMode::WithdrawalsOnly, value: v },
                )
                &&& final(pool).withdrawals_only == (match v {
                    UpdatePoolConfigValue::Bool(b) => if b {
                        1u64
                    } else {
                        0u64
                    },
                })
                &&& *final(pool) == (SwapPool { withdrawals_only: final(pool).withdrawals_only, ..*old(pool) })
            },
        },
{
    let mode = match UpdatePoolConfigMode::try_from_u16(mode) {
        Some(m) => m,
        None => return Err(SwapError::InstructionDidNotDeserialize),
    };
    let value = match mode {
        UpdatePoolConfigMode::WithdrawalsOnly => {
            let value = UpdatePoolConfigValue::from_bool_bytes(value)?;
            let packed_value = value.to_u64();
            pool.withdrawals_only = packed_value;
            value
        },
    };
    Ok(event::UpdatePoolConfig { mode, value })
}

// ---------------------------------------------------------------------------
// swap

/// The trade direction that the given mints and vaults make on the pool, or
/// the first check they fail; the two mints must differ.
pub open spec fn swap_inputs_of(
    pool: &SwapPool,
    source_mint: Seq<u8>,
    destination_mint: Seq<u8>,
    source_vault: Seq<u8>,
    destination_vault: Seq<u8>,
    source_token_fees_vault: Seq<u8>,
) -> Result<TradeDirection, SwapError> {
    if source_mint == destination_mint {
        Err(SwapError::RepeatedMint)
    } else if pool.withdrawals_only_spec() {
        Err(SwapError::WithdrawalsOnlyMode)
    } else if source_mint == pool.token_a_mint@ && destination_mint == pool.token_b_mint@ {
        if source_vault != pool.token_a_vault@ || destination_vault != pool.token_b_vault@
            || source_token_fees_vault != pool.token_a_fees_vault@ {
            Err(SwapError::IncorrectSwapAccount)
        } else {
            Ok(TradeDirection::AtoB)
        }
    } else if source_mint == pool.token_b_mint@ && destination_mint == pool.token_a_mint@ {
        if destination_vault != pool.token_a_vault@ || source_vault != pool.token_b_vault@
            || source_token_fees_vault != pool.token_b_fees_vault@ {
            Err(SwapError::IncorrectSwapAccount)
        } else {
            Ok(TradeDirection::BtoA)
        }
    } else {
        Err(SwapError::IncorrectSwapAccount)
    }
}

/// Check the accounts of a swap against the pool, and find the trade direction.
pub fn validate_swap_inputs(
    pool: &SwapPool,
    source_mint: &[u8; 32],
    destination_mint: &[u8; 32],
    source_vault: &[u8; 32],
    destination_vault: &[u8; 32],
    source_token_fees_vault: &[u8; 32],
) -> (r: Result<TradeDirection, SwapError>)
    ensures
        r == swap_inputs_of(
            pool,
            source_mint@,
            destination_mint@,
            source_vault@,
            destination_vault@,
            source_token_fees_vault@,
        ),
{
    if same_key(source_mint, destination_mint) {
        return Err(SwapError::RepeatedMint);
    }
    if pool.withdrawals_only() {
        return Err(SwapError::WithdrawalsOnlyMode);
    }
    let trade_direction = if same_key(source_mint, &pool.token_a_mint) && same_key(
        destination_mint,
        &pool.token_b_mint,
    ) {
        TradeDirection::AtoB
    } else if same_key(source_mint, &pool.token_b_mint) && same_key(
        destination_mint,
        &pool.token_a_mint,
    ) {
        TradeDirection::BtoA
    } else {
        return Err(SwapError::IncorrectSwapAccount);
    };
    match trade_direction {
        TradeDirection::AtoB => {
            if !same_key(source_vault, &pool.token_a_vault) {
                return Err(SwapError::IncorrectSwapAccount);
            }
            if !same_key(destination_vault, &pool.token_b_vault) {
                return Err(SwapError::IncorrectSwapAccount);
            }
            if !same_key(source_token_fees_vault, &pool.token_a_fees_vault) {
                return Err(SwapError::IncorrectSwapAccount);
            }
        },
        TradeDirection::BtoA => {
            if !same_key(destination_vault, &pool.token_a_vault) {
                return Err(SwapError::IncorrectSwapAccount);
            }
            if !same_key(source_vault, &pool.token_b_vault) {
                return Err(SwapError::IncorrectSwapAccount);
            }
            if !same_key(source_token_fees_vault, &pool.token_b_fees_vault) {
                return Err(SwapError::IncorrectSwapAccount);
            }
        },
    }
    Ok(trade_direction)
}

/// The transfers a swap makes and the event it reports.
#[derive(Debug, Clone, Copy, PartialEq, Eq, Structural)]
pub struct SwapTransfers {
    /// Source tokens the user sends to the source vault, transfer fee included
    pub source_amount_to_vault: u64,
    /// Source tokens the user sends to the owner fees vault, transfer fee included (0: no transfer)
    pub owner_fee_transfer: u64,
    /// Source tokens the user sends to the host fees account, transfer fee included (0: no transfer)
    pub host_fee_transfer: u64,
    /// Destination tokens the destination vault sends to the user
    pub destination_amount_from_vault: u64,
    /// What the swap reports
    pub event: event::Swap,
}

/// The owner's share of the owner fee, and the host's, each grossed up by
/// the transfer fee of the source mint.
pub open spec fn fee_transfers_of(
    fees: Fees,
    schedule: Option<TransferFeeSchedule>,
    epoch: int,
    owner_fee: int,
    has_host_fees_account: bool,
) -> Result<(u64, u64), SwapError> {
    if owner_fee == 0 {
        Ok((0, 0))
    } else {
        let host = if has_host_fees_account {
            match fees.host_fee_of(owner_fee) {
                None => Err(SwapError::FeeCalculationFailure),
                Some(host_fee) => if host_fee == 0 {
                    Ok((0int, 0u64))
                } else if owner_fee < host_fee {
                    Err(SwapError::CalculationFailure)
                } else if host_fee > u64_max() {
                    Err(SwapError::ConversionFailure)
                } else {
                    match add_inverse_transfer_fee_of(schedule, epoch, host_fee) {
                        Err(e) => Err(e),
                        Ok(t) => Ok((host_fee, t)),
                    }
                },
            }
        } else {
            Ok((0int, 0u64))
        };
        match host {
            Err(e) => Err(e),
            Ok((host_fee, host_transfer)) => if owner_fee - host_fee > u64_max() {
                Err(SwapError::ConversionFailure)
            } else {
                match add_inverse_transfer_fee_of(schedule, epoch, owner_fee - host_fee) {
                    Err(e) => Err(e),
                    Ok(owner_transfer) => Ok((owner_transfer, host_transfer)),
                }
            },
        }
    }
}

/// What a swap of `amount_in` decides, once the trade direction is known.
pub open spec fn swap_transfers_of(
    calculator: CurveCalculator,
    fees: Fees,
    source_schedule: Option<TransferFeeSchedule>,
    destination_schedule: Option<TransferFeeSchedule>,
    epoch: int,
    trade_direction: TradeDirection,
    amount_in: int,
    minimum_amount_out: int,
    source_vault_amount: int,
    destination_vault_amount: int,
    has_host_fees_account: bool,
) -> Result<SwapTransfers, SwapError> {
    match sub_input_transfer_fees_of(
        source_schedule,
        epoch,
        fees,
        amount_in,
        has_host_fees_account,
    ) {
        Err(e) => Err(e),
        Ok(actual_amount_in) => match swap_of(
            calculator,
            actual_amount_in as int,
            source_vault_amount,
            destination_vault_amount,
            trade_direction,
            fees,
        ) {
            Err(_) => Err(SwapError::ZeroTradingTokens),
            Ok(res) => swap_result_transfers_of(
                res,
                fees,
                source_schedule,
                destination_schedule,
                epoch,
                minimum_amount_out,
                has_host_fees_account,
            ),
        },
    }
}

/// The transfers that carry out the curve's swap result `res`.
pub open spec fn swap_result_transfers_of(
    res: SwapResult,
    fees: Fees,
    source_schedule: Option<TransferFeeSchedule>,
    destination_schedule: Option<TransferFeeSchedule>,
    epoch: int,
    minimum_amount_out: int,
    has_host_fees_account: bool,
) -> Result<SwapTransfers, SwapError> {
    if res.source_amount_to_vault > u64_max() {
        Err(SwapError::ConversionFailure)
    } else {
        match add_inverse_transfer_fee_of(
            source_schedule,
            epoch,
            res.source_amount_to_vault as int,
        ) {
            Err(e) => Err(e),
            Ok(to_vault) => if res.destination_amount_swapped > u64_max() {
                Err(SwapError::ConversionFailure)
            } else {
                match sub_transfer_fee_of(
                    destination_schedule,
                    epoch,
                    res.destination_amount_swapped as int,
                ) {
                    Err(e) => Err(e),
                    Ok(received) => if received < minimum_amount_out {
                        Err(SwapError::ExceededSlippage)
                    } else {
                        match fee_transfers_of(
                            fees,
                            source_schedule,
                            epoch,
                            res.owner_fee as int,
                            has_host_fees_account,
                        ) {
                            Err(e) => Err(e),
                            Ok((owner_transfer, host_transfer)) => if res.total_fees
                                > u64_max() {
                                Err(SwapError::ConversionFailure)
                            } else {
                                Ok(
                                    SwapTransfers {
                                        source_amount_to_vault: to_vault,
                                        owner_fee_transfer: owner_transfer,
                                        host_fee_transfer: host_transfer,
                                        destination_amount_from_vault: res.destination_amount_swapped as u64,
                                        event: event::Swap {
                                            token_in_amount: to_vault,
                                            token_out_amount: res.destination_amount_swapped as u64,
                                            total_fees: res.total_fees as u64,
                                        },
                                    },
                                )
                            },
                        }
                    },
                }
            },
        }
    }
}

/// The owner's and host's fee transfers of a swap whose owner fee is `owner_fee`.
fn fee_transfers(
    fees: &Fees,
    schedule: Option<TransferFeeSchedule>,
    epoch: u64,
    owner_fee: u128,
    has_host_fees_account: bool,
) -> (r: Result<(u64, u64), SwapError>)
    ensures
        r == fee_transfers_of(*fees, schedule, epoch as int, owner_fee as int, has_host_fees_account),
        // a paid host fee is grossed up by the source mint's transfer fee
        r is Ok && owner_fee != 0 && has_host_fees_account && fees.host_fee_of(owner_fee as int)->Some_0
            > 0 ==> add_inverse_transfer_fee_of(
            schedule,
            epoch as int,
            fees.host_fee_of(owner_fee as int)->Some_0,
        ) == Ok::<u64, SwapError>(r->Ok_0.1),
{
    proof {
        if fee_transfers_of(*fees, schedule, epoch as int, owner_fee as int, has_host_fees_account)
            is Ok {
            lemma_fee_transfers_gross_up(
                *fees,
                schedule,
                epoch as int,
                owner_fee as int,
                has_host_fees_account,
            );
        }
    }
    if owner_fee == 0 {
        return Ok((0, 0));
    }
    let mut owner_fee = owner_fee;
    let mut host_transfer: u64 = 0;
    // Allow none to fall through
    if has_host_fees_account {
        let host_fee = match fees.host_fee(owner_fee) {
            Ok(h) => h,
            Err(_) => return Err(SwapError::FeeCalculationFailure),
        };
        if host_fee > 0 {
            owner_fee = match owner_fee.checked_sub(host_fee) {
                Some(o) => o,
                None => return Err(SwapError::CalculationFailure),
            };
            let host_fee_u64 = to_u64(host_fee)?;
            host_transfer = add_inverse_transfer_fee_for_schedule(schedule, epoch, host_fee_u64)?;
        }
    }
    let owner_fee_u64 = to_u64(owner_fee)?;
    let owner_transfer = add_inverse_transfer_fee_for_schedule(schedule, epoch, owner_fee_u64)?;
    Ok((owner_transfer, host_transfer))
}

/// Decide a swap of `amount_in` source tokens once its accounts are checked:
/// the transfer fees of the source mint come off the input, the curve swaps
/// the rest, and the transfers are grossed up by the source mint's transfer
/// fee. The swap fails where the user would receive, after the destination
/// mint's transfer fee, less than `minimum_amount_out`.
pub fn swap(
    swap_curve: &SwapCurve,
    fees: &Fees,
    source_schedule: Option<TransferFeeSchedule>,
    destination_schedule: Option<TransferFeeSchedule>,
    epoch: u64,
    trade_direction: TradeDirection,
    amount_in: u64,
    minimum_amount_out: u64,
    source_vault_amount: u64,
    destination_vault_amount: u64,
    has_host_fees_account: bool,
) -> (r: Result<SwapTransfers, SwapError>)
    ensures
        r == swap_transfers_of(
            swap_curve.calculator,
            *fees,
            source_schedule,
            destination_schedule,
            epoch as int,
            trade_direction,
            amount_in as int,
            minimum_amount_out as int,
            source_vault_amount as int,
            destination_vault_amount as int,
            has_host_fees_account,
        ),
        // the user receives at least the minimum once the destination fee is taken
        r is Ok ==> sub_transfer_fee_of(
            destination_schedule,
            epoch as int,
            r->Ok_0.destination_amount_from_vault as int,
        ) is Ok && sub_transfer_fee_of(
            destination_schedule,
            epoch as int,
            r->Ok_0.destination_amount_from_vault as int,
        )->Ok_0 >= minimum_amount_out,
{
    proof {
        if swap_transfers_of(
            swap_curve.calculator,
            *fees,
            source_schedule,
            destination_schedule,
            epoch as int,
            trade_direction,
            amount_in as int,
            minimum_amount_out as int,
            source_vault_amount as int,
            destination_vault_amount as int,
            has_host_fees_account,
        ) is Ok {
            lemma_swap_meets_minimum_out(
                swap_curve.calculator,
                *fees,
                source_schedule,
                destination_schedule,
                epoch as int,
                trade_direction,
                amount_in as int,
                minimum_amount_out as int,
                source_vault_amount as int,
                destination_vault_amount as int,
                has_host_fees_account,
            );
        }
    }
    // Take transfer fees into account for actual amount transferred in
    let actual_amount_in = sub_input_transfer_fees_for_schedule(
        source_schedule,
        epoch,
        fees,
        amount_in,
        has_host_fees_account,
    )?;
    let result = match swap_curve.swap(
        actual_amount_in as u128,
        source_vault_amount as u128,
        destination_vault_amount as u128,
        trade_direction,
        fees,
    ) {
        Ok(res) => res,
        Err(_) => return Err(SwapError::ZeroTradingTokens),
    };
    // Re-calculate the source amount swapped based on what the curve says
    let source_amount_to_vault = to_u64(result.source_amount_to_vault)?;
    let source_amount_to_vault = add_inverse_transfer_fee_for_schedule(
        source_schedule,
        epoch,
        source_amount_to_vault,
    )?;
    let destination_amount_from_vault = to_u64(result.destination_amount_swapped)?;
    let destination_amount_post_transfer_fees = sub_transfer_fee_for_schedule(
        destination_schedule,
        epoch,
        destination_amount_from_vault,
    )?;
    if destination_amount_post_transfer_fees < minimum_amount_out {
        return Err(SwapError::ExceededSlippage);
    }
    let (owner_fee_transfer, host_fee_transfer) = fee_transfers(
        fees,
        source_schedule,
        epoch,
        result.owner_fee,
        has_host_fees_account,
    )?;
    let total_fees = to_u64(result.total_fees)?;
    Ok(
        SwapTransfers {
            source_amount_to_vault,
            owner_fee_transfer,
            host_fee_transfer,
            destination_amount_from_vault,
            event: event::Swap {
                token_in_amount: source_amount_to_vault,
                token_out_amount: destination_amount_from_vault,
                total_fees,
            },
        },
    )
}

// ---------------------------------------------------------------------------
// laws of the instruction decisions

/// A swap that succeeds delivers to the user, once the destination mint's
/// transfer fee is taken from what the vault sends, at least
/// `minimum_amount_out`.
pub proof fn lemma_swap_meets_minimum_out(
    calculator: CurveCalculator,
    fees: Fees,
    source_schedule: Option<TransferFeeSchedule>,
    destination_schedule: Option<TransferFeeSchedule>,
    epoch: int,
    trade_direction: TradeDirection,
    amount_in: int,
    minimum_amount_out: int,
    source_vault_amount: int,
    destination_vault_amount: int,
    has_host_fees_account: bool,
)
    requires
        swap_transfers_of(
            calculator,
            fees,
            source_schedule,
            destination_schedule,
            epoch,
            trade_direction,
            amount_in,
            minimum_amount_out,
            source_vault_amount,
            destination_vault_amount,
            has_host_fees_account,
        ) is Ok,
    ensures
        ({
            let t = swap_transfers_of(
                calculator,
                fees,
                source_schedule,
                destination_schedule,
                epoch,
                trade_direction,
                amount_in,
                minimum_amount_out,
                source_vault_amount,
                destination_vault_amount,
                has_host_fees_account,
            )->Ok_0;
            let received = sub_transfer_fee_of(
                destination_schedule,
                epoch,
                t.destination_amount_from_vault as int,
            );
            &&& received is Ok
            &&& received->Ok_0 >= minimum_amount_out
            &&& t.event.token_out_amount == t.destination_amount_from_vault
            &&& t.event.token_in_amount == t.source_amount_to_vault
        }),
{
}

/// A successful deposit of both tokens never takes more of either token
/// than the user allows, takes some of each, and mints the pool tokens
/// asked for (the initial supply into an empty pool).
pub proof fn lemma_deposit_within_maximums(
    withdrawals_only: bool,
    calculator: CurveCalculator,
    pool_mint_supply: int,
    token_a_vault_amount: int,
    token_b_vault_amount: int,
    pool_token_amount: int,
    maximum_token_a_amount: int,
    maximum_token_b_amount: int,
)
    requires
        pool_token_amount >= 0,
        deposit_all_token_types_of(
            withdrawals_only,
            calculator,
            pool_mint_supply,
            token_a_vault_amount,
            token_b_vault_amount,
            pool_token_amount,
            maximum_token_a_amount,
            maximum_token_b_amount,
        ) is Ok,
    ensures
        ({
            let d = deposit_all_token_types_of(
                withdrawals_only,
                calculator,
                pool_mint_supply,
                token_a_vault_amount,
                token_b_vault_amount,
                pool_token_amount,
                maximum_token_a_amount,
                maximum_token_b_amount,
            )->Ok_0;
            &&& !withdrawals_only
            &&& !(calculator is Offset)
            &&& 0 < d.token_a_amount <= maximum_token_a_amount
            &&& 0 < d.token_b_amount <= maximum_token_b_amount
            &&& d.pool_token_amount == if pool_mint_supply > 0 {
                pool_token_amount
            } else {
                INITIAL_SWAP_POOL_AMOUNT as int
            }
        }),
{
}

/// Under the program owner's constraints, a pool is created only with an
/// allowed curve type, fees that meet the required ones, and trading mints
/// that carry no blocked extension; and only with a supply on both sides
/// (token A alone for an offset curve), valid fees and a valid curve.
pub proof fn lemma_initialize_pool_meets_constraints(
    curve_parameters: CurveUserParameters,
    token_a_decimals: u8,
    token_b_decimals: u8,
    fees: Fees,
    initial_supply: InitialSupply,
    constraints: Option<(Seq<CurveType>, Fees, Seq<u16>)>,
    token_a_mint_data: Seq<u8>,
    token_b_mint_data: Seq<u8>,
)
    requires
        initialize_pool_of(
            curve_parameters,
            token_a_decimals,
            token_b_decimals,
            fees,
            initial_supply,
            constraints,
            token_a_mint_data,
            token_b_mint_data,
        ) is Ok,
    ensures
        ({
            let curve = initialize_pool_of(
                curve_parameters,
                token_a_decimals,
                token_b_decimals,
                fees,
                initial_supply,
                constraints,
                token_a_mint_data,
                token_b_mint_data,
            )->Ok_0;
            &&& curve == curve_of_params(
                curve_params_of(curve_parameters, token_a_decimals, token_b_decimals),
            )
            &&& fees.is_valid()
            &&& calculator_is_valid(curve.calculator)
            &&& initial_supply.initial_supply_a > 0
            &&& !(curve.calculator is Offset) ==> initial_supply.initial_supply_b > 0
            &&& constraints is Some ==> {
                &&& constraints->Some_0.0.contains(curve.curve_type)
                &&& fees_meet(fees, constraints->Some_0.1)
                &&& extensions_check_of(token_a_mint_data, constraints->Some_0.2) is Ok
                &&& extensions_check_of(token_b_mint_data, constraints->Some_0.2) is Ok
            }
        }),
{
}

/// The owner's and host's fee transfers of a swap each deliver their whole
/// fee once the source mint's transfer fee is taken: where a host fee `h`
/// is paid, the host's transfer is `h` grossed up by the inverse transfer
/// fee, and the owner's transfer is the rest of the owner fee grossed up
/// likewise; with no owner fee, nothing is sent.
pub proof fn lemma_fee_transfers_gross_up(
    fees: Fees,
    schedule: Option<TransferFeeSchedule>,
    epoch: int,
    owner_fee: int,
    has_host_fees_account: bool,
)
    requires
        owner_fee >= 0,
        fee_transfers_of(fees, schedule, epoch, owner_fee, has_host_fees_account) is Ok,
    ensures
        ({
            let (owner_transfer, host_transfer) = fee_transfers_of(
                fees,
                schedule,
                epoch,
                owner_fee,
                has_host_fees_account,
            )->Ok_0;
            let host_fee = if owner_fee != 0 && has_host_fees_account {
                fees.host_fee_of(owner_fee)->Some_0
            } else {
                0
            };
            &&& owner_fee == 0 ==> owner_transfer == 0 && host_transfer == 0
            &&& owner_fee != 0 && has_host_fees_account ==> fees.host_fee_of(owner_fee) is Some
            &&& owner_fee != 0 && host_fee > 0 ==> add_inverse_transfer_fee_of(
                schedule,
                epoch,
                host_fee,
            ) == Ok::<u64, SwapError>(host_transfer)
            &&& owner_fee != 0 && host_fee == 0 ==> host_transfer == 0
            &&& owner_fee != 0 ==> 0 <= host_fee <= owner_fee && add_inverse_transfer_fee_of(
                schedule,
                epoch,
                owner_fee - host_fee,
            ) == Ok::<u64, SwapError>(owner_transfer)
        }),
{
    if owner_fee != 0 && has_host_fees_account && fees.host_fee_of(owner_fee) is Some {
        let n = fees.host_fee_numerator as int;
        let d = fees.host_fee_denominator as int;
        if n != 0 && d != 0 {
            assert(owner_fee * n / d >= 0) by (nonlinear_arith)
                requires
                    owner_fee >= 0,
                    n >= 0,
                    d > 0,
            ;
        }
    }
}

/// A single-token deposit pays into the side whose vault holds the source
/// mint, and never from the pool's own vault on that side.
pub proof fn lemma_deposit_single_inputs_sound(
    pool: &SwapPool,
    source_mint: Seq<u8>,
    source_user_ata: Seq<u8>,
    token_a_vault_mint: Seq<u8>,
    token_b_vault_mint: Seq<u8>,
)
    ensures
        ({
            let r = deposit_single_inputs_of(
                pool,
                source_mint,
                source_user_ata,
                token_a_vault_mint,
                token_b_vault_mint,
            );
            &&& r == Ok::<TradeDirection, SwapError>(TradeDirection::AtoB) ==> source_mint
                == token_a_vault_mint && source_user_ata != pool.token_a_vault@
            &&& r == Ok::<TradeDirection, SwapError>(TradeDirection::BtoA) ==> source_mint
                == token_b_vault_mint && source_mint != token_a_vault_mint && source_user_ata
                != pool.token_b_vault@
            &&& source_mint != token_a_vault_mint && source_mint != token_b_vault_mint ==> r
                is Err
        }),
{
}

} // verus!
