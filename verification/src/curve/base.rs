//! Base curve implementation

use vstd::prelude::*;

use crate::curve::calculator::{
    RoundDirection, SwapWithoutFeesResult, TradeDirection, TradingTokenResult,
    INITIAL_SWAP_POOL_AMOUNT,
};
use crate::curve::constant_price::{
    constant_price_swap_of, constant_price_trading_tokens_of, constant_price_value_of,
    ConstantPriceCurve,
};
use crate::curve::constant_product::{constant_product_swap_of, ConstantProductCurve};
use crate::curve::fees::{u128_max, Fees};
use crate::curve::math::trading_tokens_of;
use crate::curve::offset::{offset_swap_of, OffsetCurve};
use crate::curve::stable::{stable_amp_is_valid, stable_swap_of, StableCurve};
use crate::error::SwapError;

verus! {

/// Curve types supported by the hyperplane program.
#[derive(Debug, Clone, Copy, PartialEq, Eq, Structural)]
pub enum CurveType {
    /// Uniswap-style constant product curve, invariant = token_a_amount * token_b_amount
    ConstantProduct,
    /// Flat line, always providing 1:1 from one token to another
    ConstantPrice,
    /// Offset curve, like Uniswap, but the token B side has a faked offset
    Offset,
    /// Stable curve, like constant product with less slippage around a fixed price
    Stable,
}

/// The number a curve type is stored as.
pub open spec fn curve_type_number(curve_type: CurveType) -> u64 {
    match curve_type {
        CurveType::ConstantProduct => 1,
        CurveType::ConstantPrice => 2,
        CurveType::Offset => 3,
        CurveType::Stable => 4,
    }
}

impl CurveType {
    /// The number this curve type is stored as: 1 to 4.
    pub fn to_u64(&self) -> (r: u64)
        ensures
            r == curve_type_number(*self),
    {
        match self {
            CurveType::ConstantProduct => 1,
            CurveType::ConstantPrice => 2,
            CurveType::Offset => 3,
            CurveType::Stable => 4,
        }
    }

    /// The curve type stored as `value`, if any.
    pub fn from_u64(value: u64) -> (r: Option<CurveType>)
        ensures
            match r {
                Some(t) => curve_type_number(t) == value,
                None => !(1 <= value <= 4),
            },
    {
        if value == 1 {
            Some(CurveType::ConstantProduct)
        } else if value == 2 {
            Some(CurveType::ConstantPrice)
        } else if value == 3 {
            Some(CurveType::Offset)
        } else if value == 4 {
            Some(CurveType::Stable)
        } else {
            None
        }
    }
}

/// Encodes all results of swapping from a source token to a destination token
#[derive(Debug, Clone, Copy, PartialEq, Eq, Structural)]
pub struct SwapResult {
    /// New amount of source token in the pool vaults
    pub new_pool_source_amount: u128,
    /// New amount of destination token in the pool vaults
    pub new_pool_destination_amount: u128,
    /// Total amount of source tokens debited from user (includes: admin, trading, + host fees)
    pub total_source_amount_swapped: u128,
    /// Amount of source token swapped (excludes: admin, trading, + host fees)
    pub source_amount_swapped: u128,
    /// Amount of destination token swapped and sent to user
    pub destination_amount_swapped: u128,
    /// Amount of source token to transfer to the vault (trade_fee + source_amount_swapped)
    pub source_amount_to_vault: u128,
    /// Total fees paid in source tokens (includes: owner, trading, + host fees)
    pub total_fees: u128,
    /// Amount of source tokens going to pool holders
    pub trade_fee: u128,
    /// Amount of source tokens going to owner
    pub owner_fee: u128,
}

/// The calculator behind a swap curve, one variant per curve type.
#[derive(Debug, Clone, Copy, PartialEq, Eq, Structural)]
pub enum CurveCalculator {
    /// Constant product calculator
    ConstantProduct(ConstantProductCurve),
    /// Constant price calculator
    ConstantPrice(ConstantPriceCurve),
    /// Offset calculator
    Offset(OffsetCurve),
    /// Stable calculator
    Stable(StableCurve),
}

/// The parameters a curve is created from.
#[derive(Debug, Clone, Copy, PartialEq, Eq, Structural)]
pub enum CurveParameters {
    /// Constant product curve
    ConstantProduct,
    /// Constant price curve
    ConstantPrice {
        /// Amount of token A required to get 1 token B
        token_b_price: u64,
    },
    /// Offset curve
    Offset {
        /// Amount to offset the token B liquidity account
        token_b_offset: u64,
    },
    /// Stable curve
    Stable {
        /// Amplifier constant
        amp: u64,
        /// Decimals of token A
        token_a_decimals: u8,
        /// Decimals of token B
        token_b_decimals: u8,
    },
}

/// Concrete struct to wrap around the calculator which performs calculation.
#[derive(Debug, Clone, Copy, PartialEq, Eq, Structural)]
pub struct SwapCurve {
    /// The type of curve contained in the calculator, helpful for outside
    /// queries
    pub curve_type: CurveType,
    /// The actual calculator
    pub calculator: CurveCalculator,
}

/// The curve type that a calculator implements.
pub open spec fn calculator_type(calculator: CurveCalculator) -> CurveType {
    match calculator {
        CurveCalculator::ConstantProduct(_) => CurveType::ConstantProduct,
        CurveCalculator::ConstantPrice(_) => CurveType::ConstantPrice,
        CurveCalculator::Offset(_) => CurveType::Offset,
        CurveCalculator::Stable(_) => CurveType::Stable,
    }
}

/// The swap curve built from `params`.
pub open spec fn curve_of_params(params: CurveParameters) -> SwapCurve {
    match params {
        CurveParameters::ConstantProduct => SwapCurve {
            curve_type: CurveType::ConstantProduct,
            calculator: CurveCalculator::ConstantProduct(ConstantProductCurve {  }),
        },
        CurveParameters::ConstantPrice { token_b_price } => SwapCurve {
            curve_type: CurveType::ConstantPrice,
            calculator: CurveCalculator::ConstantPrice(ConstantPriceCurve { token_b_price }),
        },
        CurveParameters::Offset { token_b_offset } => SwapCurve {
            curve_type: CurveType::Offset,
            calculator: CurveCalculator::Offset(OffsetCurve { token_b_offset }),
        },
        CurveParameters::Stable { amp, token_a_decimals, token_b_decimals } => SwapCurve {
            curve_type: CurveType::Stable,
            calculator: CurveCalculator::Stable(
                StableCurve { amp, token_a_decimals, token_b_decimals },
            ),
        },
    }
}

/// What a calculator's swap without fees gives.
pub open spec fn swap_without_fees_of(
    calculator: CurveCalculator,
    source_amount: int,
    pool_source_amount: int,
    pool_destination_amount: int,
    trade_direction: TradeDirection,
) -> Result<SwapWithoutFeesResult, SwapError> {
    match calculator {
        CurveCalculator::ConstantProduct(_) => constant_product_swap_of(
            source_amount,
            pool_source_amount,
            pool_destination_amount,
        ),
        CurveCalculator::ConstantPrice(c) => constant_price_swap_of(
            c.token_b_price as int,
            source_amount,
            trade_direction,
        ),
        CurveCalculator::Offset(c) => offset_swap_of(
            c.token_b_offset as int,
            source_amount,
            pool_source_amount,
            pool_destination_amount,
            trade_direction,
        ),
        CurveCalculator::Stable(c) => match stable_swap_of(
            c.amp as int,
            source_amount,
            pool_source_amount,
            pool_destination_amount,
        ) {
            Some(res) => Ok(res),
            None => Err(SwapError::CalculationFailure),
        },
    }
}

/// What a calculator's conversion of pool tokens to trading tokens gives.
pub open spec fn calculator_trading_tokens_of(
    calculator: CurveCalculator,
    pool_tokens: int,
    pool_token_supply: int,
    amount_a: int,
    amount_b: int,
    round_direction: RoundDirection,
) -> Result<TradingTokenResult, SwapError> {
    match calculator {
        CurveCalculator::ConstantProduct(_) => trading_tokens_of(
            pool_tokens,
            pool_token_supply,
            amount_a,
            amount_b,
            round_direction,
        ),
        CurveCalculator::ConstantPrice(c) => match constant_price_value_of(
            c.token_b_price as int,
            amount_a,
            amount_b,
        ) {
            None => Err(SwapError::CalculationFailure),
            Some(total_value) => constant_price_trading_tokens_of(
                c.token_b_price as int,
                pool_tokens,
                pool_token_supply,
                total_value,
                round_direction,
            ),
        },
        CurveCalculator::Offset(c) => if amount_b + c.token_b_offset > u128_max() {
            Err(SwapError::CalculationFailure)
        } else {
            trading_tokens_of(
                pool_tokens,
                pool_token_supply,
                amount_a,
                amount_b + c.token_b_offset,
                round_direction,
            )
        },
        CurveCalculator::Stable(_) => trading_tokens_of(
            pool_tokens,
            pool_token_supply,
            amount_a,
            amount_b,
            round_direction,
        ),
    }
}

/// Whether a calculator's parameters are acceptable.
pub open spec fn calculator_is_valid(calculator: CurveCalculator) -> bool {
    match calculator {
        CurveCalculator::ConstantProduct(_) => true,
        CurveCalculator::ConstantPrice(c) => c.token_b_price > 0,
        CurveCalculator::Offset(c) => c.token_b_offset > 0,
        CurveCalculator::Stable(c) => stable_amp_is_valid(c.amp as int),
    }
}

/// What a full swap, fees included, gives on `calculator`.
pub open spec fn swap_of(
    calculator: CurveCalculator,
    source_amount: int,
    pool_source_amount: int,
    pool_destination_amount: int,
    trade_direction: TradeDirection,
    fees: Fees,
) -> Result<SwapResult, SwapError> {
    match fees.trading_fee_of(source_amount) {
        None => Err(SwapError::CalculationFailure),
        Some(trade_fee) => match fees.owner_trading_fee_of(source_amount) {
            None => Err(SwapError::CalculationFailure),
            Some(owner_fee) => {
                let total_fees = trade_fee + owner_fee;
                if total_fees > u128_max() || source_amount < total_fees {
                    Err(SwapError::CalculationFailure)
                } else {
                    match swap_without_fees_of(
                        calculator,
                        source_amount - total_fees,
                        pool_source_amount,
                        pool_destination_amount,
                        trade_direction,
                    ) {
                        Err(e) => Err(e),
                        Ok(res) => {
                            let swapped = res.source_amount_swapped as int;
                            let out = res.destination_amount_swapped as int;
                            if swapped + trade_fee > u128_max() || swapped + total_fees
                                > u128_max() || pool_source_amount + swapped + trade_fee
                                > u128_max() || pool_destination_amount < out {
                                Err(SwapError::CalculationFailure)
                            } else {
                                Ok(
                                    SwapResult {
                                        new_pool_source_amount: (pool_source_amount + swapped
                                            + trade_fee) as u128,
                                        new_pool_destination_amount: (pool_destination_amount
                                            - out) as u128,
                                        total_source_amount_swapped: (swapped
                                            + total_fees) as u128,
                                        source_amount_swapped: swapped as u128,
                                        destination_amount_swapped: out as u128,
                                        source_amount_to_vault: (swapped + trade_fee) as u128,
                                        total_fees: total_fees as u128,
                                        trade_fee: trade_fee as u128,
                                        owner_fee: owner_fee as u128,
                                    },
                                )
                            }
                        },
                    }
                }
            },
        },
    }
}

impl CurveCalculator {
    /// Calculate how much destination token will be provided given an amount
    /// of source token.
    pub fn swap_without_fees(
        &self,
        source_amount: u128,
        pool_source_amount: u128,
        pool_destination_amount: u128,
        trade_direction: TradeDirection,
    ) -> (r: Result<SwapWithoutFeesResult, SwapError>)
        ensures
            r == swap_without_fees_of(
                *self,
                source_amount as int,
                pool_source_amount as int,
                pool_destination_amount as int,
                trade_direction,
            ),
            r is Ok ==> r->Ok_0.source_amount_swapped <= source_amount,
    {
        match self {
            CurveCalculator::ConstantProduct(c) => c.swap_without_fees(
                source_amount,
                pool_source_amount,
                pool_destination_amount,
                trade_direction,
            ),
            CurveCalculator::ConstantPrice(c) => c.swap_without_fees(
                source_amount,
                pool_source_amount,
                pool_destination_amount,
                trade_direction,
            ),
            CurveCalculator::Offset(c) => c.swap_without_fees(
                source_amount,
                pool_source_amount,
                pool_destination_amount,
                trade_direction,
            ),
            CurveCalculator::Stable(c) => match c.swap_without_fees(
                source_amount,
                pool_source_amount,
                pool_destination_amount,
                trade_direction,
            ) {
                Some(res) => Ok(res),
                None => Err(SwapError::CalculationFailure),
            },
        }
    }

    /// The pool token supply minted when a pool is created.
    pub fn new_pool_supply(&self) -> (r: u128)
        ensures
            r == INITIAL_SWAP_POOL_AMOUNT,
    {
        INITIAL_SWAP_POOL_AMOUNT
    }

    /// Get the amount of trading tokens for the given amount of pool tokens,
    /// provided the total trading tokens and supply of pool tokens.
    pub fn pool_tokens_to_trading_tokens(
        &self,
        pool_tokens: u128,
        pool_token_supply: u128,
        swap_token_a_amount: u128,
        swap_token_b_amount: u128,
        round_direction: RoundDirection,
    ) -> (r: Result<TradingTokenResult, SwapError>)
        ensures
            r == calculator_trading_tokens_of(
                *self,
                pool_tokens as int,
                pool_token_supply as int,
                swap_token_a_amount as int,
                swap_token_b_amount as int,
                round_direction,
            ),
    {
        match self {
            CurveCalculator::ConstantProduct(c) => c.pool_tokens_to_trading_tokens(
                pool_tokens,
                pool_token_supply,
                swap_token_a_amount,
                swap_token_b_amount,
                round_direction,
            ),
            CurveCalculator::ConstantPrice(c) => c.pool_tokens_to_trading_tokens(
                pool_tokens,
                pool_token_supply,
                swap_token_a_amount,
                swap_token_b_amount,
                round_direction,
            ),
            CurveCalculator::Offset(c) => c.pool_tokens_to_trading_tokens(
                pool_tokens,
                pool_token_supply,
                swap_token_a_amount,
                swap_token_b_amount,
                round_direction,
            ),
            CurveCalculator::Stable(c) => match c.pool_tokens_to_trading_tokens(
                pool_tokens,
                pool_token_supply,
                swap_token_a_amount,
                swap_token_b_amount,
                round_direction,
            ) {
                Some(t) => Ok(t),
                None => Err(SwapError::CalculationFailure),
            },
        }
    }

    /// Validate the calculator's parameters.
    pub fn validate(&self) -> (r: Result<(), SwapError>)
        ensures
            r is Ok <==> calculator_is_valid(*self),
            r is Err ==> r->Err_0 == SwapError::InvalidCurve,
    {
        match self {
            CurveCalculator::ConstantProduct(c) => c.validate(),
            CurveCalculator::ConstantPrice(c) => c.validate(),
            CurveCalculator::Offset(c) => c.validate(),
            CurveCalculator::Stable(c) => c.validate(),
        }
    }

    /// Validate the initial supply of a new pool: both sides must be funded,
    /// except on an offset curve, where token A alone must be.
    pub fn validate_supply(&self, token_a_amount: u64, token_b_amount: u64) -> (r: Result<
        (),
        SwapError,
    >)
        ensures
            r is Ok <==> match *self {
                CurveCalculator::Offset(_) => token_a_amount > 0,
                _ => token_a_amount > 0 && token_b_amount > 0,
            },
            r is Err ==> r->Err_0 == SwapError::EmptySupply,
    {
        match self {
            CurveCalculator::Offset(c) => c.validate_supply(token_a_amount, token_b_amount),
            _ => {
                if token_a_amount == 0 {
                    return Err(SwapError::EmptySupply);
                }
                if token_b_amount == 0 {
                    return Err(SwapError::EmptySupply);
                }
                Ok(())
            },
        }
    }

    /// Whether the curve accepts deposits: all but the offset curve do.
    pub fn allows_deposits(&self) -> (r: bool)
        ensures
            r == !(*self is Offset),
    {
        match self {
            CurveCalculator::Offset(c) => c.allows_deposits(),
            _ => true,
        }
    }
}

impl SwapCurve {
    /// Build a swap curve from its parameters.
    pub fn new_from_params(curve_params: CurveParameters) -> (r: Result<Self, SwapError>)
        ensures
            r == Ok::<SwapCurve, SwapError>(curve_of_params(curve_params)),
            r is Ok ==> calculator_type(r->Ok_0.calculator) == r->Ok_0.curve_type,
    {
        let curve = match curve_params {
            CurveParameters::ConstantProduct => SwapCurve {
                curve_type: CurveType::ConstantProduct,
                calculator: CurveCalculator::ConstantProduct(ConstantProductCurve {  }),
            },
            CurveParameters::ConstantPrice { token_b_price } => SwapCurve {
                curve_type: CurveType::ConstantPrice,
                calculator: CurveCalculator::ConstantPrice(ConstantPriceCurve { token_b_price }),
            },
            CurveParameters::Offset { token_b_offset } => SwapCurve {
                curve_type: CurveType::Offset,
                calculator: CurveCalculator::Offset(OffsetCurve { token_b_offset }),
            },
            CurveParameters::Stable { amp, token_a_decimals, token_b_decimals } => SwapCurve {
                curve_type: CurveType::Stable,
                calculator: CurveCalculator::Stable(
                    StableCurve { amp, token_a_decimals, token_b_decimals },
                ),
            },
        };
        Ok(curve)
    }

    /// Subtract fees and calculate how much destination token will be provided
    /// given an amount of source token.
    pub fn swap(
        &self,
        source_amount: u128,
        pool_source_amount: u128,
        pool_destination_amount: u128,
        trade_direction: TradeDirection,
        fees: &Fees,
    ) -> (r: Result<SwapResult, SwapError>)
        ensures
            r == swap_of(
                self.calculator,
                source_amount as int,
                pool_source_amount as int,
                pool_destination_amount as int,
                trade_direction,
                *fees,
            ),
            r is Ok ==> {
                let res = r->Ok_0;
                // every source token debited is either swapped or a fee, and
                // the user is never debited more than offered
                &&& res.total_fees == res.trade_fee + res.owner_fee
                &&& res.total_source_amount_swapped == res.source_amount_swapped + res.total_fees
                &&& res.total_source_amount_swapped <= source_amount
                &&& res.source_amount_to_vault == res.source_amount_swapped + res.trade_fee
                &&& res.new_pool_source_amount == pool_source_amount + res.source_amount_to_vault
                &&& res.new_pool_destination_amount + res.destination_amount_swapped
                    == pool_destination_amount
            },
    {
        // debit the fee to calculate the amount swapped
        let trade_fee = fees.trading_fee(source_amount)?;
        let owner_fee = fees.owner_trading_fee(source_amount)?;
        let total_fees = match trade_fee.checked_add(owner_fee) {
            Some(t) => t,
            None => return Err(SwapError::CalculationFailure),
        };
        let source_amount_less_fees = match source_amount.checked_sub(total_fees) {
            Some(s) => s,
            None => return Err(SwapError::CalculationFailure),
        };
        let SwapWithoutFeesResult { source_amount_swapped, destination_amount_swapped } =
            self.calculator.swap_without_fees(
            source_amount_less_fees,
            pool_source_amount,
            pool_destination_amount,
            trade_direction,
        )?;
        let source_amount_to_vault = match source_amount_swapped.checked_add(trade_fee) {
            Some(v) => v,
            None => return Err(SwapError::CalculationFailure),
        };
        let total_source_amount_swapped = match source_amount_swapped.checked_add(total_fees) {
            Some(v) => v,
            None => return Err(SwapError::CalculationFailure),
        };
        let new_pool_source_amount = match pool_source_amount.checked_add(source_amount_to_vault) {
            Some(v) => v,
            None => return Err(SwapError::CalculationFailure),
        };
        let new_pool_destination_amount = match pool_destination_amount.checked_sub(
            destination_amount_swapped,
        ) {
            Some(v) => v,
            None => return Err(SwapError::CalculationFailure),
        };
        Ok(
            SwapResult {
                new_pool_source_amount,
                new_pool_destination_amount,
                total_source_amount_swapped,
                source_amount_swapped,
                destination_amount_swapped,
                source_amount_to_vault,
                total_fees,
                trade_fee,
                owner_fee,
            },
        )
    }
}

} // verus!
