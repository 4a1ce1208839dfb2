//! Invariant calculator with an extra offset

use vstd::prelude::*;

use crate::curve::calculator::{
    RoundDirection, SwapWithoutFeesResult, TradeDirection, TradingTokenResult,
};
use crate::curve::constant_product::{
    constant_product_normalized_of, constant_product_swap_of, normalized_value,
    precise_result_matches, swap,
};
use crate::curve::fees::u128_max;
use crate::curve::math::{pool_tokens_to_trading_tokens, trading_tokens_of};
use crate::curve::precise::Precise;
use crate::error::SwapError;

verus! {

/// Offset curve, like Uniswap, but the token B side has a faked offset
#[derive(Debug, Clone, Copy, PartialEq, Eq, Structural)]
pub struct OffsetCurve {
    /// Amount to offset the token B liquidity account
    pub token_b_offset: u64,
}

impl Default for OffsetCurve {
    fn default() -> (r: OffsetCurve)
        ensures
            r.token_b_offset == 0,
    {
        OffsetCurve { token_b_offset: 0 }
    }
}

/// The offset swap: a constant product swap with the offset added to the
/// token B side of the pool.
pub open spec fn offset_swap_of(
    token_b_offset: int,
    source_amount: int,
    swap_source_amount: int,
    swap_destination_amount: int,
    trade_direction: TradeDirection,
) -> Result<SwapWithoutFeesResult, SwapError> {
    match trade_direction {
        TradeDirection::AtoB => if swap_destination_amount + token_b_offset > u128_max() {
            Err(SwapError::CalculationFailure)
        } else {
            constant_product_swap_of(
                source_amount,
                swap_source_amount,
                swap_destination_amount + token_b_offset,
            )
        },
        TradeDirection::BtoA => if swap_source_amount + token_b_offset > u128_max() {
            Err(SwapError::CalculationFailure)
        } else {
            constant_product_swap_of(
                source_amount,
                swap_source_amount + token_b_offset,
                swap_destination_amount,
            )
        },
    }
}

/// Offset curve, uses ConstantProduct under the hood, but adds an offset to
/// one side on swap calculations
impl OffsetCurve {
    /// Constant product swap ensures token a * (token b + offset) = constant.
    /// It fails where adding the offset or the invariant overflows (as where
    /// the offset and token B are both close to u64::MAX), and with
    /// `ZeroTradingTokens` where the rounded trade gives or takes nothing.
    pub fn swap_without_fees(
        &self,
        source_amount: u128,
        swap_source_amount: u128,
        swap_destination_amount: u128,
        trade_direction: TradeDirection,
    ) -> (r: Result<SwapWithoutFeesResult, SwapError>)
        ensures
            r == offset_swap_of(
                self.token_b_offset as int,
                source_amount as int,
                swap_source_amount as int,
                swap_destination_amount as int,
                trade_direction,
            ),
            r is Ok ==> {
                let res = r->Ok_0;
                let (src, dst) = match trade_direction {
                    TradeDirection::AtoB => (
                        swap_source_amount as int,
                        swap_destination_amount + self.token_b_offset,
                    ),
                    TradeDirection::BtoA => (
                        swap_source_amount + self.token_b_offset,
                        swap_destination_amount as int,
                    ),
                };
                // the offset pool's product never decreases
                &&& 0 < res.source_amount_swapped <= source_amount
                &&& (src + res.source_amount_swapped) * (dst - res.destination_amount_swapped)
                    >= src * dst
            },
    {
        let token_b_offset = self.token_b_offset as u128;
        match trade_direction {
            TradeDirection::AtoB => {
                let destination = match swap_destination_amount.checked_add(token_b_offset) {
                    Some(d) => d,
                    None => return Err(SwapError::CalculationFailure),
                };
                swap(source_amount, swap_source_amount, destination)
            },
            TradeDirection::BtoA => {
                let source = match swap_source_amount.checked_add(token_b_offset) {
                    Some(s) => s,
                    None => return Err(SwapError::CalculationFailure),
                };
                swap(source_amount, source, swap_destination_amount)
            },
        }
    }

    /// The conversion for the offset curve needs to take into account the
    /// offset
    pub fn pool_tokens_to_trading_tokens(
        &self,
        pool_tokens: u128,
        pool_token_supply: u128,
        swap_token_a_amount: u128,
        swap_token_b_amount: u128,
        round_direction: RoundDirection,
    ) -> (r: Result<TradingTokenResult, SwapError>)
        ensures
            r == (if swap_token_b_amount + self.token_b_offset > u128_max() {
                Err(SwapError::CalculationFailure)
            } else {
                trading_tokens_of(
                    pool_tokens as int,
                    pool_token_supply as int,
                    swap_token_a_amount as int,
                    swap_token_b_amount + self.token_b_offset,
                    round_direction,
                )
            }),
    {
        let token_b_offset = self.token_b_offset as u128;
        let token_b = match swap_token_b_amount.checked_add(token_b_offset) {
            Some(b) => b,
            None => return Err(SwapError::CalculationFailure),
        };
        pool_tokens_to_trading_tokens(
            pool_tokens,
            pool_token_supply,
            swap_token_a_amount,
            token_b,
            round_direction,
        )
    }

    /// The offset must be positive
    pub fn validate(&self) -> (r: Result<(), SwapError>)
        ensures
            r is Ok <==> self.token_b_offset > 0,
            r is Err ==> r->Err_0 == SwapError::InvalidCurve,
    {
        if self.token_b_offset > 0 {
            Ok(())
        } else {
            Err(SwapError::InvalidCurve)
        }
    }

    /// Only token A needs an initial supply on an offset curve
    pub fn validate_supply(&self, token_a_amount: u64, _token_b_amount: u64) -> (r: Result<
        (),
        SwapError,
    >)
        ensures
            r is Ok <==> token_a_amount > 0,
            r is Err ==> r->Err_0 == SwapError::EmptySupply,
    {
        if token_a_amount > 0 {
            Ok(())
        } else {
            Err(SwapError::EmptySupply)
        }
    }

    /// Offset curves can cause arbitrage opportunities if outside users are
    /// allowed to deposit.  For example, in the offset curve, if there's swap
    /// with 1 million of token A against an offset of 2 million token B,
    /// someone else can deposit 1 million A and 2 million B for LP tokens.
    /// The pool creator can then use their LP tokens to steal the 2 million B,
    pub fn allows_deposits(&self) -> (r: bool)
        ensures
            !r,
    {
        false
    }

    /// The normalized value of the offset curve simply needs to add the offset to
    /// the token B side before calculating
    pub fn normalized_value(&self, swap_token_a_amount: u128, swap_token_b_amount: u128) -> (r:
        Result<Precise, SwapError>)
        ensures
            if swap_token_b_amount + self.token_b_offset > u128_max() {
                r == Err::<Precise, SwapError>(SwapError::CalculationFailure)
            } else {
                precise_result_matches(
                    r,
                    constant_product_normalized_of(
                        swap_token_a_amount as int,
                        swap_token_b_amount + self.token_b_offset,
                    ),
                )
            },
    {
        let token_b_offset = self.token_b_offset as u128;
        let token_b = match swap_token_b_amount.checked_add(token_b_offset) {
            Some(b) => b,
            None => return Err(SwapError::CalculationFailure),
        };
        normalized_value(swap_token_a_amount, token_b)
    }
}

} // verus!
