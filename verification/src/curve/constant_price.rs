//! Simple constant 1:1 swap curve, example of different swap curve implementations

use vstd::prelude::*;

use crate::curve::calculator::{
    RoundDirection, SwapWithoutFeesResult, TradeDirection, TradingTokenResult,
};
use crate::curve::fees::u128_max;
use crate::curve::math::{ceil_div_pair, checked_ceil_div, lemma_ceil_div_pair};
use crate::curve::precise::{
    opt_raw, precise_new, precise_one, precise_to_imprecise, precise_to_imprecise_of, Precise,
};
use crate::curve::wide::{checked_wide, pow128, wide_limit};
use crate::error::SwapError;

verus! {

/// ConstantPriceCurve struct implementing CurveCalculator
#[derive(Debug, Clone, Copy, PartialEq, Eq, Structural)]
pub struct ConstantPriceCurve {
    /// Amount of token A required to get 1 token B
    pub token_b_price: u64,
}

impl Default for ConstantPriceCurve {
    fn default() -> (r: ConstantPriceCurve)
        ensures
            r.token_b_price == 0,
    {
        ConstantPriceCurve { token_b_price: 0 }
    }
}

/// A constant price swap: B buys `price` A per token; A buys whole B tokens
/// only, the remainder staying with the user.
pub open spec fn constant_price_swap_of(
    token_b_price: int,
    source_amount: int,
    trade_direction: TradeDirection,
) -> Result<SwapWithoutFeesResult, SwapError> {
    let (source_swapped, destination_swapped) = match trade_direction {
        TradeDirection::BtoA => (source_amount, source_amount * token_b_price),
        TradeDirection::AtoB => if token_b_price == 0 {
            (0, 0)
        } else {
            (source_amount - source_amount % token_b_price, source_amount / token_b_price)
        },
    };
    if trade_direction == TradeDirection::BtoA && source_amount * token_b_price > u128_max() {
        Err(SwapError::CalculationFailure)
    } else if trade_direction == TradeDirection::AtoB && token_b_price == 0 {
        Err(SwapError::CalculationFailure)
    } else if source_swapped == 0 || destination_swapped == 0 {
        Err(SwapError::ZeroTradingTokens)
    } else {
        Ok(
            SwapWithoutFeesResult {
                source_amount_swapped: source_swapped as u128,
                destination_amount_swapped: destination_swapped as u128,
            },
        )
    }
}

/// The pool's value counted in token A, halved, as a whole number: the
/// halves are taken first where the token B value lies close to the top of
/// the `u128` range.
pub open spec fn constant_price_value_of(
    token_b_price: int,
    amount_a: int,
    amount_b: int,
) -> Option<int> {
    let b_value = amount_b * token_b_price;
    let u64_max = 0xffff_ffff_ffff_ffffint;
    if b_value > u128_max() {
        None
    } else if (if b_value > u64_max {
        b_value - u64_max
    } else {
        0
    }) > u128_max() - u64_max {
        if b_value / 2 + amount_a / 2 > u128_max() {
            None
        } else {
            Some(b_value / 2 + amount_a / 2)
        }
    } else if amount_a + b_value > u128_max() {
        None
    } else {
        Some((amount_a + b_value) / 2)
    }
}

/// The trading tokens a share of `pool_tokens` out of `pool_token_supply` is
/// worth on a constant price pool with total value `total_value` in token A.
pub open spec fn constant_price_trading_tokens_of(
    token_b_price: int,
    pool_tokens: int,
    pool_token_supply: int,
    total_value: int,
    round_direction: RoundDirection,
) -> Result<TradingTokenResult, SwapError> {
    let worth = pool_tokens * total_value;
    if worth > u128_max() {
        Err(SwapError::CalculationFailure)
    } else {
        match round_direction {
            RoundDirection::Floor => if pool_token_supply == 0 || token_b_price == 0 {
                Err(SwapError::CalculationFailure)
            } else {
                Ok(
                    TradingTokenResult {
                        token_a_amount: (worth / pool_token_supply) as u128,
                        token_b_amount: (worth / token_b_price / pool_token_supply) as u128,
                    },
                )
            },
            RoundDirection::Ceiling => match ceil_div_pair(worth, pool_token_supply) {
                None => Err(SwapError::CalculationFailure),
                Some((a, _)) => match ceil_div_pair(worth, token_b_price) {
                    None => Err(SwapError::CalculationFailure),
                    Some((worth_b, _)) => match ceil_div_pair(worth_b, pool_token_supply) {
                        None => Err(SwapError::CalculationFailure),
                        Some((b, _)) => Ok(
                            TradingTokenResult { token_a_amount: a as u128, token_b_amount: b as u128 },
                        ),
                    },
                },
            },
        }
    }
}

impl ConstantPriceCurve {
    /// Constant price swap: A buys B at `token_b_price` per token, and the
    /// reverse. Floors the source amount to a multiple of the price for A to B.
    pub fn swap_without_fees(
        &self,
        source_amount: u128,
        _swap_source_amount: u128,
        _swap_destination_amount: u128,
        trade_direction: TradeDirection,
    ) -> (r: Result<SwapWithoutFeesResult, SwapError>)
        ensures
            r == constant_price_swap_of(self.token_b_price as int, source_amount as int, trade_direction),
            r is Ok ==> r->Ok_0.source_amount_swapped <= source_amount,
    {
        let token_b_price = self.token_b_price as u128;
        let (source_amount_swapped, destination_amount_swapped) = match trade_direction {
            TradeDirection::BtoA => {
                let destination = match source_amount.checked_mul(token_b_price) {
                    Some(d) => d,
                    None => return Err(SwapError::CalculationFailure),
                };
                (source_amount, destination)
            },
            TradeDirection::AtoB => {
                if token_b_price == 0 {
                    return Err(SwapError::CalculationFailure);
                }
                let destination_amount_swapped = source_amount / token_b_price;
                let mut source_amount_swapped = source_amount;
                // if there is a remainder from buying token B, floor
                // token_a_amount to avoid taking too many tokens, but
                // don't recalculate the fees
                let remainder = source_amount_swapped % token_b_price;
                proof {
                    let a = source_amount as int;
                    let d = token_b_price as int;
                    crate::curve::math::lemma_div_le(a, d);
                    assert(a % d <= a) by (nonlinear_arith)
                        requires
                            a == d * (a / d) + a % d,
                            a / d >= 0,
                            d > 0,
                    ;
                }
                if remainder > 0 {
                    source_amount_swapped = source_amount - remainder;
                }
                (source_amount_swapped, destination_amount_swapped)
            },
        };
        if source_amount_swapped == 0 || destination_amount_swapped == 0 {
            return Err(SwapError::ZeroTradingTokens);
        }
        Ok(SwapWithoutFeesResult { source_amount_swapped, destination_amount_swapped })
    }

    /// The price of token B must be positive
    pub fn validate(&self) -> (r: Result<(), SwapError>)
        ensures
            r is Ok <==> self.token_b_price > 0,
            r is Err ==> r->Err_0 == SwapError::InvalidCurve,
    {
        if self.token_b_price == 0 {
            Err(SwapError::InvalidCurve)
        } else {
            Ok(())
        }
    }

    /// The value of the pool in token A, halved.
    pub fn normalized_value(&self, swap_token_a_amount: u128, swap_token_b_amount: u128) -> (r:
        Option<Precise>)
        ensures
            opt_raw(r) == match constant_price_value_of(
                self.token_b_price as int,
                swap_token_a_amount as int,
                swap_token_b_amount as int,
            ) {
                Some(v) => Some(v * precise_one()),
                None => None,
            },
    {
        let swap_token_b_value = swap_token_b_amount.checked_mul(self.token_b_price as u128)?;
        let u64_max = 0xffff_ffff_ffff_ffffu128;
        // special logic in case we're close to the limits, avoid overflowing u128
        let value = if swap_token_b_value.saturating_sub(u64_max) > (u128::MAX.saturating_sub(
            u64_max,
        )) {
            (swap_token_b_value / 2).checked_add(swap_token_a_amount / 2)?
        } else {
            swap_token_a_amount.checked_add(swap_token_b_value)? / 2
        };
        proof {
            assert(value * precise_one() < wide_limit()) by (nonlinear_arith)
                requires
                    0 <= value < pow128(),
            ;
        }
        precise_new(value)
    }

    /// The pool's value in token A, halved, as a whole number.
    fn total_value(&self, swap_token_a_amount: u128, swap_token_b_amount: u128) -> (r: Result<
        u128,
        SwapError,
    >)
        ensures
            r == match constant_price_value_of(
                self.token_b_price as int,
                swap_token_a_amount as int,
                swap_token_b_amount as int,
            ) {
                None => Err(SwapError::CalculationFailure),
                Some(v) => Ok(v as u128),
            },
    {
        let value = match self.normalized_value(swap_token_a_amount, swap_token_b_amount) {
            Some(v) => v,
            None => return Err(SwapError::CalculationFailure),
        };
        let ghost v = constant_price_value_of(
            self.token_b_price as int,
            swap_token_a_amount as int,
            swap_token_b_amount as int,
        )->Some_0;
        proof {
            lemma_whole_precise_round_trip(v);
        }
        match precise_to_imprecise(&value) {
            Some(t) => Ok(t),
            None => Err(SwapError::CalculationFailure),
        }
    }

    /// The trading tokens a share of the pool is worth, valuing the pool in
    /// token A and converting at the constant price.
    pub fn pool_tokens_to_trading_tokens(
        &self,
        pool_tokens: u128,
        pool_token_supply: u128,
        swap_token_a_amount: u128,
        swap_token_b_amount: u128,
        round_direction: RoundDirection,
    ) -> (r: Result<TradingTokenResult, SwapError>)
        ensures
            r == match constant_price_value_of(
                self.token_b_price as int,
                swap_token_a_amount as int,
                swap_token_b_amount as int,
            ) {
                None => Err(SwapError::CalculationFailure),
                Some(total_value) => constant_price_trading_tokens_of(
                    self.token_b_price as int,
                    pool_tokens as int,
                    pool_token_supply as int,
                    total_value,
                    round_direction,
                ),
            },
    {
        let total_value = self.total_value(swap_token_a_amount, swap_token_b_amount)?;
        trading_tokens_for_value(
            self.token_b_price as u128,
            pool_tokens,
            pool_token_supply,
            total_value,
            round_direction,
        )
    }
}

/// A whole number survives the trip into twelve-decimal fixed point and back.
proof fn lemma_whole_precise_round_trip(v: int)
    requires
        0 <= v < pow128(),
    ensures
        v * precise_one() + precise_one() / 2 < wide_limit(),
        (v * precise_one() + precise_one() / 2) / precise_one() == v,
{
    assert(v * precise_one() + precise_one() / 2 < wide_limit()) by (nonlinear_arith)
        requires
            0 <= v < pow128(),
    ;
    assert((v * precise_one() + precise_one() / 2) / precise_one() == v) by (nonlinear_arith)
        requires
            0 <= v,
    ;
}

/// The trading tokens a share of `pool_tokens` out of `pool_token_supply`
/// is worth, for a pool worth `total_value` in token A.
fn trading_tokens_for_value(
    token_b_price: u128,
    pool_tokens: u128,
    pool_token_supply: u128,
    total_value: u128,
    round_direction: RoundDirection,
) -> (r: Result<TradingTokenResult, SwapError>)
    ensures
        r == constant_price_trading_tokens_of(
            token_b_price as int,
            pool_tokens as int,
            pool_token_supply as int,
            total_value as int,
            round_direction,
        ),
{
    let worth = match pool_tokens.checked_mul(total_value) {
        Some(w) => w,
        None => return Err(SwapError::CalculationFailure),
    };
    match round_direction {
        RoundDirection::Floor => {
            if pool_token_supply == 0 || token_b_price == 0 {
                return Err(SwapError::CalculationFailure);
            }
            let token_a_amount = worth / pool_token_supply;
            let token_b_amount = worth / token_b_price / pool_token_supply;
            Ok(TradingTokenResult { token_a_amount, token_b_amount })
        },
        RoundDirection::Ceiling => {
            let (token_a_amount, _) = match checked_ceil_div(worth, pool_token_supply) {
                Some(p) => p,
                None => return Err(SwapError::CalculationFailure),
            };
            let (pool_value_as_token_b, _) = match checked_ceil_div(worth, token_b_price) {
                Some(p) => p,
                None => return Err(SwapError::CalculationFailure),
            };
            proof {
                lemma_ceil_div_pair(worth as int, token_b_price as int);
            }
            let (token_b_amount, _) = match checked_ceil_div(
                pool_value_as_token_b,
                pool_token_supply,
            ) {
                Some(p) => p,
                None => return Err(SwapError::CalculationFailure),
            };
            Ok(TradingTokenResult { token_a_amount, token_b_amount })
        },
    }
}

} // verus!
