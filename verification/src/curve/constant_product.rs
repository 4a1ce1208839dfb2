//! The constant product product calculator.

use vstd::prelude::*;

use crate::curve::calculator::{
    RoundDirection, SwapWithoutFeesResult, TradeDirection, TradingTokenResult,
};
use crate::curve::fees::u128_max;
use crate::curve::math::{
    ceil_div_pair, checked_ceil_div, lemma_ceil_div_pair, pool_tokens_to_trading_tokens,
    trading_tokens_of,
};
use crate::curve::precise::{
    opt_raw, precise_checked_mul, precise_mul_of, precise_new, precise_one, precise_sqrt,
    precise_sqrt_of, Precise,
};
use crate::curve::wide::{pow128, wide_limit};
use crate::error::SwapError;

verus! {

/// The result of a constant product swap of `source_amount` into a pool
/// holding `pool_source_amount` and `pool_destination_amount`.
///
/// The new destination amount is the product divided by the new source
/// amount, rounded up; the source amount actually taken is then recomputed as
/// the smallest one that yields that destination amount.
pub open spec fn constant_product_swap_of(
    source_amount: int,
    pool_source_amount: int,
    pool_destination_amount: int,
) -> Result<SwapWithoutFeesResult, SwapError> {
    let product = pool_source_amount * pool_destination_amount;
    let new_pool_source_amount = pool_source_amount + source_amount;
    if product > u128_max() || new_pool_source_amount > u128_max() {
        Err(SwapError::CalculationFailure)
    } else {
        match ceil_div_pair(product, new_pool_source_amount) {
            None => Err(SwapError::CalculationFailure),
            Some((new_destination, new_source)) => {
                if new_source < pool_source_amount || new_destination > pool_destination_amount {
                    Err(SwapError::CalculationFailure)
                } else if new_source - pool_source_amount > 0 && pool_destination_amount
                    - new_destination > 0 {
                    Ok(
                        SwapWithoutFeesResult {
                            source_amount_swapped: (new_source - pool_source_amount) as u128,
                            destination_amount_swapped: (pool_destination_amount
                                - new_destination) as u128,
                        },
                    )
                } else {
                    Err(SwapError::ZeroTradingTokens)
                }
            },
        }
    }
}

/// The constant product swap calculation, factored out of its class for reuse.
///
/// It fails with `CalculationFailure` where the product of the pool amounts
/// or the new source amount overflows, and with
/// `ZeroTradingTokens` where the rounded trade gives or takes nothing, as a
/// tiny input against a large pool does.
pub fn swap(source_amount: u128, pool_source_amount: u128, pool_destination_amount: u128) -> (r:
    Result<SwapWithoutFeesResult, SwapError>)
    ensures
        r == constant_product_swap_of(
            source_amount as int,
            pool_source_amount as int,
            pool_destination_amount as int,
        ),
        r is Ok ==> {
            let res = r->Ok_0;
            // the swap never takes more than offered and never lowers the product
            &&& 0 < res.source_amount_swapped <= source_amount
            &&& 0 < res.destination_amount_swapped <= pool_destination_amount
            &&& (pool_source_amount + res.source_amount_swapped) * (pool_destination_amount
                - res.destination_amount_swapped) >= pool_source_amount * pool_destination_amount
        },
{
    let product = match pool_source_amount.checked_mul(pool_destination_amount) {
        Some(i) => i,
        None => return Err(SwapError::CalculationFailure),
    };
    let new_pool_source_amount = match pool_source_amount.checked_add(source_amount) {
        Some(n) => n,
        None => return Err(SwapError::CalculationFailure),
    };
    let (new_pool_destination_amount, new_pool_source_amount) = match checked_ceil_div(
        product,
        new_pool_source_amount,
    ) {
        Some(pair) => pair,
        None => return Err(SwapError::CalculationFailure),
    };
    proof {
        lemma_ceil_div_pair(product as int, (pool_source_amount + source_amount) as int);
    }
    let source_amount_swapped = match new_pool_source_amount.checked_sub(pool_source_amount) {
        Some(s) => s,
        None => return Err(SwapError::CalculationFailure),
    };
    let destination_amount_swapped = match pool_destination_amount.checked_sub(
        new_pool_destination_amount,
    ) {
        Some(d) => d,
        None => return Err(SwapError::CalculationFailure),
    };
    if !(source_amount_swapped > 0 && destination_amount_swapped > 0) {
        return Err(SwapError::ZeroTradingTokens);
    }
    proof {
        let q = new_pool_destination_amount as int;
        let rr = new_pool_source_amount as int;
        assert(rr * q >= product) by (nonlinear_arith)
            requires
                q * rr >= product,
        ;
    }
    Ok(SwapWithoutFeesResult { source_amount_swapped, destination_amount_swapped })
}

/// A constant product swap never lowers the product of the pool's amounts,
/// and never gives out more than the pool holds.
pub proof fn lemma_constant_product_swap_keeps_product(
    source_amount: int,
    pool_source_amount: int,
    pool_destination_amount: int,
)
    requires
        0 <= source_amount,
        0 <= pool_source_amount,
        0 <= pool_destination_amount,
        constant_product_swap_of(source_amount, pool_source_amount, pool_destination_amount)
            is Ok,
    ensures
        ({
            let res = constant_product_swap_of(
                source_amount,
                pool_source_amount,
                pool_destination_amount,
            )->Ok_0;
            &&& res.destination_amount_swapped <= pool_destination_amount <= u128_max()
            &&& (pool_source_amount + res.source_amount_swapped) * (pool_destination_amount
                - res.destination_amount_swapped) >= pool_source_amount * pool_destination_amount
        }),
{
    let product = pool_source_amount * pool_destination_amount;
    assert(product >= 0) by (nonlinear_arith)
        requires
            0 <= pool_source_amount,
            0 <= pool_destination_amount,
            product == pool_source_amount * pool_destination_amount,
    ;
    let new_source = pool_source_amount + source_amount;
    if new_source == 0 {
        assert(ceil_div_pair(product, new_source) is None);
        return;
    }
    lemma_ceil_div_pair(product, new_source);
    let (q, rr) = ceil_div_pair(product, new_source)->Some_0;
    assert(rr * q >= product) by (nonlinear_arith)
        requires
            q * rr >= product,
    ;
    let res = constant_product_swap_of(source_amount, pool_source_amount, pool_destination_amount)->Ok_0;
    assert(rr <= new_source <= u128_max());
    assert(product > 0);
    assert(pool_destination_amount <= product) by (nonlinear_arith)
        requires
            product == pool_source_amount * pool_destination_amount,
            product > 0,
            pool_source_amount >= 0,
            pool_destination_amount >= 0,
    ;
    assert(res.source_amount_swapped == rr - pool_source_amount);
    assert(res.destination_amount_swapped == pool_destination_amount - q);
}

/// The normalized value of a constant product pool: the square root of the
/// product of its amounts, as `PreciseNumber` computes it.
pub open spec fn constant_product_normalized_of(amount_a: int, amount_b: int) -> Option<int> {
    match precise_mul_of(amount_a * precise_one(), amount_b * precise_one()) {
        None => None,
        Some(p) => precise_sqrt_of(p),
    }
}

/// Reads an optional raw value as the precise number the library returns.
pub open spec fn precise_result_matches(r: Result<Precise, SwapError>, v: Option<int>) -> bool {
    match v {
        Some(x) => r is Ok && r->Ok_0.raw() == x,
        None => r == Err::<Precise, SwapError>(SwapError::CalculationFailure),
    }
}

/// Calculates the total normalized value of the curve given the liquidity
/// parameters.
///
/// The constant product implementation for this function gives the square root of
/// the Uniswap invariant.
pub fn normalized_value(swap_token_a_amount: u128, swap_token_b_amount: u128) -> (r: Result<
    Precise,
    SwapError,
>)
    ensures
        precise_result_matches(
            r,
            constant_product_normalized_of(swap_token_a_amount as int, swap_token_b_amount as int),
        ),
{
    proof {
        assert(swap_token_a_amount * precise_one() < wide_limit()) by (nonlinear_arith)
            requires
                0 <= swap_token_a_amount < pow128(),
        ;
        assert(swap_token_b_amount * precise_one() < wide_limit()) by (nonlinear_arith)
            requires
                0 <= swap_token_b_amount < pow128(),
        ;
    }
    let a = match precise_new(swap_token_a_amount) {
        Some(v) => v,
        None => return Err(SwapError::CalculationFailure),
    };
    let b = match precise_new(swap_token_b_amount) {
        Some(v) => v,
        None => return Err(SwapError::CalculationFailure),
    };
    let product = match precise_checked_mul(&a, &b) {
        Some(v) => v,
        None => return Err(SwapError::CalculationFailure),
    };
    match precise_sqrt(&product) {
        Some(v) => Ok(v),
        None => Err(SwapError::CalculationFailure),
    }
}

/// The constant product curve: `token_a_amount * token_b_amount` stays constant.
#[derive(Debug, Clone, Copy, PartialEq, Eq, Structural)]
pub struct ConstantProductCurve {}

impl Default for ConstantProductCurve {
    fn default() -> (r: ConstantProductCurve) {
        ConstantProductCurve {  }
    }
}

impl ConstantProductCurve {
    /// Constant product swap ensures x * y = constant
    pub fn swap_without_fees(
        &self,
        source_amount: u128,
        pool_source_amount: u128,
        pool_destination_amount: u128,
        _trade_direction: TradeDirection,
    ) -> (r: Result<SwapWithoutFeesResult, SwapError>)
        ensures
            r == constant_product_swap_of(
                source_amount as int,
                pool_source_amount as int,
                pool_destination_amount as int,
            ),
            r is Ok ==> {
                let res = r->Ok_0;
                &&& 0 < res.source_amount_swapped <= source_amount
                &&& (pool_source_amount + res.source_amount_swapped) * (pool_destination_amount
                    - res.destination_amount_swapped) >= pool_source_amount
                    * pool_destination_amount
            },
    {
        swap(source_amount, pool_source_amount, pool_destination_amount)
    }

    /// The constant product implementation is a simple ratio calculation for how many
    /// trading tokens correspond to a certain number of pool tokens
    pub fn pool_tokens_to_trading_tokens(
        &self,
        pool_tokens: u128,
        pool_token_supply: u128,
        swap_token_a_amount: u128,
        swap_token_b_amount: u128,
        round_direction: RoundDirection,
    ) -> (r: Result<TradingTokenResult, SwapError>)
        ensures
            r == trading_tokens_of(
                pool_tokens as int,
                pool_token_supply as int,
                swap_token_a_amount as int,
                swap_token_b_amount as int,
                round_direction,
            ),
    {
        pool_tokens_to_trading_tokens(
            pool_tokens,
            pool_token_supply,
            swap_token_a_amount,
            swap_token_b_amount,
            round_direction,
        )
    }

    /// Any constant product curve is valid
    pub fn validate(&self) -> (r: Result<(), SwapError>)
        ensures
            r is Ok,
    {
        Ok(())
    }

    /// The square root of the product of the pool amounts
    pub fn normalized_value(&self, swap_token_a_amount: u128, swap_token_b_amount: u128) -> (r:
        Result<Precise, SwapError>)
        ensures
            precise_result_matches(
                r,
                constant_product_normalized_of(
                    swap_token_a_amount as int,
                    swap_token_b_amount as int,
                ),
            ),
    {
        normalized_value(swap_token_a_amount, swap_token_b_amount)
    }
}

} // verus!
