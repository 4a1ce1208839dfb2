//! Integer helpers shared by the curves

use vstd::prelude::*;

use crate::curve::calculator::{RoundDirection, TradingTokenResult};
use crate::curve::fees::u128_max;
use crate::error::SwapError;

verus! {

/// The pair computed by a "fair" ceiling division of `dividend` by `divisor`:
/// the quotient `q`, rounded up, and the smallest divisor that, rounded up,
/// still gives `q`. `None` for a zero divisor and for a quotient that floors
/// to zero.
pub open spec fn ceil_div_pair(dividend: int, divisor: int) -> Option<(int, int)> {
    if divisor == 0 || dividend / divisor == 0 {
        None
    } else if dividend % divisor == 0 {
        Some((dividend / divisor, divisor))
    } else {
        let q = dividend / divisor + 1;
        Some((q, dividend / q + (if dividend % q > 0 { 1int } else { 0int })))
    }
}

/// `spl_math`'s `CheckedCeilDiv::checked_ceil_div` on `u128`.
///
/// Trusted: the contract states what the crate's source computes: the
/// floored quotient (failing for a zero divisor or a zero quotient), bumped
/// by one where a remainder is left, together with the divisor recomputed
/// from that quotient and bumped likewise.
#[verifier::external_body]
pub(crate) fn checked_ceil_div(dividend: u128, divisor: u128) -> (r: Option<(u128, u128)>)
    ensures
        match ceil_div_pair(dividend as int, divisor as int) {
            Some((q, d)) => r == Some((q as u128, d as u128)),
            None => r is None,
        },
{
    spl_math::checked_ceil_div::CheckedCeilDiv::checked_ceil_div(&dividend, divisor)
}

/// What `pool_tokens_to_trading_tokens` gives for a share of `pool_tokens` out
/// of `pool_token_supply`, on a pool holding `amount_a` and `amount_b`.
pub open spec fn trading_tokens_of(
    pool_tokens: int,
    pool_token_supply: int,
    amount_a: int,
    amount_b: int,
    round_direction: RoundDirection,
) -> Result<TradingTokenResult, SwapError> {
    if pool_tokens * amount_a > u128_max() || pool_tokens * amount_b > u128_max()
        || pool_token_supply == 0 {
        Err(SwapError::CalculationFailure)
    } else {
        let a = pool_tokens * amount_a / pool_token_supply;
        let b = pool_tokens * amount_b / pool_token_supply;
        match round_direction {
            RoundDirection::Floor => Ok(
                TradingTokenResult { token_a_amount: a as u128, token_b_amount: b as u128 },
            ),
            RoundDirection::Ceiling => {
                let a2 = if pool_tokens * amount_a % pool_token_supply > 0 && a > 0 {
                    a + 1
                } else {
                    a
                };
                let b2 = if pool_tokens * amount_b % pool_token_supply > 0 && b > 0 {
                    b + 1
                } else {
                    b
                };
                Ok(TradingTokenResult { token_a_amount: a2 as u128, token_b_amount: b2 as u128 })
            },
        }
    }
}

/// Floor division by a positive divisor is at most the dividend.
pub proof fn lemma_div_le(a: int, d: int)
    requires
        a >= 0,
        d > 0,
    ensures
        0 <= a / d <= a,
        0 <= a % d < d,
        a == d * (a / d) + a % d,
{
    assert(0 <= a / d <= a) by (nonlinear_arith)
        requires
            a >= 0,
            d > 0,
    ;
    assert(0 <= a % d < d && a == d * (a / d) + a % d) by (nonlinear_arith)
        requires
            d > 0,
    ;
}

/// Get the amount of trading tokens for the given amount of pool tokens,
/// provided the total trading tokens and supply of pool tokens.
///
/// This implementation is a simple ratio calculation for how many
/// trading tokens correspond to a certain number of pool tokens
pub fn pool_tokens_to_trading_tokens(
    pool_tokens: u128,
    pool_token_supply: u128,
    pool_token_a_amount: u128,
    pool_token_b_amount: u128,
    round_direction: RoundDirection,
) -> (r: Result<TradingTokenResult, SwapError>)
    ensures
        r == trading_tokens_of(
            pool_tokens as int,
            pool_token_supply as int,
            pool_token_a_amount as int,
            pool_token_b_amount as int,
            round_direction,
        ),
{
    let product_a = match pool_tokens.checked_mul(pool_token_a_amount) {
        Some(p) => p,
        None => return Err(SwapError::CalculationFailure),
    };
    if pool_token_supply == 0 {
        return Err(SwapError::CalculationFailure);
    }
    let mut token_a_amount = product_a / pool_token_supply;
    let product_b = match pool_tokens.checked_mul(pool_token_b_amount) {
        Some(p) => p,
        None => return Err(SwapError::CalculationFailure),
    };
    let mut token_b_amount = product_b / pool_token_supply;
    proof {
        lemma_div_le(product_a as int, pool_token_supply as int);
        lemma_div_le(product_b as int, pool_token_supply as int);
    }
    match round_direction {
        RoundDirection::Floor => {},
        RoundDirection::Ceiling => {
            let token_a_remainder = product_a % pool_token_supply;
            // Also check for 0 token A and B amount to avoid taking too much
            // for tiny amounts of pool tokens.  For example, if someone asks
            // for 1 pool token, which is worth 0.01 token A, we avoid the
            // ceiling of taking 1 token A and instead return 0, for it to be
            // rejected later in processing.
            if token_a_remainder > 0 && token_a_amount > 0 {
                proof {
                    lemma_ceiling_room(product_a as int, pool_token_supply as int);
                }
                token_a_amount = token_a_amount + 1;
            }
            let token_b_remainder = product_b % pool_token_supply;
            if token_b_remainder > 0 && token_b_amount > 0 {
                proof {
                    lemma_ceiling_room(product_b as int, pool_token_supply as int);
                }
                token_b_amount = token_b_amount + 1;
            }
        },
    }
    Ok(TradingTokenResult { token_a_amount, token_b_amount })
}

/// A floored quotient that leaves a remainder is below the dividend, so one
/// more still fits where the dividend does.
pub proof fn lemma_ceiling_room(a: int, d: int)
    requires
        a >= 0,
        d > 0,
        a % d > 0,
    ensures
        a / d + 1 <= a,
{
    lemma_div_le(a, d);
    assert(d >= 2);
    assert(a / d + 1 <= a) by (nonlinear_arith)
        requires
            a >= 0,
            d >= 2,
            a == d * (a / d) + a % d,
            0 < a % d < d,
            a / d >= 0,
    ;
}

} // verus!

verus! {

/// The pair from a fair ceiling division covers the dividend, and neither
/// member exceeds what the plain division suggests.
pub proof fn lemma_ceil_div_pair(a: int, b: int)
    requires
        a >= 0,
        b > 0,
        ceil_div_pair(a, b) is Some,
    ensures
        ({
            let (q, r) = ceil_div_pair(a, b)->Some_0;
            &&& q * r >= a
            &&& 1 <= r <= b
            &&& 1 <= q <= a
            &&& q * b >= a
        }),
{
    lemma_div_le(a, b);
    let q0 = a / b;
    assert(q0 >= 1);
    if a % b == 0 {
        assert(q0 * b == a) by (nonlinear_arith)
            requires
                a == b * q0 + a % b,
                a % b == 0,
        ;
    } else {
        let q = q0 + 1;
        assert(q * b > a) by (nonlinear_arith)
            requires
                a == b * q0 + a % b,
                a % b < b,
                q == q0 + 1,
        ;
        assert(q <= a) by (nonlinear_arith)
            requires
                a == b * q0 + a % b,
                a % b > 0,
                q == q0 + 1,
                b >= 1,
                q0 >= 1,
        ;
        lemma_div_le(a, q);
        let r0 = a / q;
        let r = r0 + (if a % q > 0 { 1int } else { 0int });
        assert(q * r >= a) by (nonlinear_arith)
            requires
                a == q * r0 + a % q,
                0 <= a % q < q,
                r == r0 + (if a % q > 0 { 1int } else { 0int }),
        ;
        assert(r0 < b) by (nonlinear_arith)
            requires
                a == q * r0 + a % q,
                0 <= a % q,
                q * b > a,
                q > 0,
        ;
        assert(r >= 1) by (nonlinear_arith)
            requires
                a == q * r0 + a % q,
                0 <= a % q < q,
                a >= 1,
                r0 >= 0,
                r == r0 + (if a % q > 0 { 1int } else { 0int }),
        ;
    }
}

} // verus!

verus! {

/// Converting pool tokens to trading tokens never favours the caller: rounded
/// down, each side is at most the exact share of the pool; rounded up, each
/// side that is not zero is at least the exact share, and at most one token
/// above the rounded-down amount.
pub proof fn lemma_trading_tokens_rounding(
    pool_tokens: int,
    pool_token_supply: int,
    amount_a: int,
    amount_b: int,
)
    requires
        0 <= pool_tokens,
        0 <= amount_a,
        0 <= amount_b,
        trading_tokens_of(pool_tokens, pool_token_supply, amount_a, amount_b, RoundDirection::Floor) is Ok,
        pool_token_supply > 0,
    ensures
        ({
            let floor = trading_tokens_of(
                pool_tokens,
                pool_token_supply,
                amount_a,
                amount_b,
                RoundDirection::Floor,
            )->Ok_0;
            let ceiling = trading_tokens_of(
                pool_tokens,
                pool_token_supply,
                amount_a,
                amount_b,
                RoundDirection::Ceiling,
            )->Ok_0;
            &&& floor.token_a_amount * pool_token_supply <= pool_tokens * amount_a
            &&& floor.token_b_amount * pool_token_supply <= pool_tokens * amount_b
            &&& ceiling.token_a_amount > 0 ==> ceiling.token_a_amount * pool_token_supply
                >= pool_tokens * amount_a
            &&& ceiling.token_b_amount > 0 ==> ceiling.token_b_amount * pool_token_supply
                >= pool_tokens * amount_b
            &&& floor.token_a_amount <= ceiling.token_a_amount <= floor.token_a_amount + 1
            &&& floor.token_b_amount <= ceiling.token_b_amount <= floor.token_b_amount + 1
        }),
{
    lemma_share_rounding(pool_tokens * amount_a, pool_token_supply);
    lemma_share_rounding(pool_tokens * amount_b, pool_token_supply);
    let pa = pool_tokens * amount_a;
    let pb = pool_tokens * amount_b;
    assert(pool_tokens * amount_a >= 0) by (nonlinear_arith)
        requires
            pool_tokens >= 0,
            amount_a >= 0,
    ;
    assert(pool_tokens * amount_b >= 0) by (nonlinear_arith)
        requires
            pool_tokens >= 0,
            amount_b >= 0,
    ;
    lemma_div_le(pa, pool_token_supply);
    lemma_div_le(pb, pool_token_supply);
    if pa % pool_token_supply > 0 {
        lemma_ceiling_room(pa, pool_token_supply);
    }
    if pb % pool_token_supply > 0 {
        lemma_ceiling_room(pb, pool_token_supply);
    }
    let fa = pa / pool_token_supply;
    let fb = pb / pool_token_supply;
    assert(fa as u128 as int == fa);
    assert(fb as u128 as int == fb);
    assert(pa % pool_token_supply > 0 && fa > 0 ==> (fa + 1) as u128 as int == fa + 1);
    assert(pb % pool_token_supply > 0 && fb > 0 ==> (fb + 1) as u128 as int == fb + 1);
}

/// Floored division undershoots the dividend, and bumping a non-zero
/// quotient that left a remainder overshoots it.
proof fn lemma_share_rounding(p: int, s: int)
    requires
        s > 0,
    ensures
        p >= 0 ==> (p / s) * s <= p,
        p >= 0 && p % s > 0 && p / s > 0 ==> (p / s + 1) * s >= p,
        p >= 0 && p % s == 0 ==> (p / s) * s == p,
{
    if p >= 0 {
        lemma_div_le(p, s);
        assert((p / s) * s <= p) by (nonlinear_arith)
            requires
                p == s * (p / s) + p % s,
                p % s >= 0,
        ;
        assert((p / s + 1) * s >= p) by (nonlinear_arith)
            requires
                p == s * (p / s) + p % s,
                p % s < s,
        ;
        assert(p % s == 0 ==> (p / s) * s == p) by (nonlinear_arith)
            requires
                p == s * (p / s) + p % s,
        ;
    }
}

} // verus!
