//! The stableswap invariant calculator.

use vstd::prelude::*;

use crate::curve::calculator::{SwapWithoutFeesResult, TradingTokenResult, RoundDirection, TradeDirection};
use crate::curve::fees::u128_max;
use crate::curve::math::{ceil_div_pair, lemma_ceil_div_pair, trading_tokens_of, pool_tokens_to_trading_tokens};
use crate::curve::precise::{
    opt_raw, precise_checked_div, precise_checked_mul, precise_checked_sub, precise_ceiling,
    precise_ceiling_of, precise_div_of, precise_floor, precise_mul_of, precise_new, precise_one,
    precise_to_imprecise, precise_to_imprecise_of, precise_to_imprecise_ok, to_imprecise_fits,
    Precise,
};
use crate::curve::wide::{
    checked_wide, lemma_wide_bounds, opt_value, pow128, wide_checked_add, wide_checked_ceil_div,
    wide_checked_div, wide_checked_mul, wide_checked_sub, wide_eq, wide_from_u128, wide_limit,
    wide_to_u128, Wide,
};
use crate::error::SwapError;

verus! {

const N_COINS: u8 = 2;

const N_COINS_SQUARED: u8 = 4;

const ITERATIONS: u8 = 32;

/// Minimum amplification coefficient.
pub const MIN_AMP: u64 = 1;

/// Maximum amplification coefficient.
pub const MAX_AMP: u64 = 1_000_000;

/// A stable curve: like constant product, with less slippage around a fixed price.
#[derive(Debug, Clone, Copy, PartialEq, Eq, Structural)]
pub struct StableCurve {
    /// Amplifier constant
    pub amp: u64,
    /// Decimals of token A
    pub token_a_decimals: u8,
    /// Decimals of token B
    pub token_b_decimals: u8,
}

impl Default for StableCurve {
    fn default() -> (r: StableCurve)
        ensures
            r.amp == 0 && r.token_a_decimals == 0 && r.token_b_decimals == 0,
    {
        StableCurve { amp: 0, token_a_decimals: 0, token_b_decimals: 0 }
    }
}

/// `a * b` computed by repeated checked 256-bit addition of `a`, for `b > 1`;
/// `a` itself for `b <= 1`.
pub open spec fn mul_small_of(a: int, b: int) -> Option<int> {
    if b <= 1 {
        Some(a)
    } else {
        checked_wide(a * b)
    }
}

/// `a` raised to the power `b`, for `b >= 1`.
pub open spec fn pow_of(a: int, b: nat) -> int
    decreases b,
{
    if b <= 1 {
        a
    } else {
        pow_of(a, (b - 1) as nat) * a
    }
}

/// `a ** b` computed by repeated checked 256-bit multiplication, for `b > 1`;
/// `a` itself for `b <= 1`.
pub open spec fn pow_small_of(a: int, b: nat) -> Option<int> {
    checked_wide(pow_of(a, b))
}

/// Powers of a non-negative number grow with the exponent, or stay at zero.
proof fn lemma_pow_monotone(a: int, i: nat, j: nat)
    requires
        a >= 0,
        1 <= i <= j,
    ensures
        0 <= pow_of(a, i),
        a >= 1 ==> pow_of(a, i) <= pow_of(a, j),
        a == 0 ==> pow_of(a, j) == 0,
    decreases j,
{
    if j > i {
        lemma_pow_monotone(a, i, (j - 1) as nat);
        let p = pow_of(a, (j - 1) as nat);
        assert(pow_of(a, j) == p * a);
        assert(p >= 0 && (a >= 1 ==> p <= p * a) && (a == 0 ==> p * a == 0)) by (nonlinear_arith)
            requires
                p >= 0,
                a >= 0,
                a == 0 ==> p == 0,
        ;
    } else {
        if i > 1 {
            lemma_pow_monotone(a, 1, (i - 1) as nat);
            let p = pow_of(a, (i - 1) as nat);
            assert(pow_of(a, i) == p * a);
            assert(p * a >= 0) by (nonlinear_arith)
                requires
                    p >= 0,
                    a >= 0,
            ;
        }
    }
}

/// Calculates A for deriving D
///
/// Per discussion with the designer and writer of stable curves, this A is not
/// the same as the A from the whitepaper, it's actually `A * n**(n-1)`, so when
/// you set A, you actually set `A * n**(n-1)`. This is because `D**n / prod(x)`
/// loses precision with a huge A value.
///
/// There is little information to document this choice, but the Curve contracts
/// use this same convention
pub fn compute_a(amp: u64) -> (r: Option<u64>)
    ensures
        r == (if amp * 2 <= u64::MAX {
            Some((amp * 2) as u64)
        } else {
            None::<u64>
        }),
{
    amp.checked_mul(N_COINS as u64)
}

/// Returns self to the power of b
fn checked_u8_power(a: &Wide, b: u8) -> (r: Option<Wide>)
    ensures
        opt_value(r) == pow_small_of(a.value(), b as nat),
{
    let mut result = *a;
    let mut i: u8 = 1;
    proof {
        lemma_wide_bounds(*a);
    }
    while i < b
        invariant
            1 <= i,
            b >= 1 ==> i <= b,
            b <= 1 ==> i == 1,
            result.value() == pow_of(a.value(), i as nat),
            0 <= a.value() < wide_limit(),
            0 <= result.value() < wide_limit(),
        decreases b - i,
    {
        let next = wide_checked_mul(result, *a);
        proof {
            assert(pow_of(a.value(), (i + 1) as nat) == pow_of(a.value(), i as nat) * a.value());
        }
        match next {
            Some(n) => {
                result = n;
            },
            None => {
                proof {
                    lemma_pow_monotone(a.value(), (i + 1) as nat, b as nat);
                }
                return None;
            },
        }
        i = i + 1;
    }
    proof {
        if b < 1 {
            assert(pow_of(a.value(), b as nat) == a.value());
            assert(pow_of(a.value(), 1) == a.value());
        }
    }
    Some(result)
}

/// Returns self multiplied by b
fn checked_u8_mul(a: &Wide, b: u8) -> (r: Option<Wide>)
    ensures
        opt_value(r) == mul_small_of(a.value(), b as int),
{
    let mut result = *a;
    let mut i: u8 = 1;
    proof {
        lemma_wide_bounds(*a);
    }
    while i < b
        invariant
            1 <= i,
            b >= 1 ==> i <= b,
            b <= 1 ==> i == 1,
            result.value() == a.value() * i,
            0 <= a.value() < wide_limit(),
            0 <= result.value() < wide_limit(),
        decreases b - i,
    {
        let next = wide_checked_add(result, *a);
        proof {
            let av = a.value();
            assert(av * i + av == av * (i + 1)) by (nonlinear_arith);
        }
        match next {
            Some(n) => {
                result = n;
            },
            None => {
                proof {
                    let av = a.value();
                    assert(av * (i + 1) <= av * b) by (nonlinear_arith)
                        requires
                            av >= 0,
                            i + 1 <= b,
                    ;
                }
                return None;
            },
        }
        i = i + 1;
    }
    Some(result)
}

/// `Some(a / b)`, or `None` for a zero divisor: a checked division.
pub open spec fn div_of(a: int, b: int) -> Option<int> {
    if b == 0 {
        None
    } else {
        Some(a / b)
    }
}

/// One Newton step towards D:
/// `d = (leverage * sum_x + d_product * n_coins) * initial_d / ((leverage - 1) * initial_d + (n_coins + 1) * d_product)`,
/// with every intermediate checked against 256 bits.
pub open spec fn step_of(d: int, leverage: int, sum_x: int, d_product: int) -> Option<int> {
    match checked_wide(leverage * sum_x) {
        None => None,
        Some(leverage_mul) => match mul_small_of(d_product, 2) {
            None => None,
            Some(d_p_mul) => match checked_wide(leverage_mul + d_p_mul) {
                None => None,
                Some(l_sum) => match checked_wide(l_sum * d) {
                    None => None,
                    Some(l_val) => if leverage < 1 {
                        None
                    } else {
                        match checked_wide(d * (leverage - 1)) {
                            None => None,
                            Some(leverage_sub) => match mul_small_of(d_product, 3) {
                                None => None,
                                Some(n_coins_sum) => match checked_wide(
                                    leverage_sub + n_coins_sum,
                                ) {
                                    None => None,
                                    Some(r_val) => div_of(l_val, r_val),
                                },
                            },
                        }
                    },
                },
            },
        },
    }
}

/// d = (leverage * sum_x + d_product * n_coins) * initial_d / ((leverage - 1) * initial_d + (n_coins + 1) * d_product)
fn calculate_step(initial_d: &Wide, leverage: u64, sum_x: u128, d_product: &Wide) -> (r: Option<
    Wide,
>)
    requires
        0 <= d_product.value(),
    ensures
        opt_value(r) == step_of(initial_d.value(), leverage as int, sum_x as int, d_product.value()),
{
    proof {
        lemma_wide_bounds(*initial_d);
        lemma_wide_bounds(*d_product);
    }
    let leverage_mul = wide_checked_mul(wide_from_u128(leverage as u128), wide_from_u128(sum_x))?;
    let d_p_mul = checked_u8_mul(d_product, N_COINS)?;
    let l_sum = wide_checked_add(leverage_mul, d_p_mul)?;
    let l_val = wide_checked_mul(l_sum, *initial_d)?;
    let leverage_less_one = leverage.checked_sub(1)?;
    let leverage_sub = wide_checked_mul(*initial_d, wide_from_u128(leverage_less_one as u128))?;
    let n_coins_sum = checked_u8_mul(d_product, N_COINS + 1)?;
    let r_val = wide_checked_add(leverage_sub, n_coins_sum)?;
    proof {
        assert(d_product.value() * 2 == 2 * d_product.value());
        assert(d_product.value() * 3 == 3 * d_product.value());
    }
    wide_checked_div(l_val, r_val)
}

/// `D**3 / ((2a + 1) * (2b + 1))`, computed as `D * D / (2a + 1) * D / (2b + 1)`
/// with checked 256-bit arithmetic.
pub open spec fn d_product_of(d: int, a_times_coins: int, b_times_coins: int) -> Option<int> {
    match checked_wide(d * d) {
        None => None,
        Some(d_sq) => match div_of(d_sq, a_times_coins) {
            None => None,
            Some(p) => match checked_wide(p * d) {
                None => None,
                Some(p_d) => div_of(p_d, b_times_coins),
            },
        },
    }
}

/// Newton's method for D: at most `iterations` steps from `d`, stopping early
/// once a step leaves `d` unchanged.
pub open spec fn newton_d(
    iterations: nat,
    d: int,
    leverage: int,
    sum_x: int,
    a_times_coins: int,
    b_times_coins: int,
) -> Option<int>
    decreases iterations,
{
    if iterations == 0 {
        Some(d)
    } else {
        match d_product_of(d, a_times_coins, b_times_coins) {
            None => None,
            Some(d_product) => match step_of(d, leverage, sum_x, d_product) {
                None => None,
                Some(d_next) => if d_next == d {
                    Some(d)
                } else {
                    newton_d(
                        (iterations - 1) as nat,
                        d_next,
                        leverage,
                        sum_x,
                        a_times_coins,
                        b_times_coins,
                    )
                },
            },
        }
    }
}

/// The stable swap invariant D for a pool holding `amount_a` and `amount_b`,
/// as computed by 32 rounds of Newton's method starting from their sum.
pub open spec fn compute_d_of(leverage: int, amount_a: int, amount_b: int) -> Option<int> {
    let sum_x = amount_a + amount_b;
    if sum_x > u128_max() {
        None
    } else if sum_x == 0 {
        Some(0)
    } else {
        match newton_d(32, sum_x, leverage, sum_x, 2 * amount_a + 1, 2 * amount_b + 1) {
            Some(d) => if d < pow128() {
                Some(d)
            } else {
                None
            },
            None => None,
        }
    }
}

/// Compute stable swap invariant (D)
///
/// Defined as:
///
/// ```md
/// A * sum(x_i) * n**n + D = A * D * n**n + D**(n+1) / (n**n * prod(x_i))
/// ```
///
/// * `leverage` - The invariant of A - the amplification coefficient times n**(n-1)
/// * `amount_a` - The number of A tokens in the pool
/// * `amount_b` - The number of B tokens in the pool
pub fn compute_d(leverage: u64, amount_a: u128, amount_b: u128) -> (r: Option<u128>)
    ensures
        match r {
            Some(v) => compute_d_of(leverage as int, amount_a as int, amount_b as int) == Some(
                v as int,
            ),
            None => compute_d_of(leverage as int, amount_a as int, amount_b as int) is None,
        },
{
    let sum_x = amount_a.checked_add(amount_b)?;  // sum(x_i), a.k.a S
    if sum_x == 0 {
        return Some(0);
    }
    let one = wide_from_u128(1);
    let amount_a_times_coins = wide_checked_add(
        checked_u8_mul(&wide_from_u128(amount_a), N_COINS)?,
        one,
    )?;
    let amount_b_times_coins = wide_checked_add(
        checked_u8_mul(&wide_from_u128(amount_b), N_COINS)?,
        one,
    )?;
    let ghost a2 = 2 * amount_a + 1;
    let ghost b2 = 2 * amount_b + 1;
    assert(amount_a_times_coins.value() == a2);
    assert(amount_b_times_coins.value() == b2);
    let ghost target = newton_d(32, sum_x as int, leverage as int, sum_x as int, a2, b2);
    let mut d: Wide = wide_from_u128(sum_x);
    let mut i: u8 = 0;
    // Newton's method to approximate D
    while i < ITERATIONS
        invariant
            i <= ITERATIONS,
            amount_a_times_coins.value() == a2,
            amount_b_times_coins.value() == b2,
            a2 >= 1,
            b2 >= 1,
            newton_d((32 - i) as nat, d.value(), leverage as int, sum_x as int, a2, b2) == target,
            compute_d_of(leverage as int, amount_a as int, amount_b as int) == match target {
                Some(dv) => if dv < pow128() {
                    Some(dv)
                } else {
                    None
                },
                None => None,
            },
        decreases ITERATIONS - i,
    {
        let ghost dv = d.value();
        proof {
            lemma_wide_bounds(d);
        }
        let d_sq = wide_checked_mul(d, d)?;
        let d_product = wide_checked_div(d_sq, amount_a_times_coins)?;
        let d_product = wide_checked_mul(d_product, d)?;
        let d_product = wide_checked_div(d_product, amount_b_times_coins)?;
        proof {
            lemma_wide_bounds(d_product);
        }
        // d = (leverage * sum_x + d_p * n_coins) * d / ((leverage - 1) * d + (n_coins + 1) * d_p);
        let d_next = calculate_step(&d, leverage, sum_x, &d_product)?;
        // Equality with the precision of 1
        if wide_eq(d_next, d) {
            return wide_to_u128(d);
        }
        d = d_next;
        i = i + 1;
    }
    wide_to_u128(d)
}

/// Newton's method for the destination amount y in `y**2 + b*y = c`:
/// at most `iterations` steps from `y`, stopping once a step leaves `y`
/// unchanged. The step is a fair ceiling division; where that division
/// fails, the step goes to 0 for a zero numerator and to 1 otherwise.
pub open spec fn newton_y(iterations: nat, y: int, c: int, b: int, d: int) -> Option<int>
    decreases iterations,
{
    if iterations == 0 {
        Some(y)
    } else {
        match pow_small_of(y, 2) {
            None => None,
            Some(y_sq) => match checked_wide(y_sq + c) {
                None => None,
                Some(numerator) => match mul_small_of(y, 2) {
                    None => None,
                    Some(doubled) => match checked_wide(doubled + b) {
                        None => None,
                        Some(doubled_b) => match checked_wide(doubled_b - d) {
                            None => None,
                            Some(denominator) => {
                                let y_next = match ceil_div_pair(numerator, denominator) {
                                    Some((q, _)) => q,
                                    None => if numerator == 0 {
                                        0
                                    } else {
                                        1
                                    },
                                };
                                if y_next == y {
                                    Some(y)
                                } else {
                                    newton_y((iterations - 1) as nat, y_next, c, b, d)
                                }
                            },
                        },
                    },
                },
            },
        }
    }
}

/// The new destination amount of a stable swap that brings the source side
/// to `new_source_amount` with invariant `d_val`.
pub open spec fn new_destination_amount_of(leverage: int, new_source_amount: int, d_val: int) -> Option<
    int,
> {
    match pow_small_of(d_val, 3) {
        None => None,
        Some(d_cubed) => match mul_small_of(new_source_amount, 4) {
            None => None,
            Some(source_times_four) => match checked_wide(source_times_four * leverage) {
                None => None,
                Some(c_denominator) => match div_of(d_cubed, c_denominator) {
                    None => None,
                    Some(c) => match div_of(d_val, leverage) {
                        None => None,
                        Some(d_over_leverage) => match checked_wide(
                            new_source_amount + d_over_leverage,
                        ) {
                            None => None,
                            Some(b) => match newton_y(32, d_val, c, b, d_val) {
                                Some(y) => if y < pow128() {
                                    Some(y)
                                } else {
                                    None
                                },
                                None => None,
                            },
                        },
                    },
                },
            },
        },
    }
}

/// Compute swap amount `y` in proportion to `x`
/// Solve for y:
/// ```md
/// y**2 + y * (sum' - (A*n**n - 1) * D / (A * n**n)) = D ** (n + 1) / (n ** (2 * n) * prod' * A)
/// y**2 + b*y = c
/// ```
pub fn compute_new_destination_amount(leverage: u64, new_source_amount: u128, d_val: u128) -> (r:
    Option<u128>)
    ensures
        match r {
            Some(v) => new_destination_amount_of(
                leverage as int,
                new_source_amount as int,
                d_val as int,
            ) == Some(v as int),
            None => new_destination_amount_of(
                leverage as int,
                new_source_amount as int,
                d_val as int,
            ) is None,
        },
{
    // Upscale to U256
    let leverage_wide = wide_from_u128(leverage as u128);
    let new_source_wide = wide_from_u128(new_source_amount);
    let d_wide = wide_from_u128(d_val);
    let zero = wide_from_u128(0);
    let one = wide_from_u128(1);
    // sum' = prod' = x
    // c =  D ** (n + 1) / (n ** (2 * n) * prod' * A)
    let d_cubed = checked_u8_power(&d_wide, N_COINS + 1)?;
    let source_times_four = checked_u8_mul(&new_source_wide, N_COINS_SQUARED)?;
    let c_denominator = wide_checked_mul(source_times_four, leverage_wide)?;
    let c = wide_checked_div(d_cubed, c_denominator)?;
    // b = sum' - (A*n**n - 1) * D / (A * n**n)
    let d_over_leverage = wide_checked_div(d_wide, leverage_wide)?;
    let b = wide_checked_add(new_source_wide, d_over_leverage)?;
    proof {
        assert(new_source_amount * 4 == 4 * new_source_amount);
        lemma_wide_bounds(c);
        lemma_wide_bounds(b);
    }
    let ghost cv = c.value();
    let ghost bv = b.value();
    let ghost dv = d_val as int;
    let ghost target = newton_y(32, dv, cv, bv, dv);
    assert(new_destination_amount_of(leverage as int, new_source_amount as int, d_val as int)
        == match target {
        Some(yv) => if yv < pow128() {
            Some(yv)
        } else {
            None
        },
        None => None,
    });
    // Solve for y by approximating: y**2 + b*y = c
    let mut y = d_wide;
    let mut i: u8 = 0;
    while i < ITERATIONS
        invariant
            i <= ITERATIONS,
            c.value() == cv,
            b.value() == bv,
            d_wide.value() == dv,
            zero.value() == 0,
            one.value() == 1,
            cv >= 0,
            newton_y((32 - i) as nat, y.value(), cv, bv, dv) == target,
            new_destination_amount_of(leverage as int, new_source_amount as int, d_val as int)
                == match target {
                Some(yv) => if yv < pow128() {
                    Some(yv)
                } else {
                    None
                },
                None => None,
            },
        decreases ITERATIONS - i,
    {
        proof {
            lemma_wide_bounds(y);
            assert(pow_of(y.value(), 2) == pow_of(y.value(), 1) * y.value());
        }
        let y_squared = checked_u8_power(&y, 2)?;
        let numerator = wide_checked_add(y_squared, c)?;
        let doubled = checked_u8_mul(&y, 2)?;
        let doubled_plus_b = wide_checked_add(doubled, b)?;
        let denominator = wide_checked_sub(doubled_plus_b, d_wide)?;
        proof {
            assert(y.value() * 2 == 2 * y.value());
        }
        // checked_ceil_div is conservative, not allowing for a 0 return, but we can
        // ceiling to 1 token in this case since we're solving through approximation,
        // and not doing a constant product calculation
        let y_new = match wide_checked_ceil_div(numerator, denominator) {
            Some((q, _)) => q,
            None => if wide_eq(numerator, zero) {
                zero
            } else {
                one
            },
        };
        if wide_eq(y_new, y) {
            return wide_to_u128(y);
        }
        y = y_new;
        i = i + 1;
    }
    wide_to_u128(y)
}

/// The result of a stable swap without fees, as `Option` where the curve fails.
pub open spec fn stable_swap_of(
    amp: int,
    source_amount: int,
    swap_source_amount: int,
    swap_destination_amount: int,
) -> Option<SwapWithoutFeesResult> {
    if source_amount == 0 {
        Some(SwapWithoutFeesResult { source_amount_swapped: 0, destination_amount_swapped: 0 })
    } else if amp * 2 > u64::MAX || swap_source_amount + source_amount > u128_max() {
        None
    } else {
        match compute_d_of(amp * 2, swap_source_amount, swap_destination_amount) {
            None => None,
            Some(d) => match new_destination_amount_of(
                amp * 2,
                swap_source_amount + source_amount,
                d,
            ) {
                None => None,
                Some(new_destination) => if new_destination > swap_destination_amount {
                    None
                } else {
                    Some(
                        SwapWithoutFeesResult {
                            source_amount_swapped: source_amount as u128,
                            destination_amount_swapped: (swap_destination_amount
                                - new_destination) as u128,
                        },
                    )
                },
            },
        }
    }
}

/// How far a pool holding `x` and `y` lies above the stable swap curve of
/// invariant `d` at leverage `leverage`, scaled by `4xy`:
/// `4xy(leverage(x + y) - (leverage - 1)d) - d^3`. For amounts that are not
/// zero it is not negative exactly where the pool is on or above that curve,
/// that is, where the pool's own invariant is at least `d`.
pub open spec fn stable_curve_gap(leverage: int, x: int, y: int, d: int) -> int {
    4 * x * y * (leverage * (x + y) - (leverage - 1) * d) - d * d * d
}

/// Whether `y` lies on or beyond the root of `y^2 + (b - d)y = c`.
pub open spec fn y_covers(y: int, c: int, b: int, d: int) -> bool {
    y * y + (b - d) * y >= c
}

/// Newton's method for the destination amount ends on or beyond the root:
/// each step rounds up, and a step from a point whose denominator is
/// positive lands at or beyond the root.
proof fn lemma_newton_y_covers(iterations: nat, y: int, c: int, b: int, d: int)
    requires
        y >= 0,
        c >= 0,
        b >= 0,
        d >= 0,
        y_covers(y, c, b, d) || 2 * y + b - d > 0,
        iterations >= 1 || y_covers(y, c, b, d),
        newton_y(iterations, y, c, b, d) is Some,
    ensures
        newton_y(iterations, y, c, b, d)->Some_0 >= 0,
        y_covers(newton_y(iterations, y, c, b, d)->Some_0, c, b, d),
    decreases iterations,
{
    if iterations == 0 {
        return;
    }
    assert(pow_of(y, 2) == pow_of(y, 1) * y);
    assert(pow_of(y, 1) == y);
    let numerator = y * y + c;
    let m = 2 * y + b - d;
    assert(y * y >= 0) by (nonlinear_arith)
        requires
            y >= 0,
    ;
    assert(m >= 0);
    let z = match ceil_div_pair(numerator, m) {
        Some((q, _)) => q,
        None => if numerator == 0 {
            0
        } else {
            1
        },
    };
    if m == 0 {
        // only a covering point can have a zero denominator, and then it is 0
        assert(y_covers(y, c, b, d));
        assert(y * y + (b - d) * y == -(y * y)) by (nonlinear_arith)
            requires
                b - d == -2 * y,
        ;
        assert(y == 0) by (nonlinear_arith)
            requires
                -(y * y) >= c,
                c >= 0,
                y >= 0,
        ;
        assert(ceil_div_pair(numerator, m) is None);
        assert(z == 0);
        return;
    }
    // the rounded-up step covers the numerator
    if ceil_div_pair(numerator, m) is Some {
        lemma_ceil_div_pair(numerator, m);
    } else {
        assert(numerator / m == 0);
        assert(numerator < m) by (nonlinear_arith)
            requires
                numerator / m == 0,
                numerator >= 0,
                m > 0,
        ;
    }
    assert(z * m >= numerator);
    assert(z >= 0);
    assert(y_covers(z, c, b, d)) by (nonlinear_arith)
        requires
            z * m >= y * y + c,
            m == 2 * y + b - d,
    {
        assert(z * z + (b - d) * z - c >= (z - y) * (z - y)) by (nonlinear_arith)
            requires
                z * m >= y * y + c,
                m == 2 * y + b - d,
        ;
        assert((z - y) * (z - y) >= 0) by (nonlinear_arith);
    }
    if z != y {
        lemma_newton_y_covers((iterations - 1) as nat, z, c, b, d);
    }
}

/// The new destination amount of a stable swap covers the root of its
/// equation, for the rounded-down `b` and `c` it is computed with.
proof fn lemma_new_destination_covers(leverage: int, new_source_amount: int, d: int)
    requires
        leverage >= 1,
        new_source_amount >= 1,
        d >= 0,
        new_destination_amount_of(leverage, new_source_amount, d) is Some,
    ensures
        ({
            let y = new_destination_amount_of(leverage, new_source_amount, d)->Some_0;
            &&& y >= 0
            &&& y_covers(
                y,
                d * d * d / (4 * new_source_amount * leverage),
                new_source_amount + d / leverage,
                d,
            )
        }),
{
    assert(pow_of(d, 3) == pow_of(d, 2) * d);
    assert(pow_of(d, 2) == pow_of(d, 1) * d);
    assert(pow_of(d, 1) == d);
    let c_den = 4 * new_source_amount * leverage;
    assert(new_source_amount * 4 * leverage == c_den) by (nonlinear_arith)
        requires
            c_den == 4 * new_source_amount * leverage,
    ;
    assert(c_den > 0) by (nonlinear_arith)
        requires
            c_den == 4 * new_source_amount * leverage,
            leverage >= 1,
            new_source_amount >= 1,
    ;
    let c = d * d * d / c_den;
    let b = new_source_amount + d / leverage;
    assert(d * d * d >= 0) by (nonlinear_arith)
        requires
            d >= 0,
    ;
    assert(c >= 0) by (nonlinear_arith)
        requires
            c == d * d * d / c_den,
            d * d * d >= 0,
            c_den > 0,
    ;
    assert(d / leverage >= 0) by (nonlinear_arith)
        requires
            d >= 0,
            leverage >= 1,
    ;
    lemma_newton_y_covers(32, d, c, b, d);
}

/// A stable swap never leaves the pool below the curve of the invariant it
/// was priced at, but for the rounding of that curve's constant term: the
/// new amounts' gap to the curve of the pool's invariant `d` is at least
/// `-(d^3 mod 4 * new_source * leverage)`, which is above
/// `-4 * new_source * leverage`.
pub proof fn lemma_stable_swap_keeps_curve(
    amp: int,
    source_amount: int,
    swap_source_amount: int,
    swap_destination_amount: int,
)
    requires
        amp >= 1,
        source_amount >= 1,
        0 <= swap_source_amount <= u128_max(),
        0 <= swap_destination_amount <= u128_max(),
        stable_swap_of(amp, source_amount, swap_source_amount, swap_destination_amount) is Some,
    ensures
        ({
            let res = stable_swap_of(
                amp,
                source_amount,
                swap_source_amount,
                swap_destination_amount,
            )->Some_0;
            let d = compute_d_of(2 * amp, swap_source_amount, swap_destination_amount)->Some_0;
            let x = swap_source_amount + res.source_amount_swapped;
            let y = swap_destination_amount - res.destination_amount_swapped;
            &&& compute_d_of(2 * amp, swap_source_amount, swap_destination_amount) is Some
            &&& stable_curve_gap(2 * amp, x, y, d) + (d * d * d) % (4 * x * (2 * amp)) >= 0
        }),
{
    let leverage = amp * 2;
    let d = compute_d_of(leverage, swap_source_amount, swap_destination_amount)->Some_0;
    let x = swap_source_amount + source_amount;
    lemma_compute_d_non_negative(leverage, swap_source_amount, swap_destination_amount);
    lemma_new_destination_covers(leverage, x, d);
    let y = new_destination_amount_of(leverage, x, d)->Some_0;
    let res = stable_swap_of(amp, source_amount, swap_source_amount, swap_destination_amount)->Some_0;
    assert(res.source_amount_swapped == source_amount);
    assert(res.destination_amount_swapped == swap_destination_amount - y);
    let den = 4 * x * leverage;
    assert(den > 0) by (nonlinear_arith)
        requires
            den == 4 * x * leverage,
            x >= 1,
            leverage >= 2,
    ;
    let d3 = d * d * d;
    let q1 = d / leverage;
    let q2 = d3 / den;
    let r2 = d3 % den;
    assert(d3 == den * q2 + r2 && 0 <= r2) by (nonlinear_arith)
        requires
            den > 0,
            q2 == d3 / den,
            r2 == d3 % den,
    ;
    assert(leverage * q1 <= d) by (nonlinear_arith)
        requires
            q1 == d / leverage,
            leverage > 0,
            d >= 0,
    ;
    // the covering inequality, scaled by 4x * leverage
    assert(y * y + (x + q1 - d) * y >= q2);
    assert(den * (y * y + (x + q1 - d) * y) >= den * q2) by (nonlinear_arith)
        requires
            y * y + (x + q1 - d) * y >= q2,
            den > 0,
    ;
    assert(4 * x * y * (leverage * q1) <= 4 * x * y * d) by (nonlinear_arith)
        requires
            leverage * q1 <= d,
            x >= 1,
            y >= 0,
    ;
    let w = 4 * x * y;
    let k = 4 * x * leverage;
    assert(k == den);
    assert(den * (y * y + (x + q1 - d) * y) == k * y * y + k * x * y + k * q1 * y - k * d * y)
        by (nonlinear_arith)
        requires
            k == den,
    ;
    assert(k * y * y == w * leverage * y && k * x * y == w * leverage * x && k * q1 * y == w
        * (leverage * q1) && k * d * y == w * leverage * d) by (nonlinear_arith)
        requires
            k == 4 * x * leverage,
            w == 4 * x * y,
    ;
    assert(4 * x * y * (leverage * q1) == w * (leverage * q1));
    assert(4 * x * y * d == w * d);
    assert(w * (leverage * (x + y) - (leverage - 1) * d) == w * leverage * x + w * leverage * y - w
        * leverage * d + w * d) by (nonlinear_arith);
    assert(stable_curve_gap(leverage, x, y, d) == w * (leverage * (x + y) - (leverage - 1) * d)
        - d3);
}

/// The invariant that Newton's method computes is never negative.
proof fn lemma_compute_d_non_negative(leverage: int, amount_a: int, amount_b: int)
    requires
        amount_a >= 0,
        amount_b >= 0,
        compute_d_of(leverage, amount_a, amount_b) is Some,
    ensures
        compute_d_of(leverage, amount_a, amount_b)->Some_0 >= 0,
{
    let sum_x = amount_a + amount_b;
    if sum_x != 0 && sum_x <= u128_max() {
        lemma_newton_d_non_negative(32, sum_x, leverage, sum_x, 2 * amount_a + 1, 2 * amount_b + 1);
    }
}

/// Every Newton step for D stays within 256 bits, hence is not negative.
proof fn lemma_newton_d_non_negative(
    iterations: nat,
    d: int,
    leverage: int,
    sum_x: int,
    a_times_coins: int,
    b_times_coins: int,
)
    requires
        d >= 0,
        newton_d(iterations, d, leverage, sum_x, a_times_coins, b_times_coins) is Some,
    ensures
        newton_d(iterations, d, leverage, sum_x, a_times_coins, b_times_coins)->Some_0 >= 0,
    decreases iterations,
{
    if iterations > 0 {
        let d_product = d_product_of(d, a_times_coins, b_times_coins)->Some_0;
        let d_next = step_of(d, leverage, sum_x, d_product)->Some_0;
        if d_next != d {
            lemma_step_non_negative(d, leverage, sum_x, d_product);
            lemma_newton_d_non_negative(
                (iterations - 1) as nat,
                d_next,
                leverage,
                sum_x,
                a_times_coins,
                b_times_coins,
            );
        }
    }
}

/// A Newton step for D, where it is computed, is not negative.
proof fn lemma_step_non_negative(d: int, leverage: int, sum_x: int, d_product: int)
    requires
        step_of(d, leverage, sum_x, d_product) is Some,
    ensures
        step_of(d, leverage, sum_x, d_product)->Some_0 >= 0,
{
    let l_val = checked_wide(checked_wide(checked_wide(leverage * sum_x)->Some_0 + mul_small_of(
        d_product,
        2,
    )->Some_0)->Some_0 * d)->Some_0;
    let r_val = checked_wide(checked_wide(d * (leverage - 1))->Some_0 + mul_small_of(
        d_product,
        3,
    )->Some_0)->Some_0;
    assert(step_of(d, leverage, sum_x, d_product) == div_of(l_val, r_val));
    assert(l_val >= 0 && r_val > 0);
    assert(l_val / r_val >= 0) by (nonlinear_arith)
        requires
            l_val >= 0,
            r_val > 0,
    ;
}

/// Whether a stable curve's amplifier lies within the bounds, both included.
pub open spec fn stable_amp_is_valid(amp: int) -> bool {
    MIN_AMP <= amp <= MAX_AMP
}

/// The precise value of the pool tokens that moving the invariant from `d0`
/// to `d1` (or back) is worth, for a pool token supply of `pool_supply`:
/// `|d1 - d0| * pool_supply / d0` in twelve-decimal fixed point.
pub open spec fn pool_share_of(d_high: int, d_low: int, pool_supply: int, d0: int) -> Option<int> {
    match checked_wide(d_high * precise_one() - d_low * precise_one()) {
        None => None,
        Some(diff) => match precise_mul_of(diff, pool_supply * precise_one()) {
            None => None,
            Some(m) => precise_div_of(m, d0 * precise_one()),
        },
    }
}

/// The precise pool token amount for a single-sided stable deposit of
/// `source_amount`, before rounding.
pub open spec fn stable_deposit_share_of(
    amp: int,
    source_amount: int,
    swap_token_a_amount: int,
    swap_token_b_amount: int,
    pool_supply: int,
    trade_direction: TradeDirection,
) -> Option<int> {
    let (deposit_amount, other_amount) = match trade_direction {
        TradeDirection::AtoB => (swap_token_a_amount, swap_token_b_amount),
        TradeDirection::BtoA => (swap_token_b_amount, swap_token_a_amount),
    };
    if amp * 2 > u64::MAX || deposit_amount + source_amount > u128_max() {
        None
    } else {
        match compute_d_of(amp * 2, swap_token_a_amount, swap_token_b_amount) {
            None => None,
            Some(d0) => match compute_d_of(amp * 2, deposit_amount + source_amount, other_amount) {
                None => None,
                Some(d1) => pool_share_of(d1, d0, pool_supply, d0),
            },
        }
    }
}

/// The precise pool token amount for a single-sided stable withdrawal of
/// exactly `source_amount`, before rounding.
pub open spec fn stable_withdraw_share_of(
    amp: int,
    source_amount: int,
    swap_token_a_amount: int,
    swap_token_b_amount: int,
    pool_supply: int,
    trade_direction: TradeDirection,
) -> Option<int> {
    let (withdraw_amount, other_amount) = match trade_direction {
        TradeDirection::AtoB => (swap_token_a_amount, swap_token_b_amount),
        TradeDirection::BtoA => (swap_token_b_amount, swap_token_a_amount),
    };
    if amp * 2 > u64::MAX || withdraw_amount < source_amount {
        None
    } else {
        match compute_d_of(amp * 2, swap_token_a_amount, swap_token_b_amount) {
            None => None,
            Some(d0) => match compute_d_of(amp * 2, withdraw_amount - source_amount, other_amount) {
                None => None,
                Some(d1) => pool_share_of(d0, d1, pool_supply, d0),
            },
        }
    }
}

/// A precise amount rounded down to a whole one, as `floor` then `to_imprecise`.
pub open spec fn floored_of(share: Option<int>) -> Option<int> {
    match share {
        None => None,
        Some(f) => match checked_wide(f / precise_one() * precise_one()) {
            None => None,
            Some(fl) => precise_to_imprecise_of(fl),
        },
    }
}

/// A precise amount rounded up to a whole one, as `ceiling` then `to_imprecise`.
pub open spec fn ceiled_of(share: Option<int>) -> Option<int> {
    match share {
        None => None,
        Some(f) => match precise_ceiling_of(f) {
            None => None,
            Some(c) => precise_to_imprecise_of(c),
        },
    }
}

/// Whether rounding a precise amount down leaves a whole part that fits in a `u128`.
pub open spec fn floor_fits(share: Option<int>) -> bool {
    match share {
        None => true,
        Some(f) => precise_to_imprecise_ok(f / precise_one() * precise_one()),
    }
}

/// Whether rounding a precise amount up leaves a whole part that fits in a `u128`.
pub open spec fn ceiling_fits(share: Option<int>) -> bool {
    match share {
        None => true,
        Some(f) => match precise_ceiling_of(f) {
            None => true,
            Some(c) => precise_to_imprecise_ok(c),
        },
    }
}

/// Reads an optional number as an optional `u128`.
pub open spec fn as_u128_opt(v: Option<int>) -> Option<u128> {
    match v {
        Some(x) => Some(x as u128),
        None => None,
    }
}

/// Whether rounding `share` down leaves a whole part that `to_imprecise`
/// can return.
fn floored_fits(share: &Precise) -> (r: bool)
    ensures
        r == floor_fits(Some(share.raw())),
{
    proof {
        lemma_wide_bounds(share.value);
        let f = share.raw();
        assert(0 <= f / precise_one() * precise_one() <= f) by (nonlinear_arith)
            requires
                f >= 0,
        ;
    }
    match precise_floor(share) {
        Some(floored) => to_imprecise_fits(&floored),
        None => false,
    }
}

impl StableCurve {
    /// Stable curve
    pub fn swap_without_fees(
        &self,
        source_amount: u128,
        swap_source_amount: u128,
        swap_destination_amount: u128,
        _trade_direction: TradeDirection,
    ) -> (r: Option<SwapWithoutFeesResult>)
        ensures
            r == stable_swap_of(
                self.amp as int,
                source_amount as int,
                swap_source_amount as int,
                swap_destination_amount as int,
            ),
            r is Some ==> r->Some_0.destination_amount_swapped <= swap_destination_amount,
            // the pool stays on or above the curve of the invariant it was
            // priced at, but for the rounding of that curve's constant term
            self.amp >= 1 && source_amount >= 1 && r is Some ==> ({
                let d = compute_d_of(
                    2 * self.amp,
                    swap_source_amount as int,
                    swap_destination_amount as int,
                )->Some_0;
                let x = swap_source_amount + source_amount;
                let y = swap_destination_amount - r->Some_0.destination_amount_swapped;
                stable_curve_gap(2 * self.amp, x, y, d) + (d * d * d) % (4 * x * (2 * self.amp))
                    >= 0
            }),
    {
        proof {
            if self.amp >= 1 && source_amount >= 1 && stable_swap_of(
                self.amp as int,
                source_amount as int,
                swap_source_amount as int,
                swap_destination_amount as int,
            ) is Some {
                lemma_stable_swap_keeps_curve(
                    self.amp as int,
                    source_amount as int,
                    swap_source_amount as int,
                    swap_destination_amount as int,
                );
            }
        }
        if source_amount == 0 {
            return Some(
                SwapWithoutFeesResult { source_amount_swapped: 0, destination_amount_swapped: 0 },
            );
        }
        let leverage = compute_a(self.amp)?;
        let new_source_amount = swap_source_amount.checked_add(source_amount)?;
        let d = compute_d(leverage, swap_source_amount, swap_destination_amount)?;
        let new_destination_amount = compute_new_destination_amount(
            leverage,
            new_source_amount,
            d,
        )?;
        let amount_swapped = swap_destination_amount.checked_sub(new_destination_amount)?;
        Some(
            SwapWithoutFeesResult {
                source_amount_swapped: source_amount,
                destination_amount_swapped: amount_swapped,
            },
        )
    }

    /// Remove pool tokens from the pool in exchange for trading tokens
    pub fn pool_tokens_to_trading_tokens(
        &self,
        pool_tokens: u128,
        pool_token_supply: u128,
        pool_token_a_amount: u128,
        pool_token_b_amount: u128,
        round_direction: RoundDirection,
    ) -> (r: Option<TradingTokenResult>)
        ensures
            match trading_tokens_of(
                pool_tokens as int,
                pool_token_supply as int,
                pool_token_a_amount as int,
                pool_token_b_amount as int,
                round_direction,
            ) {
                Ok(t) => r == Some(t),
                Err(_) => r is None,
            },
    {
        match pool_tokens_to_trading_tokens(
            pool_tokens,
            pool_token_supply,
            pool_token_a_amount,
            pool_token_b_amount,
            round_direction,
        ) {
            Ok(t) => Some(t),
            Err(_) => None,
        }
    }

    /// Get the amount of pool tokens for the given amount of token A or B.
    pub fn deposit_single_token_type(
        &self,
        source_amount: u128,
        swap_token_a_amount: u128,
        swap_token_b_amount: u128,
        pool_supply: u128,
        trade_direction: TradeDirection,
    ) -> (r: Option<u128>)
        requires
            source_amount == 0 || floor_fits(
                stable_deposit_share_of(
                    self.amp as int,
                    source_amount as int,
                    swap_token_a_amount as int,
                    swap_token_b_amount as int,
                    pool_supply as int,
                    trade_direction,
                ),
            ),
        ensures
            r == (if source_amount == 0 {
                Some(0u128)
            } else {
                as_u128_opt(
                    floored_of(
                        stable_deposit_share_of(
                            self.amp as int,
                            source_amount as int,
                            swap_token_a_amount as int,
                            swap_token_b_amount as int,
                            pool_supply as int,
                            trade_direction,
                        ),
                    ),
                )
            }),
    {
        if source_amount == 0 {
            return Some(0);
        }
        let final_amount = self.deposit_share(
            source_amount,
            swap_token_a_amount,
            swap_token_b_amount,
            pool_supply,
            trade_direction,
        )?;
        let floored = precise_floor(&final_amount)?;
        precise_to_imprecise(&floored)
    }

    /// The precise pool token amount for a single-sided deposit, before rounding.
    fn deposit_share(
        &self,
        source_amount: u128,
        swap_token_a_amount: u128,
        swap_token_b_amount: u128,
        pool_supply: u128,
        trade_direction: TradeDirection,
    ) -> (r: Option<Precise>)
        ensures
            opt_raw(r) == stable_deposit_share_of(
                self.amp as int,
                source_amount as int,
                swap_token_a_amount as int,
                swap_token_b_amount as int,
                pool_supply as int,
                trade_direction,
            ),
    {
        let leverage = compute_a(self.amp)?;
        let (deposit_token_amount, other_token_amount) = match trade_direction {
            TradeDirection::AtoB => (swap_token_a_amount, swap_token_b_amount),
            TradeDirection::BtoA => (swap_token_b_amount, swap_token_a_amount),
        };
        let updated_deposit_token_amount = deposit_token_amount.checked_add(source_amount)?;
        let d0_whole = compute_d(leverage, swap_token_a_amount, swap_token_b_amount)?;
        let d0 = precise_new(d0_whole)?;
        let d1_whole = compute_d(leverage, updated_deposit_token_amount, other_token_amount)?;
        let d1 = precise_new(d1_whole)?;
        let diff = precise_checked_sub(&d1, &d0)?;
        let supply = precise_new(pool_supply)?;
        let scaled = precise_checked_mul(&diff, &supply)?;
        precise_checked_div(&scaled, &d0)
    }

    /// Whether `deposit_single_token_type` can round its result to a whole
    /// amount: whether its precondition holds for these arguments.
    pub fn deposit_single_token_type_fits(
        &self,
        source_amount: u128,
        swap_token_a_amount: u128,
        swap_token_b_amount: u128,
        pool_supply: u128,
        trade_direction: TradeDirection,
    ) -> (r: bool)
        ensures
            r == (source_amount == 0 || floor_fits(
                stable_deposit_share_of(
                    self.amp as int,
                    source_amount as int,
                    swap_token_a_amount as int,
                    swap_token_b_amount as int,
                    pool_supply as int,
                    trade_direction,
                ),
            )),
    {
        if source_amount == 0 {
            return true;
        }
        match self.deposit_share(
            source_amount,
            swap_token_a_amount,
            swap_token_b_amount,
            pool_supply,
            trade_direction,
        ) {
            None => true,
            Some(share) => floored_fits(&share),
        }
    }

    /// Get the amount of pool tokens to burn for an exact withdrawal of token A or B.
    pub fn withdraw_single_token_type_exact_out(
        &self,
        source_amount: u128,
        swap_token_a_amount: u128,
        swap_token_b_amount: u128,
        pool_supply: u128,
        trade_direction: TradeDirection,
        round_direction: RoundDirection,
    ) -> (r: Option<u128>)
        requires
            source_amount == 0 || match round_direction {
                RoundDirection::Floor => floor_fits(
                    stable_withdraw_share_of(
                        self.amp as int,
                        source_amount as int,
                        swap_token_a_amount as int,
                        swap_token_b_amount as int,
                        pool_supply as int,
                        trade_direction,
                    ),
                ),
                RoundDirection::Ceiling => ceiling_fits(
                    stable_withdraw_share_of(
                        self.amp as int,
                        source_amount as int,
                        swap_token_a_amount as int,
                        swap_token_b_amount as int,
                        pool_supply as int,
                        trade_direction,
                    ),
                ),
            },
        ensures
            r == (if source_amount == 0 {
                Some(0u128)
            } else {
                let share = stable_withdraw_share_of(
                    self.amp as int,
                    source_amount as int,
                    swap_token_a_amount as int,
                    swap_token_b_amount as int,
                    pool_supply as int,
                    trade_direction,
                );
                as_u128_opt(
                    match round_direction {
                        RoundDirection::Floor => floored_of(share),
                        RoundDirection::Ceiling => ceiled_of(share),
                    },
                )
            }),
    {
        if source_amount == 0 {
            return Some(0);
        }
        let final_amount = self.withdraw_share(
            source_amount,
            swap_token_a_amount,
            swap_token_b_amount,
            pool_supply,
            trade_direction,
        )?;
        match round_direction {
            RoundDirection::Floor => {
                let floored = precise_floor(&final_amount)?;
                precise_to_imprecise(&floored)
            },
            RoundDirection::Ceiling => {
                let ceiled = precise_ceiling(&final_amount)?;
                precise_to_imprecise(&ceiled)
            },
        }
    }

    /// The precise pool token amount for a single-sided withdrawal of
    /// exactly `source_amount`, before rounding.
    fn withdraw_share(
        &self,
        source_amount: u128,
        swap_token_a_amount: u128,
        swap_token_b_amount: u128,
        pool_supply: u128,
        trade_direction: TradeDirection,
    ) -> (r: Option<Precise>)
        ensures
            opt_raw(r) == stable_withdraw_share_of(
                self.amp as int,
                source_amount as int,
                swap_token_a_amount as int,
                swap_token_b_amount as int,
                pool_supply as int,
                trade_direction,
            ),
    {
        let leverage = compute_a(self.amp)?;
        let (withdraw_token_amount, other_token_amount) = match trade_direction {
            TradeDirection::AtoB => (swap_token_a_amount, swap_token_b_amount),
            TradeDirection::BtoA => (swap_token_b_amount, swap_token_a_amount),
        };
        let updated_withdraw_token_amount = withdraw_token_amount.checked_sub(source_amount)?;
        let d0_whole = compute_d(leverage, swap_token_a_amount, swap_token_b_amount)?;
        let d0 = precise_new(d0_whole)?;
        let d1_whole = compute_d(leverage, updated_withdraw_token_amount, other_token_amount)?;
        let d1 = precise_new(d1_whole)?;
        let diff = precise_checked_sub(&d0, &d1)?;
        let supply = precise_new(pool_supply)?;
        let scaled = precise_checked_mul(&diff, &supply)?;
        precise_checked_div(&scaled, &d0)
    }

    /// Whether `withdraw_single_token_type_exact_out` can round its result to
    /// a whole amount: whether its precondition holds for these arguments.
    pub fn withdraw_single_token_type_exact_out_fits(
        &self,
        source_amount: u128,
        swap_token_a_amount: u128,
        swap_token_b_amount: u128,
        pool_supply: u128,
        trade_direction: TradeDirection,
        round_direction: RoundDirection,
    ) -> (r: bool)
        ensures
            r == (source_amount == 0 || match round_direction {
                RoundDirection::Floor => floor_fits(
                    stable_withdraw_share_of(
                        self.amp as int,
                        source_amount as int,
                        swap_token_a_amount as int,
                        swap_token_b_amount as int,
                        pool_supply as int,
                        trade_direction,
                    ),
                ),
                RoundDirection::Ceiling => ceiling_fits(
                    stable_withdraw_share_of(
                        self.amp as int,
                        source_amount as int,
                        swap_token_a_amount as int,
                        swap_token_b_amount as int,
                        pool_supply as int,
                        trade_direction,
                    ),
                ),
            }),
    {
        if source_amount == 0 {
            return true;
        }
        match self.withdraw_share(
            source_amount,
            swap_token_a_amount,
            swap_token_b_amount,
            pool_supply,
            trade_direction,
        ) {
            None => true,
            Some(share) => match round_direction {
                RoundDirection::Floor => floored_fits(&share),
                RoundDirection::Ceiling => match precise_ceiling(&share) {
                    None => true,
                    Some(ceiled) => to_imprecise_fits(&ceiled),
                },
            },
        }
    }

    /// The normalized value of the stable curve: its invariant D as a precise number.
    pub fn normalized_value(&self, swap_token_a_amount: u128, swap_token_b_amount: u128) -> (r:
        Option<Precise>)
        ensures
            opt_raw(r) == (if self.amp * 2 > u64::MAX {
                None
            } else {
                match compute_d_of(self.amp * 2, swap_token_a_amount as int, swap_token_b_amount as int) {
                    Some(d) => Some(d * precise_one()),
                    None => None,
                }
            }),
    {
        let leverage = compute_a(self.amp)?;
        let d = compute_d(leverage, swap_token_a_amount, swap_token_b_amount)?;
        let r = precise_new(d);
        proof {
            assert(d * precise_one() < wide_limit()) by (nonlinear_arith)
                requires
                    0 <= d < pow128(),
            ;
        }
        r
    }

    /// Validate that the amplifier lies between `MIN_AMP` and `MAX_AMP`, both included
    pub fn validate(&self) -> (r: Result<(), SwapError>)
        ensures
            r is Ok <==> stable_amp_is_valid(self.amp as int),
            r is Err ==> r->Err_0 == SwapError::InvalidCurve,
    {
        if self.amp < MIN_AMP {
            return Err(SwapError::InvalidCurve);
        }
        if self.amp > MAX_AMP {
            return Err(SwapError::InvalidCurve);
        }
        Ok(())
    }
}

} // verus!
