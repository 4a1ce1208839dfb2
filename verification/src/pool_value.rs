//! The value of a pool token across the instructions that move a pool's
//! amounts: over any sequence of them on constant product, offset and
//! constant price pools, and over deposits and withdrawals on stable pools

use vstd::prelude::*;

use crate::curve::base::{
    calculator_trading_tokens_of, swap_of, swap_without_fees_of, CurveCalculator,
};
use crate::curve::calculator::{RoundDirection, TradeDirection};
use crate::curve::constant_price::{
    constant_price_swap_of, constant_price_trading_tokens_of, constant_price_value_of,
};
use crate::curve::constant_product::{constant_product_swap_of, lemma_constant_product_swap_keeps_product};
use crate::curve::fees::u128_max;
use crate::curve::fees::Fees;
use crate::curve::math::{
    ceil_div_pair, lemma_ceil_div_pair, lemma_trading_tokens_rounding, trading_tokens_of,
};
use crate::transfer_fee::u64_max;
use crate::curve::stable::stable_curve_gap;
use crate::instructions::{deposit_all_token_types_of, lemma_deposit_pays_share};

verus! {

/// An instruction that moves a pool's amounts or its pool token supply.
#[derive(Debug, Clone, Copy, PartialEq, Eq, Structural)]
pub enum PoolStep {
    /// A swap of `amount_in` source tokens (what arrives after transfer
    /// fees), from token A to token B or back
    Swap {
        /// Source tokens offered
        amount_in: u64,
        /// Whether token A is the source
        a_to_b: bool,
    },
    /// A deposit of both tokens for `pool_token_amount` pool tokens
    Deposit {
        /// Pool tokens asked for
        pool_token_amount: u64,
        /// Most token A the depositor pays
        maximum_token_a_amount: u64,
        /// Most token B the depositor pays
        maximum_token_b_amount: u64,
    },
    /// A withdrawal of both tokens for `pool_token_amount` burnt pool tokens
    Withdraw {
        /// Pool tokens burnt
        pool_token_amount: u64,
    },
}

/// A pool's token A amount, token B amount and pool token supply after
/// `step`; a step that fails leaves them as they were. A step fails where it
/// would take a vault above `u64::MAX`, as its token transfer would.
pub open spec fn pool_step_of(
    calculator: CurveCalculator,
    fees: Fees,
    pool: (int, int, int),
    step: PoolStep,
) -> (int, int, int) {
    let next = pool_step_effect_of(calculator, fees, pool, step);
    if next.0 > u64_max() || next.1 > u64_max() {
        pool
    } else {
        next
    }
}

/// What `step` does to a pool's amounts and supply as its instruction
/// decides it: a failing instruction changes nothing. A withdrawal fails
/// where a vault cannot pay it out; a withdrawal of the whole supply, which
/// leaves no pool token to value, is taken to fail too.
pub open spec fn pool_step_effect_of(
    calculator: CurveCalculator,
    fees: Fees,
    pool: (int, int, int),
    step: PoolStep,
) -> (int, int, int) {
    let (a, b, supply) = pool;
    match step {
        PoolStep::Swap { amount_in, a_to_b } => {
            let (source, destination, direction) = if a_to_b {
                (a, b, TradeDirection::AtoB)
            } else {
                (b, a, TradeDirection::BtoA)
            };
            match swap_of(calculator, amount_in as int, source, destination, direction, fees) {
                Ok(res) => if a_to_b {
                    (
                        res.new_pool_source_amount as int,
                        res.new_pool_destination_amount as int,
                        supply,
                    )
                } else {
                    (
                        res.new_pool_destination_amount as int,
                        res.new_pool_source_amount as int,
                        supply,
                    )
                },
                Err(_) => pool,
            }
        },
        PoolStep::Deposit { pool_token_amount, maximum_token_a_amount, maximum_token_b_amount } => {
            match deposit_all_token_types_of(
                false,
                calculator,
                supply,
                a,
                b,
                pool_token_amount as int,
                maximum_token_a_amount as int,
                maximum_token_b_amount as int,
            ) {
                Ok(d) => (
                    a + d.token_a_amount,
                    b + d.token_b_amount,
                    supply + d.pool_token_amount,
                ),
                Err(_) => pool,
            }
        },
        PoolStep::Withdraw { pool_token_amount } => if pool_token_amount >= supply {
            pool
        } else {
            match calculator_trading_tokens_of(
                calculator,
                pool_token_amount as int,
                supply,
                a,
                b,
                RoundDirection::Floor,
            ) {
                Ok(t) => if t.token_a_amount > a || t.token_b_amount > b {
                    pool
                } else {
                    (a - t.token_a_amount, b - t.token_b_amount, supply - pool_token_amount)
                },
                Err(_) => pool,
            }
        },
    }
}

/// A pool after each of `steps` in turn.
pub open spec fn pool_steps_of(
    calculator: CurveCalculator,
    fees: Fees,
    pool: (int, int, int),
    steps: Seq<PoolStep>,
) -> (int, int, int)
    decreases steps.len(),
{
    if steps.len() == 0 {
        pool
    } else {
        pool_steps_of(
            calculator,
            fees,
            pool_step_of(calculator, fees, pool, steps[0]),
            steps.subrange(1, steps.len() as int),
        )
    }
}

/// Whether a pool holds amounts and has pool tokens out.
pub open spec fn pool_holds(pool: (int, int, int)) -> bool {
    pool.0 >= 0 && pool.1 >= 0 && pool.2 > 0
}

/// Whether a pool holds amounts that its vaults can hold, and has pool
/// tokens out.
pub open spec fn pool_is_live(pool: (int, int, int)) -> bool {
    pool_holds(pool) && pool.0 <= u64_max() && pool.1 <= u64_max()
}

/// Whether a pool token is worth at least as much in `after` as in `before`,
/// its worth on a constant product pool being `sqrt(a * b) / supply`:
/// compared squared and without division.
pub open spec fn pool_token_value_le(before: (int, int, int), after: (int, int, int)) -> bool {
    before.0 * before.1 * (after.2 * after.2) <= after.0 * after.1 * (before.2 * before.2)
}

/// `x <= y` and `z <= w` for non-negative numbers give `x * z <= y * w`.
proof fn lemma_mul_le_mono(x: int, y: int, z: int, w: int)
    requires
        0 <= x <= y,
        0 <= z <= w,
    ensures
        x * z <= y * w,
{
    assert(x * z <= y * w) by (nonlinear_arith)
        requires
            0 <= x <= y,
            0 <= z <= w,
    ;
}

/// The worth of a pool token never falls over two steps if it falls over
/// neither.
proof fn lemma_pool_token_value_trans(x: (int, int, int), y: (int, int, int), z: (int, int, int))
    requires
        pool_holds(x),
        pool_holds(y),
        pool_holds(z),
        pool_token_value_le(x, y),
        pool_token_value_le(y, z),
    ensures
        pool_token_value_le(x, z),
{
    let p = x.0 * x.1;
    let q = y.0 * y.1;
    let r = z.0 * z.1;
    let xs = x.2 * x.2;
    let ys = y.2 * y.2;
    let zs = z.2 * z.2;
    assert(p >= 0 && q >= 0 && r >= 0 && xs > 0 && ys > 0 && zs > 0) by (nonlinear_arith)
        requires
            pool_holds(x),
            pool_holds(y),
            pool_holds(z),
            p == x.0 * x.1,
            q == y.0 * y.1,
            r == z.0 * z.1,
            xs == x.2 * x.2,
            ys == y.2 * y.2,
            zs == z.2 * z.2,
    ;
    assert(p * zs <= r * xs) by (nonlinear_arith)
        requires
            p * ys <= q * xs,
            q * zs <= r * ys,
            p >= 0,
            q >= 0,
            r >= 0,
            xs > 0,
            ys > 0,
            zs > 0,
    ;
}

/// The offset a curve adds to the token B side when it prices the pool:
/// the offset curve's, nothing for the others.
pub open spec fn curve_b_offset(calculator: CurveCalculator) -> int {
    match calculator {
        CurveCalculator::Offset(c) => c.token_b_offset as int,
        _ => 0,
    }
}

/// A pool as its curve prices it: token B shifted by the curve's offset.
pub open spec fn priced_pool(calculator: CurveCalculator, pool: (int, int, int)) -> (int, int, int) {
    (pool.0, pool.1 + curve_b_offset(calculator), pool.2)
}

/// What one step does to a constant product or offset pool that holds
/// amounts leaves it holding amounts and never lowers the worth of a pool
/// token, as the curve prices the pool.
proof fn lemma_product_step_keeps_value(fees: Fees, calculator: CurveCalculator, pool: (int, int, int), step: PoolStep)
    requires
        calculator is ConstantProduct || calculator is Offset,
        pool_holds(pool),
    ensures
        pool_holds(pool_step_effect_of(calculator, fees, pool, step)),
        pool_token_value_le(
            priced_pool(calculator, pool),
            priced_pool(calculator, pool_step_effect_of(calculator, fees, pool, step)),
        ),
{
    let (a, b, s) = pool;
    let off = curve_b_offset(calculator);
    assert(off >= 0);
    let next = pool_step_effect_of(calculator, fees, pool, step);
    let ss = s * s;
    assert(ss > 0) by (nonlinear_arith)
        requires
            s > 0,
            ss == s * s,
    ;
    if next == pool {
        assert(pool_token_value_le(priced_pool(calculator, pool), priced_pool(calculator, pool)));
        return;
    }
    match step {
        PoolStep::Swap { amount_in, a_to_b } => {
            let (source, destination, direction) = if a_to_b {
                (a, b, TradeDirection::AtoB)
            } else {
                (b, a, TradeDirection::BtoA)
            };
            let res = swap_of(calculator, amount_in as int, source, destination, direction, fees)->Ok_0;
            let trade_fee = fees.trading_fee_of(amount_in as int)->Some_0;
            let owner_fee = fees.owner_trading_fee_of(amount_in as int)->Some_0;
            lemma_fee_non_negative(amount_in as int, fees.trade_fee_numerator as int, fees.trade_fee_denominator as int);
            lemma_fee_non_negative(amount_in as int, fees.owner_trade_fee_numerator as int, fees.owner_trade_fee_denominator as int);
            let offered = amount_in - (trade_fee + owner_fee);
            // the constant product swap the curve runs, on the priced amounts
            let (vs, vd) = if a_to_b {
                (a, b + off)
            } else {
                (b + off, a)
            };
            assert(swap_without_fees_of(calculator, offered, source, destination, direction)
                == constant_product_swap_of(offered, vs, vd));
            assert(constant_product_swap_of(offered, vs, vd) is Ok);
            lemma_constant_product_swap_keeps_product(offered, vs, vd);
            let inner = constant_product_swap_of(offered, vs, vd)->Ok_0;
            let swapped = inner.source_amount_swapped as int;
            let out = inner.destination_amount_swapped as int;
            assert(res.new_pool_source_amount == source + swapped + trade_fee);
            assert(res.new_pool_destination_amount == destination - out);
            lemma_mul_le_mono(vs + swapped, vs + swapped + trade_fee, vd - out, vd - out);
            let before = vs * vd;
            let after = (vs + swapped + trade_fee) * (vd - out);
            assert(before <= after);
            lemma_mul_le_mono(before, after, ss, ss);
            assert(a * (b + off) == (b + off) * a) by (nonlinear_arith);
            assert((vd - out) * (vs + swapped + trade_fee) == (vs + swapped + trade_fee) * (vd
                - out)) by (nonlinear_arith);
        },
        PoolStep::Deposit { pool_token_amount, maximum_token_a_amount, maximum_token_b_amount } => {
            assert(calculator is ConstantProduct);
            let p = pool_token_amount as int;
            lemma_deposit_pays_share(
                calculator,
                s,
                a,
                b,
                p,
                maximum_token_a_amount as int,
                maximum_token_b_amount as int,
            );
            let d = deposit_all_token_types_of(
                false,
                calculator,
                s,
                a,
                b,
                p,
                maximum_token_a_amount as int,
                maximum_token_b_amount as int,
            )->Ok_0;
            let da = d.token_a_amount as int;
            let db = d.token_b_amount as int;
            let dp = d.pool_token_amount as int;
            assert(da * s >= dp * a && db * s >= dp * b);
            // each side grows at least as fast as the supply
            assert(a * (s + dp) <= (a + da) * s && b * (s + dp) <= (b + db) * s) by (nonlinear_arith)
                requires
                    da * s >= dp * a,
                    db * s >= dp * b,
            ;
            assert(a * (s + dp) >= 0 && b * (s + dp) >= 0) by (nonlinear_arith)
                requires
                    a >= 0,
                    b >= 0,
                    s > 0,
                    dp >= 0,
            ;
            lemma_mul_le_mono(a * (s + dp), (a + da) * s, b * (s + dp), (b + db) * s);
            assert(a * b * ((s + dp) * (s + dp)) <= (a + da) * (b + db) * (s * s)) by (nonlinear_arith)
                requires
                    (a * (s + dp)) * (b * (s + dp)) <= ((a + da) * s) * ((b + db) * s),
            ;
        },
        PoolStep::Withdraw { pool_token_amount } => {
            let p = pool_token_amount as int;
            let vb = b + off;
            assert(p < s);
            assert(calculator_trading_tokens_of(calculator, p, s, a, b, RoundDirection::Floor)
                == trading_tokens_of(p, s, a, vb, RoundDirection::Floor));
            assert(trading_tokens_of(p, s, a, vb, RoundDirection::Floor) is Ok);
            lemma_trading_tokens_rounding(p, s, a, vb);
            let t = trading_tokens_of(p, s, a, vb, RoundDirection::Floor)->Ok_0;
            let ta = t.token_a_amount as int;
            let tb = t.token_b_amount as int;
            assert(ta <= a && tb <= b);
            assert(ta * s <= p * a && tb * s <= p * vb);
            // each side shrinks at most as fast as the supply
            assert(a * (s - p) <= (a - ta) * s && vb * (s - p) <= (vb - tb) * s) by (nonlinear_arith)
                requires
                    ta * s <= p * a,
                    tb * s <= p * vb,
            ;
            assert(a * (s - p) >= 0 && vb * (s - p) >= 0) by (nonlinear_arith)
                requires
                    a >= 0,
                    vb >= 0,
                    s > p,
            ;
            lemma_mul_le_mono(a * (s - p), (a - ta) * s, vb * (s - p), (vb - tb) * s);
            assert(a * vb * ((s - p) * (s - p)) <= (a - ta) * (vb - tb) * (s * s)) by (nonlinear_arith)
                requires
                    (a * (s - p)) * (vb * (s - p)) <= ((a - ta) * s) * ((vb - tb) * s),
            ;
        },
    }
}

/// A fee is never negative.
proof fn lemma_fee_non_negative(amount: int, numerator: int, denominator: int)
    requires
        amount >= 0,
        numerator >= 0,
        denominator >= 0,
        crate::curve::fees::fee_of(amount, numerator, denominator) is Some,
    ensures
        crate::curve::fees::fee_of(amount, numerator, denominator)->Some_0 >= 0,
{
    if numerator != 0 && amount != 0 && denominator != 0 {
        assert(amount * numerator / denominator >= 0) by (nonlinear_arith)
            requires
                amount >= 0,
                numerator >= 0,
                denominator > 0,
        ;
    }
}

/// Half a constant price pool's value counted in token A, rounded down: the
/// pool's normalized value on that curve.
pub open spec fn constant_price_worth(token_b_price: int, pool: (int, int, int)) -> int {
    (pool.0 + pool.1 * token_b_price) / 2
}

/// Whether a pool token is worth at least as much in `after` as in `before`,
/// as the pool's curve values the pool: its normalized value per pool token,
/// compared without division. On a constant price curve that is the pool's
/// value in token A, halved; on a constant product or offset curve it is
/// `sqrt(a * (b + offset))`, compared squared.
pub open spec fn pool_worth_le(
    calculator: CurveCalculator,
    before: (int, int, int),
    after: (int, int, int),
) -> bool {
    match calculator {
        CurveCalculator::ConstantPrice(c) => constant_price_worth(c.token_b_price as int, before)
            * after.2 <= constant_price_worth(c.token_b_price as int, after) * before.2,
        _ => pool_token_value_le(priced_pool(calculator, before), priced_pool(calculator, after)),
    }
}

/// On a constant price pool, a worth per pool token that never falls over
/// two steps never falls over both.
proof fn lemma_worth_per_token_trans(m1: int, s1: int, m2: int, s2: int, m3: int, s3: int)
    requires
        m1 >= 0,
        m2 >= 0,
        m3 >= 0,
        s1 > 0,
        s2 > 0,
        s3 > 0,
        m1 * s2 <= m2 * s1,
        m2 * s3 <= m3 * s2,
    ensures
        m1 * s3 <= m3 * s1,
{
    assert(m1 * s3 <= m3 * s1) by (nonlinear_arith)
        requires
            m1 >= 0,
            m2 >= 0,
            m3 >= 0,
            s1 > 0,
            s2 > 0,
            s3 > 0,
            m1 * s2 <= m2 * s1,
            m2 * s3 <= m3 * s2,
    ;
}

/// What one step does to a live constant price pool leaves it holding
/// amounts and never lowers its worth per pool token.
proof fn lemma_constant_price_step_keeps_value(
    fees: Fees,
    calculator: CurveCalculator,
    pool: (int, int, int),
    step: PoolStep,
)
    requires
        calculator is ConstantPrice,
        pool_is_live(pool),
    ensures
        pool_holds(pool_step_effect_of(calculator, fees, pool, step)),
        pool_worth_le(calculator, pool, pool_step_effect_of(calculator, fees, pool, step)),
{
    let (a, b, s) = pool;
    let price = calculator->ConstantPrice_0.token_b_price as int;
    let next = pool_step_effect_of(calculator, fees, pool, step);
    let value = a + b * price;
    let m = value / 2;
    assert(b * price >= 0 && value >= 0 && m >= 0) by (nonlinear_arith)
        requires
            a >= 0,
            b >= 0,
            price >= 0,
            value == a + b * price,
            m == value / 2,
    ;
    assert(constant_price_worth(price, pool) == m);
    if next == pool {
        return;
    }
    match step {
        PoolStep::Swap { amount_in, a_to_b } => {
            let (source, destination, direction) = if a_to_b {
                (a, b, TradeDirection::AtoB)
            } else {
                (b, a, TradeDirection::BtoA)
            };
            let res = swap_of(calculator, amount_in as int, source, destination, direction, fees)->Ok_0;
            let trade_fee = fees.trading_fee_of(amount_in as int)->Some_0;
            let owner_fee = fees.owner_trading_fee_of(amount_in as int)->Some_0;
            lemma_fee_non_negative(amount_in as int, fees.trade_fee_numerator as int, fees.trade_fee_denominator as int);
            lemma_fee_non_negative(amount_in as int, fees.owner_trade_fee_numerator as int, fees.owner_trade_fee_denominator as int);
            let offered = amount_in - (trade_fee + owner_fee);
            assert(offered >= 0);
            let inner = constant_price_swap_of(price, offered, direction)->Ok_0;
            let swapped = inner.source_amount_swapped as int;
            let out = inner.destination_amount_swapped as int;
            if a_to_b {
                assert(price > 0);
                let q = offered / price;
                let r = offered % price;
                assert(offered == price * q + r && 0 <= r < price && q >= 0) by (nonlinear_arith)
                    requires
                        price > 0,
                        offered >= 0,
                        q == offered / price,
                        r == offered % price,
                ;
                assert(swapped == offered - r);
                assert(out == q);
                assert(next.0 == a + swapped + trade_fee);
                assert(next.1 == b - out);
                assert(next.0 + next.1 * price == value + trade_fee) by (nonlinear_arith)
                    requires
                        next.0 == a + (price * q) + trade_fee,
                        next.1 == b - q,
                        value == a + b * price,
                ;
            } else {
                assert(offered * price <= u128_max());
                assert(swapped == offered);
                assert(out == offered * price);
                assert(next.1 == b + offered + trade_fee);
                assert(next.0 == a - offered * price);
                assert(next.0 + next.1 * price == value + trade_fee * price) by (nonlinear_arith)
                    requires
                        next.1 == b + offered + trade_fee,
                        next.0 == a - offered * price,
                        value == a + b * price,
                ;
                assert(trade_fee * price >= 0) by (nonlinear_arith)
                    requires
                        trade_fee >= 0,
                        price >= 0,
                ;
            }
            let m2 = (next.0 + next.1 * price) / 2;
            assert(m2 >= m);
            lemma_mul_le_mono(m, m2, s, s);
        },
        PoolStep::Deposit { pool_token_amount, maximum_token_a_amount, maximum_token_b_amount } => {
            let pt = pool_token_amount as int;
            let d = deposit_all_token_types_of(
                false,
                calculator,
                s,
                a,
                b,
                pt,
                maximum_token_a_amount as int,
                maximum_token_b_amount as int,
            )->Ok_0;
            assert(constant_price_value_of(price, a, b) == Some(m));
            let worth = pt * m;
            let t = constant_price_trading_tokens_of(price, pt, s, m, RoundDirection::Ceiling)->Ok_0;
            let (ta_pair, _) = ceil_div_pair(worth, s)->Some_0;
            let (worth_b, _) = ceil_div_pair(worth, price)->Some_0;
            let (tb_pair, _) = ceil_div_pair(worth_b, s)->Some_0;
            assert(worth >= 0) by (nonlinear_arith)
                requires
                    pt >= 0,
                    m >= 0,
                    worth == pt * m,
            ;
            lemma_ceil_div_pair(worth, s);
            assert(price > 0);
            lemma_ceil_div_pair(worth, price);
            lemma_ceil_div_pair(worth_b, s);
            assert(t.token_a_amount == ta_pair && t.token_b_amount == tb_pair);
            let u = ta_pair;
            let w = tb_pair * price;
            assert(u * s >= pt * m);
            assert(w * s >= pt * m) by (nonlinear_arith)
                requires
                    tb_pair * s >= worth_b,
                    worth_b * price >= worth,
                    worth == pt * m,
                    w == tb_pair * price,
                    price > 0,
            ;
            let c = if u < w {
                u
            } else {
                w
            };
            assert(c * s >= pt * m);
            assert(next == (a + u, b + tb_pair, s + pt));
            assert(next.0 + next.1 * price == value + u + w) by (nonlinear_arith)
                requires
                    next.0 == a + u,
                    next.1 == b + tb_pair,
                    w == tb_pair * price,
                    value == a + b * price,
            ;
            assert(u >= 0 && w >= 0);
            let m2 = (value + u + w) / 2;
            assert(m2 >= m + c);
            assert(m * (s + pt) <= m2 * s) by (nonlinear_arith)
                requires
                    m2 >= m + c,
                    c * s >= pt * m,
                    s > 0,
            ;
        },
        PoolStep::Withdraw { pool_token_amount } => {
            let pt = pool_token_amount as int;
            assert(pt < s);
            assert(constant_price_value_of(price, a, b) == Some(m));
            let worth = pt * m;
            assert(worth >= 0) by (nonlinear_arith)
                requires
                    pt >= 0,
                    m >= 0,
                    worth == pt * m,
            ;
            assert(price > 0);
            let u = worth / s;
            let tb = worth / price / s;
            let w = tb * price;
            assert(u * s <= pt * m && u >= 0) by (nonlinear_arith)
                requires
                    u == worth / s,
                    worth == pt * m,
                    worth >= 0,
                    s > 0,
            ;
            assert(w * s <= pt * m && w >= 0) by (nonlinear_arith)
                requires
                    tb == worth / price / s,
                    w == tb * price,
                    worth == pt * m,
                    worth >= 0,
                    s > 0,
                    price > 0,
            {
                assert(tb * s <= worth / price) by (nonlinear_arith)
                    requires
                        tb == worth / price / s,
                        worth / price >= 0,
                        s > 0,
                ;
                assert((worth / price) * price <= worth) by (nonlinear_arith)
                    requires
                        worth >= 0,
                        price > 0,
                ;
                assert(worth / price >= 0) by (nonlinear_arith)
                    requires
                        worth >= 0,
                        price > 0,
                ;
                assert(tb >= 0) by (nonlinear_arith)
                    requires
                        tb == worth / price / s,
                        worth / price >= 0,
                        s > 0,
                ;
                assert(tb * s * price <= (worth / price) * price) by (nonlinear_arith)
                    requires
                        tb * s <= worth / price,
                        price > 0,
                ;
            }
            assert(next == (a - u, b - tb, s - pt));
            let c = if u < w {
                w
            } else {
                u
            };
            assert(c * s <= pt * m);
            assert(next.0 + next.1 * price == value - u - w) by (nonlinear_arith)
                requires
                    next.0 == a - u,
                    next.1 == b - tb,
                    w == tb * price,
                    value == a + b * price,
            ;
            let m2 = (value - u - w) / 2;
            assert(m2 >= m - c);
            assert(m * (s - pt) <= m2 * s) by (nonlinear_arith)
                requires
                    m2 >= m - c,
                    c * s <= pt * m,
                    s > 0,
            ;
        },
    }
}

/// One step on a live pool of any curve but the stable one leaves it live
/// and never lowers the worth of a pool token.
proof fn lemma_pool_step_keeps_value(
    fees: Fees,
    calculator: CurveCalculator,
    pool: (int, int, int),
    step: PoolStep,
)
    requires
        !(calculator is Stable),
        pool_is_live(pool),
    ensures
        pool_is_live(pool_step_of(calculator, fees, pool, step)),
        pool_worth_le(calculator, pool, pool_step_of(calculator, fees, pool, step)),
{
    let next = pool_step_of(calculator, fees, pool, step);
    if calculator is ConstantPrice {
        lemma_constant_price_step_keeps_value(fees, calculator, pool, step);
    } else {
        lemma_product_step_keeps_value(fees, calculator, pool, step);
    }
    if next == pool {
        if calculator is ConstantPrice {
            let m = constant_price_worth(calculator->ConstantPrice_0.token_b_price as int, pool);
            assert(m * pool.2 <= m * pool.2);
        } else {
            assert(pool_token_value_le(priced_pool(calculator, pool), priced_pool(calculator, pool)));
        }
    }
}

/// On a pool of any curve but the stable one that holds amounts and has
/// pool tokens out, the worth of one pool token never falls over any
/// sequence of swaps, deposits and withdrawals, each succeeding or failing:
/// the pool's normalized value per pool token, `sqrt(a * (b + offset))` on
/// constant product and offset curves (the offset curve's offset, nothing on
/// constant product), and half its value in token A, rounded down, on a
/// constant price curve. A withdrawal of the whole supply is left out: after
/// it no pool token is left to value. On a stable pool, deposits and
/// withdrawals keep the worth (`lemma_stable_deposit_keeps_value`,
/// `lemma_stable_withdraw_keeps_value`) and a swap keeps the pool on the
/// curve it was priced at but for one rounding
/// (`lemma_stable_swap_keeps_curve`).
pub proof fn lemma_pool_token_value_never_falls(
    calculator: CurveCalculator,
    fees: Fees,
    pool: (int, int, int),
    steps: Seq<PoolStep>,
)
    requires
        !(calculator is Stable),
        pool_is_live(pool),
    ensures
        pool_is_live(pool_steps_of(calculator, fees, pool, steps)),
        pool_worth_le(calculator, pool, pool_steps_of(calculator, fees, pool, steps)),
    decreases steps.len(),
{
    if steps.len() == 0 {
        lemma_pool_step_keeps_value(fees, calculator, pool, PoolStep::Withdraw { pool_token_amount: 0 });
        if calculator is ConstantPrice {
            let m = constant_price_worth(calculator->ConstantPrice_0.token_b_price as int, pool);
            assert(m * pool.2 <= m * pool.2);
        } else {
            assert(pool_token_value_le(priced_pool(calculator, pool), priced_pool(calculator, pool)));
        }
    } else {
        let next = pool_step_of(calculator, fees, pool, steps[0]);
        lemma_pool_step_keeps_value(fees, calculator, pool, steps[0]);
        lemma_pool_token_value_never_falls(
            calculator,
            fees,
            next,
            steps.subrange(1, steps.len() as int),
        );
        let last = pool_steps_of(calculator, fees, next, steps.subrange(1, steps.len() as int));
        if calculator is ConstantPrice {
            let price = calculator->ConstantPrice_0.token_b_price as int;
            lemma_constant_price_worth_non_negative(price, pool);
            lemma_constant_price_worth_non_negative(price, next);
            lemma_constant_price_worth_non_negative(price, last);
            lemma_worth_per_token_trans(
                constant_price_worth(price, pool),
                pool.2,
                constant_price_worth(price, next),
                next.2,
                constant_price_worth(price, last),
                last.2,
            );
        } else {
            assert(curve_b_offset(calculator) >= 0);
            lemma_pool_token_value_trans(
                priced_pool(calculator, pool),
                priced_pool(calculator, next),
                priced_pool(calculator, last),
            );
        }
    }
}

/// A constant price pool that holds amounts has a worth that is not negative.
proof fn lemma_constant_price_worth_non_negative(token_b_price: int, pool: (int, int, int))
    requires
        token_b_price >= 0,
        pool_holds(pool),
    ensures
        constant_price_worth(token_b_price, pool) >= 0,
{
    assert((pool.0 + pool.1 * token_b_price) / 2 >= 0) by (nonlinear_arith)
        requires
            token_b_price >= 0,
            pool.0 >= 0,
            pool.1 >= 0,
    ;
}

/// The gap to a stable swap curve grows with the pool's amounts, from a pool
/// whose amounts are worth at least the invariant's linear term.
proof fn lemma_stable_gap_monotone(leverage: int, x0: int, y0: int, x: int, y: int, d: int)
    requires
        leverage >= 1,
        0 <= x0 <= x,
        0 <= y0 <= y,
        leverage * (x0 + y0) >= (leverage - 1) * d,
    ensures
        stable_curve_gap(leverage, x, y, d) >= stable_curve_gap(leverage, x0, y0, d),
{
    let f0 = leverage * (x0 + y0) - (leverage - 1) * d;
    let f = leverage * (x + y) - (leverage - 1) * d;
    assert(f >= f0 >= 0) by (nonlinear_arith)
        requires
            leverage >= 1,
            x0 <= x,
            y0 <= y,
            f0 == leverage * (x0 + y0) - (leverage - 1) * d,
            f == leverage * (x + y) - (leverage - 1) * d,
            f0 >= 0,
    ;
    lemma_mul_le_mono(x0, x, y0, y);
    lemma_mul_le_mono(x0 * y0, x * y, f0, f);
    assert(4 * x0 * y0 * f0 <= 4 * x * y * f) by (nonlinear_arith)
        requires
            (x0 * y0) * f0 <= (x * y) * f,
    ;
}

/// Scaling a pool and its invariant by `k` scales the gap by `k^3`.
proof fn lemma_stable_gap_scale(leverage: int, x: int, y: int, d: int, k: int)
    ensures
        stable_curve_gap(leverage, k * x, k * y, k * d) == k * k * k * stable_curve_gap(
            leverage,
            x,
            y,
            d,
        ),
{
    let f = leverage * (x + y) - (leverage - 1) * d;
    assert(leverage * (k * x + k * y) - (leverage - 1) * (k * d) == k * f) by (nonlinear_arith)
        requires
            f == leverage * (x + y) - (leverage - 1) * d,
    ;
    assert(4 * (k * x) * (k * y) * (k * f) == k * k * k * (4 * x * y * f)) by (nonlinear_arith);
    assert((k * d) * (k * d) * (k * d) == k * k * k * (d * d * d)) by (nonlinear_arith);
    assert(k * k * k * (4 * x * y * f) - k * k * k * (d * d * d) == k * k * k * (4 * x * y * f - d
        * d * d)) by (nonlinear_arith);
}

/// A pool on or above a stable swap curve holds at least the invariant's
/// linear term.
proof fn lemma_stable_gap_linear_term(leverage: int, x: int, y: int, d: int)
    requires
        leverage >= 1,
        x >= 0,
        y >= 0,
        d >= 0,
        stable_curve_gap(leverage, x, y, d) >= 0,
    ensures
        leverage * (x + y) >= (leverage - 1) * d,
{
    let f = leverage * (x + y) - (leverage - 1) * d;
    assert(d * d * d >= 0) by (nonlinear_arith)
        requires
            d >= 0,
    ;
    if x * y == 0 {
        assert(4 * x * y * f == 0) by (nonlinear_arith)
            requires
                x * y == 0,
        ;
        assert(d == 0) by (nonlinear_arith)
            requires
                -(d * d * d) >= 0,
                d >= 0,
        ;
    } else {
        assert(x * y > 0) by (nonlinear_arith)
            requires
                x >= 0,
                y >= 0,
                x * y != 0,
        ;
        assert(f >= 0) by (nonlinear_arith)
            requires
                4 * x * y * f >= d * d * d,
                d * d * d >= 0,
                x * y > 0,
        ;
    }
}

/// Moving a stable pool's amounts to `x2` and `y2`, each at least
/// `ratio_num / ratio_den` of what it was, keeps the pool on or above the
/// curve of its invariant scaled by the same ratio.
proof fn lemma_stable_scaled_curve(
    leverage: int,
    x: int,
    y: int,
    d: int,
    x2: int,
    y2: int,
    ratio_num: int,
    ratio_den: int,
)
    requires
        leverage >= 1,
        x >= 0,
        y >= 0,
        d >= 0,
        ratio_num >= 0,
        ratio_den > 0,
        stable_curve_gap(leverage, x, y, d) >= 0,
        ratio_den * x2 >= ratio_num * x,
        ratio_den * y2 >= ratio_num * y,
    ensures
        stable_curve_gap(leverage, ratio_den * x2, ratio_den * y2, ratio_num * d) >= 0,
{
    lemma_stable_gap_linear_term(leverage, x, y, d);
    lemma_stable_gap_scale(leverage, x, y, d, ratio_num);
    let g = stable_curve_gap(leverage, x, y, d);
    assert(ratio_num * ratio_num * ratio_num * g >= 0) by (nonlinear_arith)
        requires
            ratio_num >= 0,
            g >= 0,
    ;
    assert(ratio_num * x >= 0 && ratio_num * y >= 0) by (nonlinear_arith)
        requires
            ratio_num >= 0,
            x >= 0,
            y >= 0,
    ;
    assert(leverage * (ratio_num * x + ratio_num * y) >= (leverage - 1) * (ratio_num * d))
        by (nonlinear_arith)
        requires
            leverage * (x + y) >= (leverage - 1) * d,
            ratio_num >= 0,
    ;
    lemma_stable_gap_monotone(
        leverage,
        ratio_num * x,
        ratio_num * y,
        ratio_den * x2,
        ratio_den * y2,
        ratio_num * d,
    );
}

/// A deposit of both tokens into a stable pool never lowers what a pool
/// token is worth: if the pool was on or above the curve of invariant `d`
/// (`d / supply` per pool token), then after the deposit it is on or above
/// the curve of `d * new_supply / supply`, written here scaled by `supply`.
pub proof fn lemma_stable_deposit_keeps_value(
    calculator: CurveCalculator,
    pool_mint_supply: int,
    token_a_vault_amount: int,
    token_b_vault_amount: int,
    pool_token_amount: int,
    maximum_token_a_amount: int,
    maximum_token_b_amount: int,
    leverage: int,
    d: int,
)
    requires
        calculator is Stable,
        leverage >= 1,
        pool_mint_supply > 0,
        token_a_vault_amount >= 0,
        token_b_vault_amount >= 0,
        pool_token_amount >= 0,
        d >= 0,
        stable_curve_gap(leverage, token_a_vault_amount, token_b_vault_amount, d) >= 0,
        deposit_all_token_types_of(
            false,
            calculator,
            pool_mint_supply,
            token_a_vault_amount,
            token_b_vault_amount,
            pool_token_amount,
            maximum_token_a_amount,
            maximum_token_b_amount,
        ) is Ok,
    ensures
        ({
            let deposit = deposit_all_token_types_of(
                false,
                calculator,
                pool_mint_supply,
                token_a_vault_amount,
                token_b_vault_amount,
                pool_token_amount,
                maximum_token_a_amount,
                maximum_token_b_amount,
            )->Ok_0;
            stable_curve_gap(
                leverage,
                pool_mint_supply * (token_a_vault_amount + deposit.token_a_amount),
                pool_mint_supply * (token_b_vault_amount + deposit.token_b_amount),
                (pool_mint_supply + deposit.pool_token_amount) * d,
            ) >= 0
        }),
{
    lemma_deposit_pays_share(
        calculator,
        pool_mint_supply,
        token_a_vault_amount,
        token_b_vault_amount,
        pool_token_amount,
        maximum_token_a_amount,
        maximum_token_b_amount,
    );
    let deposit = deposit_all_token_types_of(
        false,
        calculator,
        pool_mint_supply,
        token_a_vault_amount,
        token_b_vault_amount,
        pool_token_amount,
        maximum_token_a_amount,
        maximum_token_b_amount,
    )->Ok_0;
    let s = pool_mint_supply;
    let p = deposit.pool_token_amount as int;
    let a = token_a_vault_amount;
    let b = token_b_vault_amount;
    let da = deposit.token_a_amount as int;
    let db = deposit.token_b_amount as int;
    assert(s * (a + da) >= (s + p) * a && s * (b + db) >= (s + p) * b) by (nonlinear_arith)
        requires
            da * s >= p * a,
            db * s >= p * b,
    ;
    lemma_stable_scaled_curve(leverage, a, b, d, a + da, b + db, s + p, s);
}

/// A withdrawal of both tokens from a stable pool, rounded down as the
/// curve rounds it, never lowers what a pool token is worth: if the pool was
/// on or above the curve of invariant `d`, then after `pool_tokens` of its
/// `supply` are burnt it is on or above the curve of
/// `d * (supply - pool_tokens) / supply`, written here scaled by `supply`.
pub proof fn lemma_stable_withdraw_keeps_value(
    calculator: CurveCalculator,
    pool_tokens: int,
    supply: int,
    token_a_vault_amount: int,
    token_b_vault_amount: int,
    leverage: int,
    d: int,
)
    requires
        calculator is Stable,
        leverage >= 1,
        0 <= pool_tokens <= supply,
        supply > 0,
        token_a_vault_amount >= 0,
        token_b_vault_amount >= 0,
        d >= 0,
        stable_curve_gap(leverage, token_a_vault_amount, token_b_vault_amount, d) >= 0,
        calculator_trading_tokens_of(
            calculator,
            pool_tokens,
            supply,
            token_a_vault_amount,
            token_b_vault_amount,
            RoundDirection::Floor,
        ) is Ok,
    ensures
        ({
            let t = calculator_trading_tokens_of(
                calculator,
                pool_tokens,
                supply,
                token_a_vault_amount,
                token_b_vault_amount,
                RoundDirection::Floor,
            )->Ok_0;
            stable_curve_gap(
                leverage,
                supply * (token_a_vault_amount - t.token_a_amount),
                supply * (token_b_vault_amount - t.token_b_amount),
                (supply - pool_tokens) * d,
            ) >= 0
        }),
{
    let a = token_a_vault_amount;
    let b = token_b_vault_amount;
    let s = supply;
    let p = pool_tokens;
    lemma_trading_tokens_rounding(p, s, a, b);
    let t = trading_tokens_of(p, s, a, b, RoundDirection::Floor)->Ok_0;
    let ta = t.token_a_amount as int;
    let tb = t.token_b_amount as int;
    assert(s * (a - ta) >= (s - p) * a && s * (b - tb) >= (s - p) * b) by (nonlinear_arith)
        requires
            ta * s <= p * a,
            tb * s <= p * b,
    ;
    lemma_stable_scaled_curve(leverage, a, b, d, a - ta, b - tb, s - p, s);
}

/// Whether a stable pool is worth at least `d / s0` of invariant per pool
/// token: scaled by `s0`, it is on or above the curve of invariant
/// `d * supply / s0`.
pub open spec fn stable_worth_at_least(leverage: int, pool: (int, int, int), d: int, s0: int) -> bool {
    stable_curve_gap(leverage, s0 * pool.0, s0 * pool.1, pool.2 * d) >= 0
}

/// Moving a stable pool to amounts at least `ratio_num / supply` of what
/// they were, with a supply of `ratio_num`, keeps its worth per pool token.
proof fn lemma_stable_worth_moves(
    leverage: int,
    pool: (int, int, int),
    next: (int, int, int),
    d: int,
    s0: int,
)
    requires
        leverage >= 1,
        pool_holds(pool),
        pool_holds(next),
        d >= 0,
        s0 > 0,
        stable_worth_at_least(leverage, pool, d, s0),
        pool.2 * next.0 >= next.2 * pool.0,
        pool.2 * next.1 >= next.2 * pool.1,
    ensures
        stable_worth_at_least(leverage, next, d, s0),
{
    let s = pool.2;
    let x = s0 * pool.0;
    let y = s0 * pool.1;
    let x2 = s0 * next.0;
    let y2 = s0 * next.1;
    let dd = s * d;
    assert(x >= 0 && y >= 0 && dd >= 0 && next.2 >= 0) by (nonlinear_arith)
        requires
            s0 > 0,
            pool_holds(pool),
            pool_holds(next),
            d >= 0,
            x == s0 * pool.0,
            y == s0 * pool.1,
            dd == pool.2 * d,
    ;
    assert(s * x2 >= next.2 * x && s * y2 >= next.2 * y) by (nonlinear_arith)
        requires
            s * next.0 >= next.2 * pool.0,
            s * next.1 >= next.2 * pool.1,
            s0 > 0,
            x == s0 * pool.0,
            y == s0 * pool.1,
            x2 == s0 * next.0,
            y2 == s0 * next.1,
    ;
    lemma_stable_scaled_curve(leverage, x, y, dd, x2, y2, next.2, s);
    // undo the scaling by the old supply
    lemma_stable_gap_scale(leverage, x2, y2, next.2 * d, s);
    assert(next.2 * dd == s * (next.2 * d)) by (nonlinear_arith)
        requires
            dd == s * d,
    ;
    let g = stable_curve_gap(leverage, x2, y2, next.2 * d);
    assert(s * s * s > 0) by (nonlinear_arith)
        requires
            s > 0,
    ;
    assert(g >= 0) by (nonlinear_arith)
        requires
            s * s * s * g >= 0,
            s * s * s > 0,
    ;
}

/// On a stable pool, any sequence of deposits and withdrawals, each
/// succeeding or failing, keeps the worth of a pool token: a pool on or
/// above the curve of invariant `d * supply / s0` stays so as its supply
/// changes. Swaps are left out: a swap keeps the pool on the curve it was
/// priced at but for one rounding (`lemma_stable_swap_keeps_curve`), and
/// whether that rounding can lower the worth is not settled here.
pub proof fn lemma_stable_pool_token_value_never_falls(
    calculator: CurveCalculator,
    fees: Fees,
    pool: (int, int, int),
    steps: Seq<PoolStep>,
    d: int,
    s0: int,
)
    requires
        calculator is Stable,
        pool_is_live(pool),
        d >= 0,
        s0 > 0,
        stable_worth_at_least(2 * calculator->Stable_0.amp, pool, d, s0),
        calculator->Stable_0.amp >= 1,
        forall|i: int| 0 <= i < steps.len() ==> !(#[trigger] steps[i] is Swap),
    ensures
        pool_is_live(pool_steps_of(calculator, fees, pool, steps)),
        stable_worth_at_least(
            2 * calculator->Stable_0.amp,
            pool_steps_of(calculator, fees, pool, steps),
            d,
            s0,
        ),
    decreases steps.len(),
{
    if steps.len() > 0 {
        let leverage = 2 * calculator->Stable_0.amp;
        let step = steps[0];
        assert(!(step is Swap));
        let (a, b, s) = pool;
        let effect = pool_step_effect_of(calculator, fees, pool, step);
        let next = pool_step_of(calculator, fees, pool, step);
        if next != pool {
            assert(next == effect);
            match step {
                PoolStep::Deposit {
                    pool_token_amount,
                    maximum_token_a_amount,
                    maximum_token_b_amount,
                } => {
                    lemma_deposit_pays_share(
                        calculator,
                        s,
                        a,
                        b,
                        pool_token_amount as int,
                        maximum_token_a_amount as int,
                        maximum_token_b_amount as int,
                    );
                    let dep = deposit_all_token_types_of(
                        false,
                        calculator,
                        s,
                        a,
                        b,
                        pool_token_amount as int,
                        maximum_token_a_amount as int,
                        maximum_token_b_amount as int,
                    )->Ok_0;
                    let da = dep.token_a_amount as int;
                    let db = dep.token_b_amount as int;
                    let dp = dep.pool_token_amount as int;
                    assert(next == (a + da, b + db, s + dp));
                    assert(s * (a + da) >= (s + dp) * a && s * (b + db) >= (s + dp) * b)
                        by (nonlinear_arith)
                        requires
                            da * s >= dp * a,
                            db * s >= dp * b,
                    ;
                },
                PoolStep::Withdraw { pool_token_amount } => {
                    let p = pool_token_amount as int;
                    lemma_trading_tokens_rounding(p, s, a, b);
                    let t = trading_tokens_of(p, s, a, b, RoundDirection::Floor)->Ok_0;
                    let ta = t.token_a_amount as int;
                    let tb = t.token_b_amount as int;
                    assert(next == (a - ta, b - tb, s - p));
                    assert(s * (a - ta) >= (s - p) * a && s * (b - tb) >= (s - p) * b)
                        by (nonlinear_arith)
                        requires
                            ta * s <= p * a,
                            tb * s <= p * b,
                    ;
                },
                PoolStep::Swap { .. } => {},
            }
            lemma_stable_worth_moves(leverage, pool, next, d, s0);
        }
        let rest = steps.subrange(1, steps.len() as int);
        assert forall|i: int| 0 <= i < rest.len() implies !(#[trigger] rest[i] is Swap) by {
            assert(rest[i] == steps[i + 1]);
        }
        lemma_stable_pool_token_value_never_falls(calculator, fees, next, rest, d, s0);
    }
}

} // verus!
