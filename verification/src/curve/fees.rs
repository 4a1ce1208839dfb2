//! All fee information and the calculations made with it

use vstd::prelude::*;

use crate::error::SwapError;

verus! {

/// Encapsulates all fee information and calculations for swap operations
#[derive(Debug, Clone, Copy, PartialEq, Eq, Structural)]
pub struct Fees {
    /// Trade fees are extra token amounts that are held inside the token
    /// accounts during a trade, making the value of liquidity tokens rise.
    /// Trade fee numerator
    pub trade_fee_numerator: u64,
    /// Trade fee denominator
    pub trade_fee_denominator: u64,
    /// Owner trading fees are extra token amounts that are held inside the token
    /// accounts during a trade, with the equivalent in pool tokens minted to
    /// the owner of the program.
    /// Owner trade fee numerator
    pub owner_trade_fee_numerator: u64,
    /// Owner trade fee denominator
    pub owner_trade_fee_denominator: u64,
    /// Owner withdraw fees are extra liquidity pool token amounts that are
    /// sent to the owner on every withdrawal.
    /// Owner withdraw fee numerator
    pub owner_withdraw_fee_numerator: u64,
    /// Owner withdraw fee denominator
    pub owner_withdraw_fee_denominator: u64,
    /// Host fees are a proportion of the owner trading fees, sent to an
    /// extra account provided during the trade.
    /// Host trading fee numerator
    pub host_fee_numerator: u64,
    /// Host trading fee denominator
    pub host_fee_denominator: u64,
}

impl Default for Fees {
    fn default() -> (r: Fees)
        ensures
            r == Fees::zero(),
    {
        Fees {
            trade_fee_numerator: 0,
            trade_fee_denominator: 0,
            owner_trade_fee_numerator: 0,
            owner_trade_fee_denominator: 0,
            owner_withdraw_fee_numerator: 0,
            owner_withdraw_fee_denominator: 0,
            host_fee_numerator: 0,
            host_fee_denominator: 0,
        }
    }
}

/// The largest value a `u128` holds, as a mathematical integer.
pub open spec fn u128_max() -> int {
    340282366920938463463374607431768211455
}

/// The fee charged on `amount` at the rate `numerator / denominator`:
/// nothing for a zero rate or a zero amount, otherwise the floored product,
/// but at least one token. `None` where the product leaves `u128` or the
/// denominator is zero.
pub open spec fn fee_of(amount: int, numerator: int, denominator: int) -> Option<int> {
    if numerator == 0 || amount == 0 {
        Some(0)
    } else if amount * numerator > u128_max() || denominator == 0 {
        None
    } else if amount * numerator / denominator == 0 {
        Some(1)
    } else {
        Some(amount * numerator / denominator)
    }
}

/// The smallest amount that a fee at rate `numerator / denominator` reduces to at
/// least `post_fee_amount`, as computed with checked `u128` arithmetic.
pub open spec fn pre_fee_of(post_fee_amount: int, numerator: int, denominator: int) -> Option<int> {
    if numerator == 0 || denominator == 0 {
        Some(post_fee_amount)
    } else if numerator == denominator || post_fee_amount == 0 {
        Some(0)
    } else if post_fee_amount * denominator > u128_max() || numerator > denominator
        || post_fee_amount * denominator + (denominator - numerator) > u128_max() {
        None
    } else {
        Some((post_fee_amount * denominator + (denominator - numerator) - 1) / (denominator
            - numerator))
    }
}

/// A fee fraction is valid when it is `0/0` or a proper fraction.
pub open spec fn fraction_is_valid(numerator: int, denominator: int) -> bool {
    (numerator == 0 && denominator == 0) || numerator < denominator
}

/// Reads an optional computed amount as the result the library returns for it.
pub open spec fn as_result(value: Option<int>) -> Result<u128, SwapError> {
    match value {
        Some(v) => Ok(v as u128),
        None => Err(SwapError::CalculationFailure),
    }
}

/// Helper function for calculating swap fee
pub fn calculate_fee(token_amount: u128, fee_numerator: u128, fee_denominator: u128) -> (r: Result<
    u128,
    SwapError,
>)
    ensures
        r == as_result(fee_of(token_amount as int, fee_numerator as int, fee_denominator as int)),
        r is Ok ==> r->Ok_0 <= u128_max(),
{
    if fee_numerator == 0 || token_amount == 0 {
        Ok(0)
    } else {
        let product = match token_amount.checked_mul(fee_numerator) {
            Some(p) => p,
            None => return Err(SwapError::CalculationFailure),
        };
        if fee_denominator == 0 {
            return Err(SwapError::CalculationFailure);
        }
        let fee = product / fee_denominator;
        if fee == 0 {
            Ok(1)  // minimum fee of one token

        } else {
            Ok(fee)
        }
    }
}

/// Ceiling division, failing where `dividend + divisor - 1` leaves `u128`
/// or the divisor is zero.
fn ceil_div(dividend: u128, divisor: u128) -> (r: Result<u128, SwapError>)
    ensures
        r == (if divisor == 0 || dividend + divisor > u128_max() {
            Err::<u128, SwapError>(SwapError::CalculationFailure)
        } else {
            Ok(((dividend + divisor - 1) / (divisor as int)) as u128)
        }),
{
    let sum = match dividend.checked_add(divisor) {
        Some(s) => s,
        None => return Err(SwapError::CalculationFailure),
    };
    let less_one = match sum.checked_sub(1) {
        Some(s) => s,
        None => return Err(SwapError::CalculationFailure),
    };
    if divisor == 0 {
        return Err(SwapError::CalculationFailure);
    }
    Ok(less_one / divisor)
}

fn pre_fee_amount(post_fee_amount: u128, fee_numerator: u128, fee_denominator: u128) -> (r: Result<
    u128,
    SwapError,
>)
    ensures
        r == as_result(
            pre_fee_of(post_fee_amount as int, fee_numerator as int, fee_denominator as int),
        ),
{
    if fee_numerator == 0 || fee_denominator == 0 {
        Ok(post_fee_amount)
    } else if fee_numerator == fee_denominator || post_fee_amount == 0 {
        Ok(0)
    } else {
        let numerator = match post_fee_amount.checked_mul(fee_denominator) {
            Some(n) => n,
            None => return Err(SwapError::CalculationFailure),
        };
        let denominator = match fee_denominator.checked_sub(fee_numerator) {
            Some(d) => d,
            None => return Err(SwapError::CalculationFailure),
        };
        ceil_div(numerator, denominator)
    }
}

fn validate_fraction(numerator: u64, denominator: u64) -> (r: Result<(), SwapError>)
    ensures
        r is Ok <==> fraction_is_valid(numerator as int, denominator as int),
        r is Err ==> r->Err_0 == SwapError::InvalidFee,
{
    if denominator == 0 && numerator == 0 {
        Ok(())
    } else if numerator >= denominator {
        Err(SwapError::InvalidFee)
    } else {
        Ok(())
    }
}

impl Fees {
    /// All fees set to zero.
    pub open spec fn zero() -> Fees {
        Fees {
            trade_fee_numerator: 0,
            trade_fee_denominator: 0,
            owner_trade_fee_numerator: 0,
            owner_trade_fee_denominator: 0,
            owner_withdraw_fee_numerator: 0,
            owner_withdraw_fee_denominator: 0,
            host_fee_numerator: 0,
            host_fee_denominator: 0,
        }
    }

    /// The trade fee charged on `amount` trading tokens.
    pub open spec fn trading_fee_of(self, amount: int) -> Option<int> {
        fee_of(amount, self.trade_fee_numerator as int, self.trade_fee_denominator as int)
    }

    /// The owner trade fee charged on `amount` trading tokens.
    pub open spec fn owner_trading_fee_of(self, amount: int) -> Option<int> {
        fee_of(amount, self.owner_trade_fee_numerator as int, self.owner_trade_fee_denominator as int)
    }

    /// The owner withdraw fee charged on `amount` pool tokens.
    pub open spec fn owner_withdraw_fee_of(self, amount: int) -> Option<int> {
        fee_of(
            amount,
            self.owner_withdraw_fee_numerator as int,
            self.owner_withdraw_fee_denominator as int,
        )
    }

    /// The host's share of an owner fee of `owner_fee` tokens.
    pub open spec fn host_fee_of(self, owner_fee: int) -> Option<int> {
        fee_of(owner_fee, self.host_fee_numerator as int, self.host_fee_denominator as int)
    }

    /// Whether every fee fraction is `0/0` or a proper fraction.
    pub open spec fn is_valid(self) -> bool {
        &&& fraction_is_valid(self.trade_fee_numerator as int, self.trade_fee_denominator as int)
        &&& fraction_is_valid(
            self.owner_trade_fee_numerator as int,
            self.owner_trade_fee_denominator as int,
        )
        &&& fraction_is_valid(
            self.owner_withdraw_fee_numerator as int,
            self.owner_withdraw_fee_denominator as int,
        )
        &&& fraction_is_valid(self.host_fee_numerator as int, self.host_fee_denominator as int)
    }

    /// The amount before trade and owner fees that leaves `post_fee_amount`
    /// once both are taken.
    pub open spec fn pre_trading_fee_amount_of(self, post_fee_amount: int) -> Option<int> {
        let tn = self.trade_fee_numerator as int;
        let td = self.trade_fee_denominator as int;
        let on = self.owner_trade_fee_numerator as int;
        let od = self.owner_trade_fee_denominator as int;
        if tn == 0 || td == 0 {
            pre_fee_of(post_fee_amount, on, od)
        } else if on == 0 || od == 0 {
            pre_fee_of(post_fee_amount, tn, td)
        } else if tn * od + on * td > u128_max() {
            None
        } else {
            pre_fee_of(post_fee_amount, tn * od + on * td, td * od)
        }
    }

    /// Calculate the withdraw fee in pool tokens
    pub fn owner_withdraw_fee(&self, pool_tokens: u128) -> (r: Result<u128, SwapError>)
        ensures
            r == as_result(self.owner_withdraw_fee_of(pool_tokens as int)),
    {
        calculate_fee(
            pool_tokens,
            self.owner_withdraw_fee_numerator as u128,
            self.owner_withdraw_fee_denominator as u128,
        )
    }

    /// Calculate the trading fee in trading tokens
    pub fn trading_fee(&self, trading_tokens: u128) -> (r: Result<u128, SwapError>)
        ensures
            r == as_result(self.trading_fee_of(trading_tokens as int)),
    {
        calculate_fee(
            trading_tokens,
            self.trade_fee_numerator as u128,
            self.trade_fee_denominator as u128,
        )
    }

    /// Calculate the owner trading fee in trading tokens
    pub fn owner_trading_fee(&self, trading_tokens: u128) -> (r: Result<u128, SwapError>)
        ensures
            r == as_result(self.owner_trading_fee_of(trading_tokens as int)),
    {
        calculate_fee(
            trading_tokens,
            self.owner_trade_fee_numerator as u128,
            self.owner_trade_fee_denominator as u128,
        )
    }

    /// Calculate the inverse trading amount, how much input is needed to give the
    /// provided output
    pub fn pre_trading_fee_amount(&self, post_fee_amount: u128) -> (r: Result<u128, SwapError>)
        ensures
            r == as_result(self.pre_trading_fee_amount_of(post_fee_amount as int)),
            // with at most one fee charged, the input covers the output
            ({
                let pre = self.pre_trading_fee_amount_of(post_fee_amount as int)->Some_0;
                self.pre_trading_fee_amount_of(post_fee_amount as int) is Some && fraction_is_valid(
                    self.trade_fee_numerator as int,
                    self.trade_fee_denominator as int,
                ) && fraction_is_valid(
                    self.owner_trade_fee_numerator as int,
                    self.owner_trade_fee_denominator as int,
                ) && (self.trade_fee_numerator == 0 || self.owner_trade_fee_numerator == 0)
                    && self.trading_fee_of(pre) is Some && self.owner_trading_fee_of(pre) is Some
                    ==> pre - self.trading_fee_of(pre)->Some_0 - self.owner_trading_fee_of(
                    pre,
                )->Some_0 >= post_fee_amount
            }),
    {
        proof {
            let pre = self.pre_trading_fee_amount_of(post_fee_amount as int)->Some_0;
            if self.pre_trading_fee_amount_of(post_fee_amount as int) is Some && fraction_is_valid(
                self.trade_fee_numerator as int,
                self.trade_fee_denominator as int,
            ) && fraction_is_valid(
                self.owner_trade_fee_numerator as int,
                self.owner_trade_fee_denominator as int,
            ) && (self.trade_fee_numerator == 0 || self.owner_trade_fee_numerator == 0)
                && self.trading_fee_of(pre) is Some && self.owner_trading_fee_of(pre) is Some {
                lemma_pre_trading_fee_amount_covers(*self, post_fee_amount as int);
            }
        }
        if self.trade_fee_numerator == 0 || self.trade_fee_denominator == 0 {
            pre_fee_amount(
                post_fee_amount,
                self.owner_trade_fee_numerator as u128,
                self.owner_trade_fee_denominator as u128,
            )
        } else if self.owner_trade_fee_numerator == 0 || self.owner_trade_fee_denominator == 0 {
            pre_fee_amount(
                post_fee_amount,
                self.trade_fee_numerator as u128,
                self.trade_fee_denominator as u128,
            )
        } else {
            let tn = self.trade_fee_numerator as u128;
            let td = self.trade_fee_denominator as u128;
            let on = self.owner_trade_fee_numerator as u128;
            let od = self.owner_trade_fee_denominator as u128;
            proof {
                lemma_u64_product_fits(tn as int, od as int);
                lemma_u64_product_fits(on as int, td as int);
                lemma_u64_product_fits(td as int, od as int);
            }
            let numerator = match (tn * od).checked_add(on * td) {
                Some(n) => n,
                None => return Err(SwapError::CalculationFailure),
            };
            pre_fee_amount(post_fee_amount, numerator, td * od)
        }
    }

    /// Calculate the host fee based on the owner fee, only used in production
    /// situations where a program is hosted by multiple frontends
    pub fn host_fee(&self, owner_fee: u128) -> (r: Result<u128, SwapError>)
        ensures
            r == as_result(self.host_fee_of(owner_fee as int)),
    {
        calculate_fee(owner_fee, self.host_fee_numerator as u128, self.host_fee_denominator as u128)
    }

    /// Validate that the fees are reasonable
    pub fn validate(&self) -> (r: Result<(), SwapError>)
        ensures
            r is Ok <==> self.is_valid(),
            r is Err ==> r->Err_0 == SwapError::InvalidFee,
    {
        validate_fraction(self.trade_fee_numerator, self.trade_fee_denominator)?;
        validate_fraction(self.owner_trade_fee_numerator, self.owner_trade_fee_denominator)?;
        validate_fraction(self.owner_withdraw_fee_numerator, self.owner_withdraw_fee_denominator)?;
        validate_fraction(self.host_fee_numerator, self.host_fee_denominator)?;
        Ok(())
    }
}

/// The product of two `u64` values fits in a `u128`.
pub proof fn lemma_u64_product_fits(a: int, b: int)
    requires
        0 <= a <= 0xffff_ffff_ffff_ffff,
        0 <= b <= 0xffff_ffff_ffff_ffff,
    ensures
        0 <= a * b <= 0xffff_ffff_ffff_fffe_0000_0000_0000_0001,
{
    assert(0 <= a * b <= 0xffff_ffff_ffff_ffff * 0xffff_ffff_ffff_ffff) by (nonlinear_arith)
        requires
            0 <= a <= 0xffff_ffff_ffff_ffff,
            0 <= b <= 0xffff_ffff_ffff_ffff,
    ;
}

} // verus!

verus! {

/// A fee at a rate of at most one never exceeds the amount it is charged
/// on, and it is at least one token on a non-zero amount at a non-zero rate.
pub proof fn lemma_fee_at_most_amount(amount: int, numerator: int, denominator: int)
    requires
        0 <= amount,
        0 <= numerator <= denominator,
        fee_of(amount, numerator, denominator) is Some,
    ensures
        0 <= fee_of(amount, numerator, denominator)->Some_0 <= amount,
        amount > 0 && numerator > 0 ==> fee_of(amount, numerator, denominator)->Some_0 >= 1,
{
    if numerator != 0 && amount != 0 {
        assert(amount * numerator / denominator <= amount) by (nonlinear_arith)
            requires
                0 < amount,
                0 < numerator <= denominator,
        ;
        assert(amount * numerator / denominator >= 0) by (nonlinear_arith)
            requires
                0 < amount,
                0 < numerator <= denominator,
        ;
    }
}


/// The amount grossed up for a fee at the proper rate `numerator /
/// denominator` is, with the fee taken at that exact rate, at least what was
/// asked for, and more than it.
proof fn lemma_pre_fee_covers(post_fee_amount: int, numerator: int, denominator: int)
    requires
        0 < numerator < denominator,
        post_fee_amount > 0,
        pre_fee_of(post_fee_amount, numerator, denominator) is Some,
    ensures
        ({
            let pre = pre_fee_of(post_fee_amount, numerator, denominator)->Some_0;
            &&& pre * (denominator - numerator) >= post_fee_amount * denominator
            &&& pre > post_fee_amount
        }),
{
    let pre = pre_fee_of(post_fee_amount, numerator, denominator)->Some_0;
    let k = denominator - numerator;
    assert(pre * k >= post_fee_amount * denominator) by (nonlinear_arith)
        requires
            pre == (post_fee_amount * denominator + k - 1) / k,
            k > 0,
            post_fee_amount > 0,
            denominator > 0,
    ;
    assert(pre > post_fee_amount) by (nonlinear_arith)
        requires
            pre * k >= post_fee_amount * denominator,
            k == denominator - numerator,
            0 < numerator < denominator,
            post_fee_amount > 0,
    ;
}

/// A floored fee at rate `numerator / denominator` is at most the exact one.
proof fn lemma_floored_fee_le(amount: int, numerator: int, denominator: int)
    requires
        amount >= 0,
        numerator >= 0,
        denominator > 0,
    ensures
        (amount * numerator / denominator) * denominator <= amount * numerator,
        amount * numerator / denominator >= 0,
{
    assert((amount * numerator / denominator) * denominator <= amount * numerator
        && amount * numerator / denominator >= 0) by (nonlinear_arith)
        requires
            amount >= 0,
            numerator >= 0,
            denominator > 0,
    ;
}

/// The input that `pre_trading_fee_amount` computes for `post_fee_amount`
/// covers it: once the trade and owner fees are taken from it, at least
/// `post_fee_amount` is left, for valid trade and owner fee fractions.
/// With both fees charged, this needs their
/// combined rate below one and each fee to come to a whole token before its
/// one-token minimum applies.
pub proof fn lemma_pre_trading_fee_amount_covers(fees: Fees, post_fee_amount: int)
    requires
        fraction_is_valid(fees.trade_fee_numerator as int, fees.trade_fee_denominator as int),
        fraction_is_valid(
            fees.owner_trade_fee_numerator as int,
            fees.owner_trade_fee_denominator as int,
        ),
        post_fee_amount >= 0,
        fees.pre_trading_fee_amount_of(post_fee_amount) is Some,
        ({
            let pre = fees.pre_trading_fee_amount_of(post_fee_amount)->Some_0;
            let tn = fees.trade_fee_numerator as int;
            let td = fees.trade_fee_denominator as int;
            let on = fees.owner_trade_fee_numerator as int;
            let od = fees.owner_trade_fee_denominator as int;
            tn != 0 && on != 0 ==> {
                &&& tn * od + on * td < td * od
                &&& pre * tn >= td
                &&& pre * on >= od
            }
        }),
        fees.trading_fee_of(fees.pre_trading_fee_amount_of(post_fee_amount)->Some_0) is Some,
        fees.owner_trading_fee_of(fees.pre_trading_fee_amount_of(post_fee_amount)->Some_0) is Some,
    ensures
        ({
            let pre = fees.pre_trading_fee_amount_of(post_fee_amount)->Some_0;
            pre - fees.trading_fee_of(pre)->Some_0 - fees.owner_trading_fee_of(pre)->Some_0
                >= post_fee_amount
        }),
{
    let pre = fees.pre_trading_fee_amount_of(post_fee_amount)->Some_0;
    let tn = fees.trade_fee_numerator as int;
    let td = fees.trade_fee_denominator as int;
    let on = fees.owner_trade_fee_numerator as int;
    let od = fees.owner_trade_fee_denominator as int;
    let tf = fees.trading_fee_of(pre)->Some_0;
    let of = fees.owner_trading_fee_of(pre)->Some_0;
    if post_fee_amount == 0 {
        assert(pre == 0);
        assert(tf == 0 && of == 0);
        return;
    }
    if tn == 0 || td == 0 || on == 0 || od == 0 {
        // at most one fee is charged
        let (n, d, f, g) = if tn == 0 || td == 0 {
            (on, od, of, tf)
        } else {
            (tn, td, tf, of)
        };
        assert(g == 0);
        assert(pre == pre_fee_of(post_fee_amount, n, d)->Some_0);
        if n == 0 || d == 0 {
            assert(pre == post_fee_amount);
            assert(f == 0);
            return;
        }
        assert(0 < n < d);
        lemma_pre_fee_covers(post_fee_amount, n, d);
        lemma_floored_fee_le(pre, n, d);
        if pre * n / d == 0 {
            assert(f == 1);
        } else {
            assert(f == pre * n / d);
            assert(pre - f >= post_fee_amount) by (nonlinear_arith)
                requires
                    f * d <= pre * n,
                    pre * (d - n) >= post_fee_amount * d,
                    d > 0,
            ;
        }
    } else {
        let n = tn * od + on * td;
        let d = td * od;
        assert(0 < tn < td && 0 < on < od);
        assert(d > 0 && n > 0) by (nonlinear_arith)
            requires
                0 < tn < td,
                0 < on < od,
                n == tn * od + on * td,
                d == td * od,
        ;
        assert(pre == pre_fee_of(post_fee_amount, n, d)->Some_0);
        lemma_pre_fee_covers(post_fee_amount, n, d);
        lemma_floored_fee_le(pre, tn, td);
        lemma_floored_fee_le(pre, on, od);
        assert(pre * tn / td >= 1) by (nonlinear_arith)
            requires
                pre * tn >= td,
                td > 0,
        ;
        assert(pre * on / od >= 1) by (nonlinear_arith)
            requires
                pre * on >= od,
                od > 0,
        ;
        assert(tf == pre * tn / td);
        assert(of == pre * on / od);
        assert(pre - tf - of >= post_fee_amount) by (nonlinear_arith)
            requires
                tf * td <= pre * tn,
                of * od <= pre * on,
                pre * (d - n) >= post_fee_amount * d,
                n == tn * od + on * td,
                d == td * od,
                td > 0,
                od > 0,
        ;
    }
}

} // verus!
