//! 256-bit unsigned integers, computed with `spl_math`'s `U256`

use vstd::prelude::*;

use crate::curve::math::ceil_div_pair;

verus! {

/// A 256-bit unsigned integer held as four 64-bit words, least significant
/// first: the layout of `spl_math::uint::U256`.
#[derive(Debug, Clone, Copy, PartialEq, Eq, Structural)]
pub struct Wide {
    /// Bits 0 to 63
    pub w0: u64,
    /// Bits 64 to 127
    pub w1: u64,
    /// Bits 128 to 191
    pub w2: u64,
    /// Bits 192 to 255
    pub w3: u64,
}

/// 2^64
pub open spec fn pow64() -> int {
    18446744073709551616int
}

/// 2^128
pub open spec fn pow128() -> int {
    340282366920938463463374607431768211456int
}

/// 2^192
pub open spec fn pow192() -> int {
    6277101735386680763835789423207666416102355444464034512896int
}

/// 2^256, the first value a `Wide` cannot hold.
pub open spec fn wide_limit() -> int {
    115792089237316195423570985008687907853269984665640564039457584007913129639936int
}

/// `Some(v)` where `v` fits in 256 bits, `None` otherwise: what a checked
/// 256-bit operation returns for the mathematical result `v`.
pub open spec fn checked_wide(v: int) -> Option<int> {
    if 0 <= v < wide_limit() {
        Some(v)
    } else {
        None
    }
}

impl Wide {
    /// The number held.
    pub open spec fn value(self) -> int {
        self.w0 as int + self.w1 as int * pow64() + self.w2 as int * pow128() + self.w3 as int
            * pow192()
    }
}

/// Reads an optional `Wide` as an optional number.
pub open spec fn opt_value(w: Option<Wide>) -> Option<int> {
    match w {
        Some(v) => Some(v.value()),
        None => None,
    }
}

/// The value of a `Wide` lies in `[0, 2^256)`.
pub proof fn lemma_wide_bounds(w: Wide)
    ensures
        0 <= w.value() < wide_limit(),
{
    let a = w.w0 as int;
    let b = w.w1 as int;
    let c = w.w2 as int;
    let d = w.w3 as int;
    assert(0 <= a + b * pow64() + c * pow128() + d * pow192() < wide_limit()) by (nonlinear_arith)
        requires
            0 <= a < pow64(),
            0 <= b < pow64(),
            0 <= c < pow64(),
            0 <= d < pow64(),
    ;
}

/// `U256::from(u128)`.
///
/// Trusted: the conversion keeps the number.
#[verifier::external_body]
pub(crate) fn wide_from_u128(x: u128) -> (r: Wide)
    ensures
        r.value() == x as int,
{
    let u = spl_math::uint::U256::from(x);
    Wide { w0: u.0[0], w1: u.0[1], w2: u.0[2], w3: u.0[3] }
}

/// `U256::checked_add`.
///
/// Trusted: the sum where it fits in 256 bits, `None` where it overflows.
#[verifier::external_body]
pub(crate) fn wide_checked_add(a: Wide, b: Wide) -> (r: Option<Wide>)
    ensures
        opt_value(r) == checked_wide(a.value() + b.value()),
{
    spl_math::uint::U256([a.w0, a.w1, a.w2, a.w3]).checked_add(
        spl_math::uint::U256([b.w0, b.w1, b.w2, b.w3]),
    ).map(|u| Wide { w0: u.0[0], w1: u.0[1], w2: u.0[2], w3: u.0[3] })
}

/// `U256::checked_sub`.
///
/// Trusted: the difference where it is not negative, `None` otherwise.
#[verifier::external_body]
pub(crate) fn wide_checked_sub(a: Wide, b: Wide) -> (r: Option<Wide>)
    ensures
        opt_value(r) == checked_wide(a.value() - b.value()),
{
    spl_math::uint::U256([a.w0, a.w1, a.w2, a.w3]).checked_sub(
        spl_math::uint::U256([b.w0, b.w1, b.w2, b.w3]),
    ).map(|u| Wide { w0: u.0[0], w1: u.0[1], w2: u.0[2], w3: u.0[3] })
}

/// `U256::checked_mul`.
///
/// Trusted: the product where it fits in 256 bits, `None` where it overflows.
#[verifier::external_body]
pub(crate) fn wide_checked_mul(a: Wide, b: Wide) -> (r: Option<Wide>)
    ensures
        opt_value(r) == checked_wide(a.value() * b.value()),
{
    spl_math::uint::U256([a.w0, a.w1, a.w2, a.w3]).checked_mul(
        spl_math::uint::U256([b.w0, b.w1, b.w2, b.w3]),
    ).map(|u| Wide { w0: u.0[0], w1: u.0[1], w2: u.0[2], w3: u.0[3] })
}

/// `U256::checked_div`.
///
/// Trusted: the floored quotient, `None` for a zero divisor.
#[verifier::external_body]
pub(crate) fn wide_checked_div(a: Wide, b: Wide) -> (r: Option<Wide>)
    ensures
        opt_value(r) == (if b.value() == 0 {
            None::<int>
        } else {
            Some(a.value() / b.value())
        }),
{
    spl_math::uint::U256([a.w0, a.w1, a.w2, a.w3]).checked_div(
        spl_math::uint::U256([b.w0, b.w1, b.w2, b.w3]),
    ).map(|u| Wide { w0: u.0[0], w1: u.0[1], w2: u.0[2], w3: u.0[3] })
}

/// Equality of two `U256` values.
///
/// Trusted: `U256`'s derived `==` compares the numbers.
#[verifier::external_body]
pub(crate) fn wide_eq(a: Wide, b: Wide) -> (r: bool)
    ensures
        r == (a.value() == b.value()),
{
    spl_math::uint::U256([a.w0, a.w1, a.w2, a.w3]) == spl_math::uint::U256([b.w0, b.w1, b.w2, b.w3])
}

/// `u128::try_from(U256)`.
///
/// Trusted: the number where it fits in 128 bits, an error otherwise.
#[verifier::external_body]
pub(crate) fn wide_to_u128(a: Wide) -> (r: Option<u128>)
    ensures
        match r {
            Some(v) => v as int == a.value(),
            None => a.value() >= pow128(),
        },
{
    u128::try_from(spl_math::uint::U256([a.w0, a.w1, a.w2, a.w3])).ok()
}

/// `spl_math`'s `CheckedCeilDiv::checked_ceil_div` on `U256`.
///
/// Trusted: the same computation as the `u128` version: the floored quotient
/// (failing for a zero divisor or a zero quotient), bumped by one where a
/// remainder is left, with the divisor recomputed from it.
#[verifier::external_body]
pub(crate) fn wide_checked_ceil_div(a: Wide, b: Wide) -> (r: Option<(Wide, Wide)>)
    ensures
        match ceil_div_pair(a.value(), b.value()) {
            Some((q, d)) => r is Some && r->Some_0.0.value() == q && r->Some_0.1.value() == d,
            None => r is None,
        },
{
    spl_math::checked_ceil_div::CheckedCeilDiv::checked_ceil_div(
        &spl_math::uint::U256([a.w0, a.w1, a.w2, a.w3]),
        spl_math::uint::U256([b.w0, b.w1, b.w2, b.w3]),
    ).map(
        |(q, d)|
            (
                Wide { w0: q.0[0], w1: q.0[1], w2: q.0[2], w3: q.0[3] },
                Wide { w0: d.0[0], w1: d.0[1], w2: d.0[2], w3: d.0[3] },
            ),
    )
}

} // verus!
