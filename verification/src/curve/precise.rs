//! Fixed-point numbers with twelve decimals, computed with `spl_math`'s `PreciseNumber`

use vstd::prelude::*;

use crate::curve::wide::{
    checked_wide, lemma_wide_bounds, pow128, wide_checked_add, wide_checked_div, wide_from_u128,
    wide_limit, wide_to_u128, Wide,
};

verus! {

/// A fixed-point number: `value` is the number multiplied by `10^12`, the
/// layout of `spl_math::precise_number::PreciseNumber`.
#[derive(Debug, Clone, Copy, PartialEq, Eq, Structural)]
pub struct Precise {
    /// The number times `10^12`
    pub value: Wide,
}

/// The representation of the number one: `10^12`.
pub open spec fn precise_one() -> int {
    1_000_000_000_000
}

impl Precise {
    /// The raw value, the number times `10^12`.
    pub open spec fn raw(self) -> int {
        self.value.value()
    }
}

/// Reads an optional `Precise` as an optional raw value.
pub open spec fn opt_raw(p: Option<Precise>) -> Option<int> {
    match p {
        Some(v) => Some(v.raw()),
        None => None,
    }
}

/// `PreciseNumber::checked_mul` on raw values: the product rescaled with
/// rounding, or, where the raw product overflows, the larger operand
/// descaled first.
pub open spec fn precise_mul_of(a: int, b: int) -> Option<int> {
    match checked_wide(a * b) {
        Some(p) => match checked_wide(p + precise_one() / 2) {
            Some(q) => Some(q / precise_one()),
            None => None,
        },
        None => if a >= b {
            checked_wide(a / precise_one() * b)
        } else {
            checked_wide(b / precise_one() * a)
        },
    }
}

/// `PreciseNumber::checked_div` on raw values: the dividend rescaled, with
/// rounding, then divided; where rescaling first overflows, divide first and
/// rescale after. `None` for a zero divisor.
pub open spec fn precise_div_of(a: int, b: int) -> Option<int> {
    if b == 0 {
        None
    } else {
        match checked_wide(a * precise_one()) {
            Some(v) => match checked_wide(v + precise_one() / 2) {
                Some(w) => Some(w / b),
                None => None,
            },
            None => match checked_wide(a + precise_one() / 2) {
                Some(w) => checked_wide(w / b * precise_one()),
                None => None,
            },
        }
    }
}

/// `PreciseNumber::ceiling` on raw values.
pub open spec fn precise_ceiling_of(a: int) -> Option<int> {
    match checked_wide(a + precise_one() - 1) {
        Some(v) => checked_wide(v / precise_one() * precise_one()),
        None => None,
    }
}

/// Whether `PreciseNumber::to_imprecise` returns without panicking on `a`:
/// the rounded whole part must fit in a `u128` where the rounding itself
/// does not overflow.
pub open spec fn precise_to_imprecise_ok(a: int) -> bool {
    a + precise_one() / 2 < wide_limit() ==> (a + precise_one() / 2) / precise_one() < pow128()
}

/// `PreciseNumber::to_imprecise` on raw values: the rounded whole part.
pub open spec fn precise_to_imprecise_of(a: int) -> Option<int> {
    match checked_wide(a + precise_one() / 2) {
        Some(v) => Some(v / precise_one()),
        None => None,
    }
}

/// The raw square root that `PreciseNumber::sqrt` computes for the raw
/// value `value`: an approximation by Newton's method whose exact digits
/// only the crate's iteration defines.
pub uninterp spec fn precise_sqrt_of(value: int) -> Option<int>;

/// `PreciseNumber::new`.
///
/// Trusted: the raw value is the number times `10^12`, checked against 256 bits.
#[verifier::external_body]
pub(crate) fn precise_new(x: u128) -> (r: Option<Precise>)
    ensures
        opt_raw(r) == checked_wide(x * precise_one()),
{
    spl_math::precise_number::PreciseNumber::new(x).map(
        |p| Precise { value: Wide { w0: p.value.0[0], w1: p.value.0[1], w2: p.value.0[2], w3: p.value.0[3] } },
    )
}

/// `PreciseNumber::checked_sub`.
///
/// Trusted: the raw difference, `None` where it is negative.
#[verifier::external_body]
pub(crate) fn precise_checked_sub(a: &Precise, b: &Precise) -> (r: Option<Precise>)
    ensures
        opt_raw(r) == checked_wide(a.raw() - b.raw()),
{
    let pa = spl_math::precise_number::PreciseNumber { value: spl_math::uint::U256([a.value.w0, a.value.w1, a.value.w2, a.value.w3]) };
    let pb = spl_math::precise_number::PreciseNumber { value: spl_math::uint::U256([b.value.w0, b.value.w1, b.value.w2, b.value.w3]) };
    pa.checked_sub(&pb).map(
        |p| Precise { value: Wide { w0: p.value.0[0], w1: p.value.0[1], w2: p.value.0[2], w3: p.value.0[3] } },
    )
}

/// `PreciseNumber::checked_mul`.
///
/// Trusted: the computation the crate's source shows, restated in `precise_mul_of`.
#[verifier::external_body]
pub(crate) fn precise_checked_mul(a: &Precise, b: &Precise) -> (r: Option<Precise>)
    ensures
        opt_raw(r) == precise_mul_of(a.raw(), b.raw()),
{
    let pa = spl_math::precise_number::PreciseNumber { value: spl_math::uint::U256([a.value.w0, a.value.w1, a.value.w2, a.value.w3]) };
    let pb = spl_math::precise_number::PreciseNumber { value: spl_math::uint::U256([b.value.w0, b.value.w1, b.value.w2, b.value.w3]) };
    pa.checked_mul(&pb).map(
        |p| Precise { value: Wide { w0: p.value.0[0], w1: p.value.0[1], w2: p.value.0[2], w3: p.value.0[3] } },
    )
}

/// `PreciseNumber::checked_div`.
///
/// Trusted: the computation the crate's source shows, restated in `precise_div_of`.
#[verifier::external_body]
pub(crate) fn precise_checked_div(a: &Precise, b: &Precise) -> (r: Option<Precise>)
    ensures
        opt_raw(r) == precise_div_of(a.raw(), b.raw()),
{
    let pa = spl_math::precise_number::PreciseNumber { value: spl_math::uint::U256([a.value.w0, a.value.w1, a.value.w2, a.value.w3]) };
    let pb = spl_math::precise_number::PreciseNumber { value: spl_math::uint::U256([b.value.w0, b.value.w1, b.value.w2, b.value.w3]) };
    pa.checked_div(&pb).map(
        |p| Precise { value: Wide { w0: p.value.0[0], w1: p.value.0[1], w2: p.value.0[2], w3: p.value.0[3] } },
    )
}

/// `PreciseNumber::floor`.
///
/// Trusted: the raw value rounded down to a multiple of `10^12`.
#[verifier::external_body]
pub(crate) fn precise_floor(a: &Precise) -> (r: Option<Precise>)
    ensures
        opt_raw(r) == checked_wide(a.raw() / precise_one() * precise_one()),
{
    let pa = spl_math::precise_number::PreciseNumber { value: spl_math::uint::U256([a.value.w0, a.value.w1, a.value.w2, a.value.w3]) };
    pa.floor().map(
        |p| Precise { value: Wide { w0: p.value.0[0], w1: p.value.0[1], w2: p.value.0[2], w3: p.value.0[3] } },
    )
}

/// `PreciseNumber::ceiling`.
///
/// Trusted: the raw value rounded up to a multiple of `10^12`, checked.
#[verifier::external_body]
pub(crate) fn precise_ceiling(a: &Precise) -> (r: Option<Precise>)
    ensures
        opt_raw(r) == precise_ceiling_of(a.raw()),
{
    let pa = spl_math::precise_number::PreciseNumber { value: spl_math::uint::U256([a.value.w0, a.value.w1, a.value.w2, a.value.w3]) };
    pa.ceiling().map(
        |p| Precise { value: Wide { w0: p.value.0[0], w1: p.value.0[1], w2: p.value.0[2], w3: p.value.0[3] } },
    )
}

/// Whether `to_imprecise` returns without panicking on `a`: where rounding
/// overflows it returns `None`, otherwise the rounded whole part must fit in
/// a `u128`.
pub fn to_imprecise_fits(a: &Precise) -> (r: bool)
    ensures
        r == precise_to_imprecise_ok(a.raw()),
{
    proof {
        lemma_wide_bounds(a.value);
    }
    let half = wide_from_u128(500_000_000_000);
    let one = wide_from_u128(1_000_000_000_000);
    match wide_checked_add(a.value, half) {
        None => true,
        Some(rounded) => match wide_checked_div(rounded, one) {
            Some(whole) => match wide_to_u128(whole) {
                Some(_) => true,
                None => false,
            },
            None => false,
        },
    }
}

/// `PreciseNumber::to_imprecise`.
///
/// Trusted: the whole part, rounded to nearest; it panics where that part does
/// not fit in a `u128`, which the precondition rules out.
#[verifier::external_body]
pub(crate) fn precise_to_imprecise(a: &Precise) -> (r: Option<u128>)
    requires
        precise_to_imprecise_ok(a.raw()),
    ensures
        match precise_to_imprecise_of(a.raw()) {
            Some(v) => r == Some(v as u128),
            None => r is None,
        },
{
    let pa = spl_math::precise_number::PreciseNumber { value: spl_math::uint::U256([a.value.w0, a.value.w1, a.value.w2, a.value.w3]) };
    pa.to_imprecise()
}

/// `PreciseNumber::sqrt`.
///
/// Trusted: the result is named `precise_sqrt_of` of the raw input; nothing
/// more is stated of Newton's method as the crate runs it.
#[verifier::external_body]
pub(crate) fn precise_sqrt(a: &Precise) -> (r: Option<Precise>)
    ensures
        opt_raw(r) == precise_sqrt_of(a.raw()),
{
    let pa = spl_math::precise_number::PreciseNumber { value: spl_math::uint::U256([a.value.w0, a.value.w1, a.value.w2, a.value.w3]) };
    pa.sqrt().map(
        |p| Precise { value: Wide { w0: p.value.0[0], w1: p.value.0[1], w2: p.value.0[2], w3: p.value.0[3] } },
    )
}

} // verus!
