//! The arbitrary-precision decimal that carries every amount, and what this
//! library relies on from it.
//!
//! A decimal is a whole number of digits together with a count of fractional
//! digits: it stands for `digits / 10^fraction_digits`. The functions at the
//! end of this file call into the `bigdecimal` crate; their contracts are
//! believed, not proved.

use vstd::prelude::*;
use bigdecimal::BigDecimal;
use bigdecimal::Zero;
use std::ops::Neg;

verus! {

#[verifier::external_type_specification]
#[verifier::external_body]
pub struct ExBigDecimal(bigdecimal::BigDecimal);

/// The whole number that a decimal stores: what
/// `BigDecimal::as_bigint_and_exponent` gives first.
pub uninterp spec fn unscaled_digits(d: BigDecimal) -> int;

/// How many of the stored digits are fractional: what
/// `BigDecimal::as_bigint_and_exponent` gives second.
pub uninterp spec fn fraction_digits(d: BigDecimal) -> int;

/// Ten to the power `n`.
pub open spec fn pow10(n: nat) -> int
    decreases n,
{
    if n == 0 {
        1
    } else {
        10 * pow10((n - 1) as nat)
    }
}

/// `digits` with `by` zeros appended.
pub open spec fn widened(digits: int, by: int) -> int {
    digits * pow10(by as nat)
}

/// `digits` with its `by` lowest places dropped, towards zero.
pub open spec fn truncated(digits: int, by: int) -> int {
    if digits >= 0 {
        digits / pow10(by as nat)
    } else {
        -((-digits) / pow10(by as nat))
    }
}

/// The digits that stand for `digits / 10^scale` once it is held with
/// `new_scale` fractional digits; places that no longer fit are dropped.
pub open spec fn rescaled(digits: int, scale: int, new_scale: int) -> int {
    if new_scale >= scale {
        widened(digits, new_scale - scale)
    } else {
        truncated(digits, scale - new_scale)
    }
}

/// The larger of the two fractional digit counts.
pub open spec fn common_scale(a: BigDecimal, b: BigDecimal) -> int {
    if fraction_digits(a) >= fraction_digits(b) {
        fraction_digits(a)
    } else {
        fraction_digits(b)
    }
}

/// The digits of `d` written with `scale` fractional digits, for a `scale`
/// that is no smaller than its own.
pub open spec fn digits_at(d: BigDecimal, scale: int) -> int {
    widened(unscaled_digits(d), scale - fraction_digits(d))
}

/// Whether `a` stands for a smaller number than `b`.
pub open spec fn decimal_less(a: BigDecimal, b: BigDecimal) -> bool {
    digits_at(a, common_scale(a, b)) < digits_at(b, common_scale(a, b))
}

/// Whether `a` and `b` stand for the same number.
pub open spec fn decimal_same(a: BigDecimal, b: BigDecimal) -> bool {
    digits_at(a, common_scale(a, b)) == digits_at(b, common_scale(a, b))
}

/// Whether a decimal can be brought to `new_scale` fractional digits: the
/// distance between the two scales has to be a machine integer.
pub open spec fn can_rescale(d: BigDecimal, new_scale: int) -> bool {
    -i64::MAX <= new_scale - fraction_digits(d) <= i64::MAX
}

/// Whether the scales of `a` and `b` lie close enough for one decimal to be
/// brought to the scale of the other.
pub open spec fn scales_within_reach(a: BigDecimal, b: BigDecimal) -> bool {
    -i64::MAX <= fraction_digits(a) - fraction_digits(b) <= i64::MAX
}

/// Every power of ten is positive.
pub proof fn lemma_pow10_positive(n: nat)
    ensures
        pow10(n) > 0,
    decreases n,
{
    if n > 0 {
        lemma_pow10_positive((n - 1) as nat);
    }
}

/// Rescaling keeps a number that is not negative from becoming negative.
pub proof fn lemma_rescaled_keeps_non_negative(digits: int, scale: int, new_scale: int)
    requires
        digits >= 0,
    ensures
        rescaled(digits, scale, new_scale) >= 0,
{
    if new_scale >= scale {
        let p: int = pow10((new_scale - scale) as nat);
        lemma_pow10_positive((new_scale - scale) as nat);
        assert(digits * p >= 0) by (nonlinear_arith)
            requires
                digits >= 0,
                p > 0,
        ;
    } else {
        let p: int = pow10((scale - new_scale) as nat);
        lemma_pow10_positive((scale - new_scale) as nat);
        assert(digits / p >= 0) by (nonlinear_arith)
            requires
                digits >= 0,
                p > 0,
        ;
    }
}

/// Rescaling to the scale a number already has changes nothing.
pub proof fn lemma_rescaled_same_scale(digits: int, scale: int)
    ensures
        rescaled(digits, scale, scale) == digits,
{
    reveal_with_fuel(pow10, 1);
    assert(pow10(0) == 1);
}

/// At equal scales the order of two decimals is the order of their digits.
pub proof fn lemma_less_at_equal_scales(a: BigDecimal, b: BigDecimal)
    requires
        fraction_digits(a) == fraction_digits(b),
    ensures
        decimal_less(a, b) == (unscaled_digits(a) < unscaled_digits(b)),
{
    assert(pow10(0) == 1);
}

/// A decimal is below zero exactly when its digits are.
pub proof fn lemma_less_than_zero(a: BigDecimal, zero: BigDecimal)
    requires
        unscaled_digits(zero) == 0,
    ensures
        decimal_less(a, zero) == (unscaled_digits(a) < 0),
{
    let s: int = common_scale(a, zero);
    let p: int = pow10((s - fraction_digits(a)) as nat);
    let q: int = pow10((s - fraction_digits(zero)) as nat);
    lemma_pow10_positive((s - fraction_digits(a)) as nat);
    let d: int = unscaled_digits(a);
    assert(0 * q == 0);
    assert((d * p < 0) == (d < 0)) by (nonlinear_arith)
        requires
            p > 0,
    ;
}

/// `BigDecimal::with_scale`: the same number held with `new_scale`
/// fractional digits. Zeros are appended to reach a larger scale; to reach a
/// smaller one the surplus places are cut off, towards zero. The distance
/// between the two scales is computed as a machine integer, so it has to
/// be one.
#[verifier::external_body]
pub(crate) fn decimal_with_scale(d: &BigDecimal, new_scale: i64) -> (r: BigDecimal)
    requires
        can_rescale(*d, new_scale as int),
    ensures
        fraction_digits(r) == new_scale,
        unscaled_digits(r) == rescaled(unscaled_digits(*d), fraction_digits(*d), new_scale as int),
{
    d.with_scale(new_scale)
}

/// `BigDecimal::as_bigint_and_exponent`, of which only the exponent is kept:
/// the scale that the decimal is held at.
#[verifier::external_body]
pub(crate) fn decimal_fraction_digits(d: &BigDecimal) -> (r: i64)
    ensures
        r == fraction_digits(*d),
{
    d.as_bigint_and_exponent().1
}

/// Whether the scales of two decimals are within reach of each other.
pub(crate) fn within_reach(a: &BigDecimal, b: &BigDecimal) -> (r: bool)
    ensures
        r == scales_within_reach(*a, *b),
{
    let left: i64 = decimal_fraction_digits(a);
    let right: i64 = decimal_fraction_digits(b);
    let gap: i128 = left as i128 - right as i128;
    -(i64::MAX as i128) <= gap && gap <= i64::MAX as i128
}

/// `BigDecimal::zero`: no digits and no fractional places.
#[verifier::external_body]
pub(crate) fn decimal_zero() -> (r: BigDecimal)
    ensures
        unscaled_digits(r) == 0,
        fraction_digits(r) == 0,
{
    BigDecimal::zero()
}

/// `BigDecimal::clone`: a second decimal equal to the first in every respect.
#[verifier::external_body]
pub(crate) fn decimal_clone(d: &BigDecimal) -> (r: BigDecimal)
    ensures
        r == *d,
{
    d.clone()
}

/// `BigDecimal::neg`: the digits change sign, the scale stays.
#[verifier::external_body]
pub(crate) fn decimal_neg(d: BigDecimal) -> (r: BigDecimal)
    ensures
        fraction_digits(r) == fraction_digits(d),
        unscaled_digits(r) == -unscaled_digits(d),
{
    d.neg()
}

/// `&BigDecimal + &BigDecimal`, for two decimals of one scale: the sum has
/// that scale and the sum of the digits.
#[verifier::external_body]
pub(crate) fn decimal_sum(a: &BigDecimal, b: &BigDecimal) -> (r: BigDecimal)
    requires
        fraction_digits(*a) == fraction_digits(*b),
    ensures
        fraction_digits(r) == fraction_digits(*a),
        unscaled_digits(r) == unscaled_digits(*a) + unscaled_digits(*b),
{
    a + b
}

/// `&BigDecimal - &BigDecimal`, for two decimals of one scale: the
/// difference has that scale and the difference of the digits.
#[verifier::external_body]
pub(crate) fn decimal_difference(a: &BigDecimal, b: &BigDecimal) -> (r: BigDecimal)
    requires
        fraction_digits(*a) == fraction_digits(*b),
    ensures
        fraction_digits(r) == fraction_digits(*a),
        unscaled_digits(r) == unscaled_digits(*a) - unscaled_digits(*b),
{
    a - b
}

/// `BigDecimal`'s `==`: whether the two stand for the same number, whatever
/// their scales. The digits of the coarser one are widened to the scale of
/// the finer one, so the scales have to be within reach of each other.
#[verifier::external_body]
pub(crate) fn decimal_equal(a: &BigDecimal, b: &BigDecimal) -> (r: bool)
    requires
        scales_within_reach(*a, *b),
    ensures
        r == decimal_same(*a, *b),
{
    a == b
}

/// `BigDecimal`'s `>`: the order of the numbers, whatever their scales. Two
/// numbers of the same sign are subtracted to tell, for which their scales
/// have to be within reach of each other; zero is told apart by sign alone.
#[verifier::external_body]
pub(crate) fn decimal_greater(a: &BigDecimal, b: &BigDecimal) -> (r: bool)
    requires
        scales_within_reach(*a, *b) || unscaled_digits(*a) == 0 || unscaled_digits(*b) == 0,
    ensures
        r == decimal_less(*b, *a),
{
    a > b
}

/// `BigDecimal`'s `<`: the order of the numbers, whatever their scales. Two
/// numbers of the same sign are subtracted to tell, for which their scales
/// have to be within reach of each other; zero is told apart by sign alone.
#[verifier::external_body]
pub(crate) fn decimal_smaller(a: &BigDecimal, b: &BigDecimal) -> (r: bool)
    requires
        scales_within_reach(*a, *b) || unscaled_digits(*a) == 0 || unscaled_digits(*b) == 0,
    ensures
        r == decimal_less(*a, *b),
{
    a < b
}

} // verus!
