//! The calls into `rust_decimal`.
//!
//! Each function here turns its arguments into `Decimal`s, makes one call, and turns the
//! result back into plain values. Its contract is taken on trust from `rust_decimal`:
//! nothing in this crate proves it. An [`Amount`] always holds a mantissa and a scale that
//! `Decimal` accepts, so the conversions cannot fail.
use crate::amount::{fits, pow10, round_half_even, Amount};
use rust_decimal::Decimal;
use vstd::prelude::*;

verus! {

/// The larger of the two scales.
pub open spec fn larger_scale(a: Amount, b: Amount) -> nat {
    if a.scale() >= b.scale() {
        a.scale() as nat
    } else {
        b.scale() as nat
    }
}

/// `Decimal + Decimal`. Where the exact sum has a mantissa of at most 96 bits at the
/// larger of the two scales, the addition neither overflows nor rounds: the result is
/// that sum, at a scale no larger than that one.
#[verifier::external_body]
pub(crate) fn decimal_add(a: Amount, b: Amount) -> (r: Amount)
    requires
        fits(a@ + b@, larger_scale(a, b)),
    ensures
        r@ == a@ + b@,
        r.scale() <= larger_scale(a, b),
{
    let x = Decimal::from_i128_with_scale(a.mantissa, a.scale);
    let y = Decimal::from_i128_with_scale(b.mantissa, b.scale);
    let d = x + y;
    Amount { mantissa: d.mantissa(), scale: d.scale() }
}

/// `Decimal - Decimal`. Where the exact difference has a mantissa of at most 96 bits at
/// the larger of the two scales, the subtraction neither overflows nor rounds: the
/// result is that difference, at a scale no larger than that one.
#[verifier::external_body]
pub(crate) fn decimal_sub(a: Amount, b: Amount) -> (r: Amount)
    requires
        fits(a@ - b@, larger_scale(a, b)),
    ensures
        r@ == a@ - b@,
        r.scale() <= larger_scale(a, b),
{
    let x = Decimal::from_i128_with_scale(a.mantissa, a.scale);
    let y = Decimal::from_i128_with_scale(b.mantissa, b.scale);
    let d = x - y;
    Amount { mantissa: d.mantissa(), scale: d.scale() }
}

/// `Decimal < Decimal`: the order of the two numbers, whatever their scales.
#[verifier::external_body]
pub(crate) fn decimal_lt(a: Amount, b: Amount) -> (r: bool)
    ensures
        r == (a@ < b@),
{
    let x = Decimal::from_i128_with_scale(a.mantissa, a.scale);
    let y = Decimal::from_i128_with_scale(b.mantissa, b.scale);
    x < y
}

/// `Decimal == Decimal`: whether the two are the same number, whatever their scales.
#[verifier::external_body]
pub(crate) fn decimal_eq(a: Amount, b: Amount) -> (r: bool)
    ensures
        r == (a@ == b@),
{
    let x = Decimal::from_i128_with_scale(a.mantissa, a.scale);
    let y = Decimal::from_i128_with_scale(b.mantissa, b.scale);
    x == y
}

/// `Decimal::round_dp`. A number with no more than `dp` fractional digits comes back as
/// it is. Any other comes back with `dp` fractional digits, its mantissa divided by the
/// power of ten that drops the others and rounded to the nearest integer, a tie going to
/// the even one.
#[verifier::external_body]
pub(crate) fn decimal_round_dp(a: Amount, dp: u32) -> (r: Amount)
    ensures
        a.scale() <= dp ==> r.mantissa() == a.mantissa() && r.scale() == a.scale(),
        a.scale() > dp ==> r.scale() == dp && r.mantissa() == round_half_even(
            a.mantissa() as int,
            pow10((a.scale() - dp) as nat),
        ),
{
    let d = Decimal::from_i128_with_scale(a.mantissa, a.scale).round_dp(dp);
    Amount { mantissa: d.mantissa(), scale: d.scale() }
}

} // verus!
