use vstd::prelude::*;

use fixed::types::I64F64;

use crate::errors::{BondingCurveError, CalcError};
use crate::fixed_point::{scale, FixedPoint, ONE_BITS};

verus! {

/// Raw bits of `e^x` for the fixed-point value with raw bits `x`, as computed
/// through double precision; `None` when that result is not finite or does not fit.
pub uninterp spec fn exp_result(x: i128) -> Option<i128>;

/// Raw bits of `ln x` for the fixed-point value with raw bits `x`, as computed
/// through double precision; `None` when that result is not finite or does not fit.
pub uninterp spec fn ln_result(x: i128) -> Option<i128>;

/// Raw bits of `base^exponent` for fixed-point values given by their raw bits,
/// as computed through double precision; `None` when that result is not
/// finite or does not fit.
pub uninterp spec fn pow_result(base: i128, exponent: i128) -> Option<i128>;

/// Raw bits of the square root of the fixed-point value with raw bits `x`, as
/// computed through double precision; `None` when that result is not finite
/// or does not fit.
pub uninterp spec fn sqrt_result(x: i128) -> Option<i128>;

/// Relies on libm::exp, applied to the value that fixed's `to_num` gives in
/// double precision, with the result brought back by fixed's `checked_from_num`
/// (`None` for a non-finite or out-of-range result). It depends on `x` alone;
/// `exp(0.0)` is exactly `1.0`.
#[verifier::external_body]
fn raw_exp(x: i128) -> (r: Option<i128>)
    ensures
        r == exp_result(x),
        x == 0 ==> r == Some(ONE_BITS),
{
    match I64F64::checked_from_num(libm::exp(I64F64::from_bits(x).to_num())) {
        Some(v) => Some(v.to_bits()),
        None => None,
    }
}

/// Relies on libm::log, applied to the value that fixed's `to_num` gives in
/// double precision, with the result brought back by fixed's `checked_from_num`
/// (`None` for a non-finite or out-of-range result). It depends on `x` alone;
/// the logarithm of a positive value in range is finite and fits.
#[verifier::external_body]
fn raw_ln(x: i128) -> (r: Option<i128>)
    ensures
        r == ln_result(x),
        x > 0 ==> r is Some,
{
    match I64F64::checked_from_num(libm::log(I64F64::from_bits(x).to_num())) {
        Some(v) => Some(v.to_bits()),
        None => None,
    }
}

/// Relies on libm::pow, applied to the values that fixed's `to_num` gives in
/// double precision, with the result brought back by fixed's `checked_from_num`
/// (`None` for a non-finite or out-of-range result). It depends on the
/// arguments alone; `+0` raised to a positive power is `+0`.
#[verifier::external_body]
fn raw_pow(base: i128, exponent: i128) -> (r: Option<i128>)
    ensures
        r == pow_result(base, exponent),
        base == 0 && exponent > 0 ==> r == Some(0i128),
{
    let b = I64F64::from_bits(base).to_num();
    let e = I64F64::from_bits(exponent).to_num();
    match I64F64::checked_from_num(libm::pow(b, e)) {
        Some(v) => Some(v.to_bits()),
        None => None,
    }
}

/// Relies on libm::sqrt, applied to the value that fixed's `to_num` gives in
/// double precision, with the result brought back by fixed's `checked_from_num`
/// (`None` for a non-finite or out-of-range result). It depends on `x` alone;
/// the square root of a non-negative value in range is finite, fits, and is
/// non-negative.
#[verifier::external_body]
fn raw_sqrt(x: i128) -> (r: Option<i128>)
    ensures
        r == sqrt_result(x),
        x >= 0 ==> r is Some && r->Some_0 >= 0,
{
    match I64F64::checked_from_num(libm::sqrt(I64F64::from_bits(x).to_num())) {
        Some(v) => Some(v.to_bits()),
        None => None,
    }
}

/// The outcome of a transcendental evaluation: its value, or a non-finite-result error.
pub open spec fn evaluated(r: Option<i128>) -> Result<FixedPoint, BondingCurveError> {
    match r {
        Some(bits) => Ok(FixedPoint { bits }),
        None => Err(BondingCurveError::CalculationError(CalcError::NonFinite)),
    }
}

/// Whether a fixed-point value is a whole number.
pub open spec fn is_integral(x: FixedPoint) -> bool {
    (x.bits as int) % scale() == 0
}

pub open spec fn exp_spec(x: FixedPoint) -> Result<FixedPoint, BondingCurveError> {
    evaluated(exp_result(x.bits))
}

pub open spec fn ln_spec(x: FixedPoint) -> Result<FixedPoint, BondingCurveError> {
    if x.bits <= 0 {
        Err(BondingCurveError::CalculationError(CalcError::Domain))
    } else {
        evaluated(ln_result(x.bits))
    }
}

pub open spec fn pow_spec(base: FixedPoint, exponent: FixedPoint) -> Result<
    FixedPoint,
    BondingCurveError,
> {
    if base.bits < 0 && !is_integral(exponent) {
        Err(BondingCurveError::CalculationError(CalcError::Domain))
    } else {
        evaluated(pow_result(base.bits, exponent.bits))
    }
}

pub open spec fn sqrt_spec(x: FixedPoint) -> Result<FixedPoint, BondingCurveError> {
    if x.bits < 0 {
        Err(BondingCurveError::CalculationError(CalcError::Domain))
    } else {
        evaluated(sqrt_result(x.bits))
    }
}

fn to_outcome(r: Option<i128>) -> (o: Result<FixedPoint, BondingCurveError>)
    ensures
        o == evaluated(r),
{
    match r {
        Some(bits) => Ok(FixedPoint { bits }),
        None => Err(BondingCurveError::CalculationError(CalcError::NonFinite)),
    }
}

/// `e^x`; fails when the result is not finite or out of range.
pub fn exp_fixed(x: FixedPoint) -> (r: Result<FixedPoint, BondingCurveError>)
    ensures
        r == exp_spec(x),
        x.bits == 0 ==> r == Ok::<FixedPoint, BondingCurveError>(FixedPoint::one_spec()),
{
    to_outcome(raw_exp(x.bits))
}

/// The natural logarithm; fails with a domain error for `x <= 0`.
pub fn ln_fixed(x: FixedPoint) -> (r: Result<FixedPoint, BondingCurveError>)
    ensures
        r == ln_spec(x),
        x.bits > 0 ==> r is Ok,
{
    if x.bits <= 0 {
        return Err(BondingCurveError::CalculationError(CalcError::Domain));
    }
    to_outcome(raw_ln(x.bits))
}

/// `base^exponent`; fails with a domain error for a negative base under a
/// fractional exponent.
pub fn pow_fixed(base: FixedPoint, exponent: FixedPoint) -> (r: Result<
    FixedPoint,
    BondingCurveError,
>)
    ensures
        r == pow_spec(base, exponent),
        base.bits == 0 && exponent.bits > 0 ==> r == Ok::<FixedPoint, BondingCurveError>(
            FixedPoint { bits: 0 },
        ),
{
    if base.bits < 0 && exponent.bits % ONE_BITS != 0 {
        return Err(BondingCurveError::CalculationError(CalcError::Domain));
    }
    to_outcome(raw_pow(base.bits, exponent.bits))
}

/// The square root; fails with a domain error for `x < 0`.
pub fn sqrt_fixed(x: FixedPoint) -> (r: Result<FixedPoint, BondingCurveError>)
    ensures
        r == sqrt_spec(x),
        x.bits >= 0 ==> r is Ok && r->Ok_0.bits >= 0,
{
    if x.bits < 0 {
        return Err(BondingCurveError::CalculationError(CalcError::Domain));
    }
    to_outcome(raw_sqrt(x.bits))
}

} // verus!
