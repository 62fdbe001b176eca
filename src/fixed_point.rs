use vstd::arithmetic::div_mod::lemma_div_is_ordered;
use vstd::arithmetic::mul::lemma_mul_inequality;
use vstd::math::abs;
use vstd::prelude::*;

use fixed::types::I64F64;

use crate::errors::{BondingCurveError, CalcError};

verus! {

/// Number of units of `bits` in one whole unit: there are 64 fractional bits.
pub open spec fn scale() -> int {
    0x1_0000_0000_0000_0000
}

/// `bits` of the fixed-point value one.
pub const ONE_BITS: i128 = 0x1_0000_0000_0000_0000;

/// `bits` of the fixed-point value two.
pub const TWO_BITS: i128 = 0x2_0000_0000_0000_0000;

/// Whether an integer is representable as the raw bits of a fixed-point value.
pub open spec fn fits(v: int) -> bool {
    i128::MIN <= v <= i128::MAX
}

/// Integer division that rounds toward zero.
pub open spec fn trunc_div(n: int, d: int) -> int {
    let q: int = (abs(n) / abs(d)) as int;
    if (n < 0) == (d < 0) {
        q
    } else {
        -q
    }
}

/// Raw bits of the exact product of two fixed-point values, rounded toward negative infinity.
pub open spec fn product_bits(a: int, b: int) -> int {
    (a * b) / scale()
}

/// Raw bits of the exact quotient of two fixed-point values, rounded toward zero.
pub open spec fn quotient_bits(a: int, b: int) -> int {
    trunc_div(a * scale(), b)
}

/// A signed binary fixed-point number with 64 integer and 64 fractional bits.
/// Its value is `bits / 2^64`.
#[derive(Clone, Copy, Debug, PartialEq, Eq, Structural)]
pub struct FixedPoint {
    pub bits: i128,
}

/// The fixed-point value with the given raw bits, or an overflow error when they do not fit.
pub open spec fn checked_bits(v: int) -> Result<FixedPoint, BondingCurveError> {
    if fits(v) {
        Ok(FixedPoint { bits: v as i128 })
    } else {
        Err(BondingCurveError::CalculationError(CalcError::Overflow))
    }
}

/// A product with a non-negative factor grows with the other factor and
/// stays non-negative when both are.
pub proof fn lemma_product_monotone(k: int, a: int, b: int)
    requires
        k >= 0,
        a <= b,
    ensures
        product_bits(k, a) <= product_bits(k, b),
        a >= 0 ==> product_bits(k, a) >= 0,
{
    lemma_mul_inequality(a, b, k);
    assert(k * a == a * k && k * b == b * k) by (nonlinear_arith);
    lemma_div_is_ordered(k * a, k * b, scale());
    if a >= 0 {
        lemma_mul_inequality(0, a, k);
        lemma_div_is_ordered(0, k * a, scale());
    }
}

/// A quotient of a non-negative value by a positive one is non-negative.
pub proof fn lemma_quotient_nonneg(a: int, b: int)
    requires
        a >= 0,
        b > 0,
    ensures
        quotient_bits(a, b) >= 0,
{
    assert(a * scale() >= 0) by (nonlinear_arith)
        requires
            a >= 0,
            scale() > 0,
    ;
}

/// Relies on fixed's `FixedI128::checked_mul` with 64 fractional bits: the
/// wide product shifted right by 64 bits, or `None` when it does not fit.
#[verifier::external_body]
fn raw_mul(a: i128, b: i128) -> (r: Option<i128>)
    ensures
        r == (if fits(product_bits(a as int, b as int)) {
            Some(product_bits(a as int, b as int) as i128)
        } else {
            None
        }),
{
    match I64F64::from_bits(a).checked_mul(I64F64::from_bits(b)) {
        Some(v) => Some(v.to_bits()),
        None => None,
    }
}

/// Relies on fixed's `FixedI128::checked_div` with 64 fractional bits: the
/// dividend shifted left by 64 bits, divided with truncation toward zero,
/// or `None` for a zero divisor or a quotient that does not fit.
#[verifier::external_body]
fn raw_div(a: i128, b: i128) -> (r: Option<i128>)
    ensures
        r == (if b != 0 && fits(quotient_bits(a as int, b as int)) {
            Some(quotient_bits(a as int, b as int) as i128)
        } else {
            None
        }),
{
    match I64F64::from_bits(a).checked_div(I64F64::from_bits(b)) {
        Some(v) => Some(v.to_bits()),
        None => None,
    }
}

impl FixedPoint {
    pub open spec fn add_spec(self, o: FixedPoint) -> Result<FixedPoint, BondingCurveError> {
        checked_bits(self.bits + o.bits)
    }

    pub open spec fn sub_spec(self, o: FixedPoint) -> Result<FixedPoint, BondingCurveError> {
        checked_bits(self.bits - o.bits)
    }

    pub open spec fn mul_spec(self, o: FixedPoint) -> Result<FixedPoint, BondingCurveError> {
        checked_bits(product_bits(self.bits as int, o.bits as int))
    }

    pub open spec fn div_spec(self, o: FixedPoint) -> Result<FixedPoint, BondingCurveError> {
        if o.bits == 0 {
            Err(BondingCurveError::CalculationError(CalcError::DivisionByZero))
        } else {
            checked_bits(quotient_bits(self.bits as int, o.bits as int))
        }
    }

    /// The fixed-point value one.
    pub open spec fn one_spec() -> FixedPoint {
        FixedPoint { bits: ONE_BITS }
    }

    pub fn from_bits(bits: i128) -> (r: FixedPoint)
        ensures
            r.bits == bits,
    {
        FixedPoint { bits }
    }

    pub fn to_bits(self) -> (r: i128)
        ensures
            r == self.bits,
    {
        self.bits
    }

    pub fn zero() -> (r: FixedPoint)
        ensures
            r.bits == 0,
    {
        FixedPoint { bits: 0 }
    }

    pub fn one() -> (r: FixedPoint)
        ensures
            r == FixedPoint::one_spec(),
            r.bits == scale(),
    {
        FixedPoint { bits: ONE_BITS }
    }

    /// The whole number `n` as a fixed-point value.
    pub fn from_int(n: i64) -> (r: FixedPoint)
        ensures
            r.bits == n * scale(),
    {
        assert(i64::MIN * scale() <= n * scale() <= i64::MAX * scale()) by (nonlinear_arith)
            requires
                i64::MIN <= n <= i64::MAX,
                scale() > 0,
        ;
        FixedPoint { bits: (n as i128) * ONE_BITS }
    }

    pub fn checked_add(self, o: FixedPoint) -> (r: Result<FixedPoint, BondingCurveError>)
        ensures
            r == self.add_spec(o),
    {
        match self.bits.checked_add(o.bits) {
            Some(b) => Ok(FixedPoint { bits: b }),
            None => Err(BondingCurveError::CalculationError(CalcError::Overflow)),
        }
    }

    pub fn checked_sub(self, o: FixedPoint) -> (r: Result<FixedPoint, BondingCurveError>)
        ensures
            r == self.sub_spec(o),
    {
        match self.bits.checked_sub(o.bits) {
            Some(b) => Ok(FixedPoint { bits: b }),
            None => Err(BondingCurveError::CalculationError(CalcError::Overflow)),
        }
    }

    pub fn checked_mul(self, o: FixedPoint) -> (r: Result<FixedPoint, BondingCurveError>)
        ensures
            r == self.mul_spec(o),
    {
        match raw_mul(self.bits, o.bits) {
            Some(b) => Ok(FixedPoint { bits: b }),
            None => Err(BondingCurveError::CalculationError(CalcError::Overflow)),
        }
    }

    pub fn checked_div(self, o: FixedPoint) -> (r: Result<FixedPoint, BondingCurveError>)
        ensures
            r == self.div_spec(o),
    {
        if o.bits == 0 {
            return Err(BondingCurveError::CalculationError(CalcError::DivisionByZero));
        }
        match raw_div(self.bits, o.bits) {
            Some(b) => Ok(FixedPoint { bits: b }),
            None => Err(BondingCurveError::CalculationError(CalcError::Overflow)),
        }
    }
}

} // verus!
