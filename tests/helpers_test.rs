use bonding_curves::transcendental::{exp_fixed, ln_fixed, pow_fixed, sqrt_fixed};
use bonding_curves::{BondingCurveError, CalcError, FixedPoint};
use fixed::types::I64F64;

fn fx(v: f64) -> FixedPoint {
    FixedPoint::from_bits(I64F64::from_num(v).to_bits())
}

fn num(x: FixedPoint) -> I64F64 {
    I64F64::from_bits(x.to_bits())
}

fn close(actual: FixedPoint, expected: f64) -> bool {
    (num(actual) - I64F64::from_num(expected)).abs() < I64F64::from_num(0.000001)
}

#[test]
fn test_fixed_point_arithmetic() {
    assert_eq!(fx(3.0).checked_mul(fx(4.0)).unwrap(), fx(12.0));
    assert_eq!(fx(1.0).checked_div(fx(4.0)).unwrap(), fx(0.25));
    assert_eq!(fx(-1.0).checked_div(fx(3.0)).unwrap().to_bits(), -(1i128 << 64) / 3);
    assert_eq!(fx(2.5).checked_add(fx(0.5)).unwrap(), fx(3.0));
    assert_eq!(fx(2.5).checked_sub(fx(3.0)).unwrap(), fx(-0.5));
    assert_eq!(FixedPoint::from_int(7), fx(7.0));
    assert_eq!(FixedPoint::one(), fx(1.0));
}

#[test]
fn test_fixed_point_rounding() {
    // Products round toward negative infinity, quotients toward zero.
    let tiny = FixedPoint::from_bits(1);
    let half = fx(0.5);
    assert_eq!(tiny.checked_mul(half).unwrap().to_bits(), 0);
    assert_eq!(FixedPoint::from_bits(-1).checked_mul(half).unwrap().to_bits(), -1);
    assert_eq!(FixedPoint::from_bits(-1).checked_div(fx(2.0)).unwrap().to_bits(), 0);
}

#[test]
fn test_fixed_point_errors() {
    assert_eq!(
        fx(1.0).checked_div(fx(0.0)),
        Err(BondingCurveError::CalculationError(CalcError::DivisionByZero))
    );
    assert_eq!(
        fx(4.0e18).checked_mul(fx(4.0)),
        Err(BondingCurveError::CalculationError(CalcError::Overflow))
    );
    assert_eq!(
        FixedPoint::from_bits(i128::MAX).checked_add(FixedPoint::from_bits(1)),
        Err(BondingCurveError::CalculationError(CalcError::Overflow))
    );
    assert_eq!(
        FixedPoint::from_bits(i128::MIN).checked_sub(FixedPoint::from_bits(1)),
        Err(BondingCurveError::CalculationError(CalcError::Overflow))
    );
}

#[test]
fn test_exp_fixed() {
    assert!(close(exp_fixed(fx(1.0)).unwrap(), std::f64::consts::E));
    assert!(close(exp_fixed(fx(0.0)).unwrap(), 1.0));
    assert_eq!(
        exp_fixed(fx(100.0)),
        Err(BondingCurveError::CalculationError(CalcError::NonFinite))
    );
}

#[test]
fn test_ln_fixed() {
    assert!(close(ln_fixed(fx(std::f64::consts::E)).unwrap(), 1.0));
    assert!(close(ln_fixed(fx(8.0)).unwrap(), 8.0f64.ln()));
    assert_eq!(ln_fixed(fx(0.0)), Err(BondingCurveError::CalculationError(CalcError::Domain)));
    assert_eq!(ln_fixed(fx(-2.0)), Err(BondingCurveError::CalculationError(CalcError::Domain)));
}

#[test]
fn test_pow_fixed() {
    assert!(close(pow_fixed(fx(2.0), fx(3.0)).unwrap(), 8.0));
    assert!(close(pow_fixed(fx(9.0), fx(0.5)).unwrap(), 3.0));
    assert!(close(pow_fixed(fx(-2.0), fx(3.0)).unwrap(), -8.0));
    assert_eq!(
        pow_fixed(fx(-2.0), fx(0.5)),
        Err(BondingCurveError::CalculationError(CalcError::Domain))
    );
    assert_eq!(
        pow_fixed(fx(10.0), fx(30.0)),
        Err(BondingCurveError::CalculationError(CalcError::NonFinite))
    );
}

#[test]
fn test_sqrt_fixed() {
    assert!(close(sqrt_fixed(fx(9.0)).unwrap(), 3.0));
    assert!(close(sqrt_fixed(fx(2.0)).unwrap(), 2.0f64.sqrt()));
    assert_eq!(sqrt_fixed(fx(-1.0)), Err(BondingCurveError::CalculationError(CalcError::Domain)));
}

#[test]
fn test_error_descriptions() {
    let e = BondingCurveError::CalculationError(CalcError::Domain);
    assert!(e.description().starts_with("Calculation error"));
    let e = BondingCurveError::InvalidInput(bonding_curves::InputError::NonPositiveAmount);
    assert_eq!(e.description(), "Invalid input: amount must be positive");
}
