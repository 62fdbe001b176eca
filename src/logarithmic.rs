use vstd::prelude::*;

use crate::curve::BondingCurve;
use crate::errors::{BondingCurveError, CalcError, InputError};
use crate::fixed_point::{lemma_product_monotone, FixedPoint};
use crate::transcendental::{ln_fixed, ln_spec};

verus! {

/// Price `P(S) = c * ln(S + k)` with coefficient `c` and constant `k`.
#[derive(Clone, Copy, Debug)]
pub struct Logarithmic {
    pub coefficient: FixedPoint,
    pub constant: FixedPoint,
    pub token_supply: FixedPoint,
}

/// The error of a fixed-point operation whose result does not fit.
pub open spec fn overflow() -> Result<FixedPoint, BondingCurveError> {
    Err(BondingCurveError::CalculationError(CalcError::Overflow))
}

impl Logarithmic {
    /// The price `c * l` for a logarithm `l` of the shifted supply.
    pub open spec fn price_from_ln(self, l: FixedPoint) -> Result<FixedPoint, BondingCurveError> {
        self.coefficient.mul_spec(l)
    }

    /// `c * (x * l - x)`, the antiderivative of the price at shifted supply
    /// `x = S + k`, given its logarithm `l`.
    pub open spec fn antiderivative_spec(self, x: FixedPoint, l: FixedPoint) -> Result<
        FixedPoint,
        BondingCurveError,
    > {
        match x.mul_spec(l) {
            Err(e) => Err(e),
            Ok(xl) => match xl.sub_spec(x) {
                Err(e) => Err(e),
                Ok(inner) => self.coefficient.mul_spec(inner),
            },
        }
    }

    /// The integral of the price between shifted supplies `lo` and `hi`.
    pub open spec fn area_spec(self, lo: FixedPoint, hi: FixedPoint) -> Result<
        FixedPoint,
        BondingCurveError,
    > {
        match ln_spec(hi) {
            Err(e) => Err(e),
            Ok(ln_hi) => match ln_spec(lo) {
                Err(e) => Err(e),
                Ok(ln_lo) => match self.antiderivative_spec(hi, ln_hi) {
                    Err(e) => Err(e),
                    Ok(a) => match self.antiderivative_spec(lo, ln_lo) {
                        Err(e) => Err(e),
                        Ok(b) => a.sub_spec(b),
                    },
                },
            },
        }
    }

    /// A curve with the given coefficient and constant and no tokens issued;
    /// both must be positive.
    pub fn new(coefficient: FixedPoint, constant: FixedPoint) -> (r: Result<
        Logarithmic,
        BondingCurveError,
    >)
        ensures
            coefficient.bits <= 0 || constant.bits <= 0 <==> r == Err::<
                Logarithmic,
                BondingCurveError,
            >(BondingCurveError::InvalidInput(InputError::NonPositiveParameter)),
            r is Ok <==> coefficient.bits > 0 && constant.bits > 0,
            r matches Ok(c) ==> c.wf() && c.coefficient == coefficient && c.constant == constant
                && c.token_supply.bits == 0,
    {
        if coefficient.bits <= 0 || constant.bits <= 0 {
            return Err(BondingCurveError::InvalidInput(InputError::NonPositiveParameter));
        }
        Ok(Logarithmic { coefficient, constant, token_supply: FixedPoint::zero() })
    }

    fn antiderivative(&self, x: FixedPoint, l: FixedPoint) -> (r: Result<
        FixedPoint,
        BondingCurveError,
    >)
        ensures
            r == self.antiderivative_spec(x, l),
            r is Err ==> r == overflow(),
    {
        let xl = x.checked_mul(l)?;
        let inner = xl.checked_sub(x)?;
        self.coefficient.checked_mul(inner)
    }

    fn area(&self, lo: FixedPoint, hi: FixedPoint) -> (r: Result<FixedPoint, BondingCurveError>)
        ensures
            r == self.area_spec(lo, hi),
            lo.bits > 0 && hi.bits > 0 && r is Err ==> r == overflow(),
    {
        let ln_hi = ln_fixed(hi)?;
        let ln_lo = ln_fixed(lo)?;
        let a = self.antiderivative(hi, ln_hi)?;
        let b = self.antiderivative(lo, ln_lo)?;
        a.checked_sub(b)
    }
}

impl BondingCurve for Logarithmic {
    open spec fn wf(&self) -> bool {
        &&& self.coefficient.bits > 0
        &&& self.constant.bits > 0
        &&& self.token_supply.bits >= 0
    }

    open spec fn supply_spec(&self) -> FixedPoint {
        self.token_supply
    }

    open spec fn reserve_spec(&self) -> Option<FixedPoint> {
        None
    }

    open spec fn price_spec(&self) -> Result<FixedPoint, BondingCurveError> {
        match self.token_supply.add_spec(self.constant) {
            Err(e) => Err(e),
            Ok(x) => match ln_spec(x) {
                Err(e) => Err(e),
                Ok(l) => self.price_from_ln(l),
            },
        }
    }

    open spec fn buy_spec(&self, amount: FixedPoint) -> Result<(Self, FixedPoint), BondingCurveError> {
        if amount.bits <= 0 {
            Err(BondingCurveError::InvalidInput(InputError::NonPositiveAmount))
        } else {
            match self.token_supply.add_spec(amount) {
                Err(e) => Err(e),
                Ok(s) => match s.add_spec(self.constant) {
                    Err(e) => Err(e),
                    Ok(hi) => match self.token_supply.add_spec(self.constant) {
                        Err(e) => Err(e),
                        Ok(lo) => match self.area_spec(lo, hi) {
                            Err(e) => Err(e),
                            Ok(cost) => Ok((Logarithmic { token_supply: s, ..*self }, cost)),
                        },
                    },
                },
            }
        }
    }

    open spec fn sell_spec(&self, amount: FixedPoint) -> Result<(Self, FixedPoint), BondingCurveError> {
        if amount.bits <= 0 {
            Err(BondingCurveError::InvalidInput(InputError::NonPositiveAmount))
        } else if amount.bits > self.token_supply.bits {
            Err(BondingCurveError::InvalidInput(InputError::AmountExceedsSupply))
        } else {
            let s = FixedPoint { bits: (self.token_supply.bits - amount.bits) as i128 };
            match self.token_supply.add_spec(self.constant) {
                Err(e) => Err(e),
                Ok(hi) => match s.add_spec(self.constant) {
                    Err(e) => Err(e),
                    Ok(lo) => if lo.bits <= 0 {
                        Err(BondingCurveError::CalculationError(CalcError::Domain))
                    } else {
                        match self.area_spec(lo, hi) {
                            Err(e) => Err(e),
                            Ok(refund) => Ok((Logarithmic { token_supply: s, ..*self }, refund)),
                        }
                    },
                },
            }
        }
    }

    /// A valid curve fails to price only on fixed-point overflow.
    fn get_price(&self) -> (r: Result<FixedPoint, BondingCurveError>)
        ensures
            r is Err ==> r == overflow(),
    {
        let x = self.token_supply.checked_add(self.constant)?;
        let l = ln_fixed(x)?;
        self.coefficient.checked_mul(l)
    }

    /// A positive buy fails only on fixed-point overflow.
    fn buy_token(&mut self, amount: FixedPoint) -> (r: Result<FixedPoint, BondingCurveError>)
        ensures
            amount.bits > 0 && r is Err ==> r == overflow(),
    {
        if amount.bits <= 0 {
            return Err(BondingCurveError::InvalidInput(InputError::NonPositiveAmount));
        }
        let s = self.token_supply.checked_add(amount)?;
        let hi = s.checked_add(self.constant)?;
        let lo = self.token_supply.checked_add(self.constant)?;
        let cost = self.area(lo, hi)?;
        self.token_supply = s;
        Ok(cost)
    }

    /// A positive sale of at most the supply fails only on fixed-point overflow.
    fn sell_token(&mut self, amount: FixedPoint) -> (r: Result<FixedPoint, BondingCurveError>)
        ensures
            0 < amount.bits <= old(self).token_supply.bits && r is Err ==> r == overflow(),
    {
        if amount.bits <= 0 {
            return Err(BondingCurveError::InvalidInput(InputError::NonPositiveAmount));
        }
        if amount.bits > self.token_supply.bits {
            return Err(BondingCurveError::InvalidInput(InputError::AmountExceedsSupply));
        }
        let s = FixedPoint::from_bits(self.token_supply.bits - amount.bits);
        let hi = self.token_supply.checked_add(self.constant)?;
        let lo = s.checked_add(self.constant)?;
        if lo.bits <= 0 {
            return Err(BondingCurveError::CalculationError(CalcError::Domain));
        }
        let refund = self.area(lo, hi)?;
        self.token_supply = s;
        Ok(refund)
    }

    fn get_supply(&self) -> (r: FixedPoint) {
        self.token_supply
    }

    fn get_reserve(&self) -> (r: Option<FixedPoint>) {
        None
    }
}

/// Buying `amount` and then selling the same amount restores the curve
/// exactly, and the refund equals the cost.
pub proof fn lemma_logarithmic_round_trip(c: Logarithmic, amount: FixedPoint)
    requires
        c.wf(),
        c.buy_spec(amount) is Ok,
    ensures
        ({
            let (next, cost) = c.buy_spec(amount)->Ok_0;
            next.sell_spec(amount) == Ok::<(Logarithmic, FixedPoint), BondingCurveError>((c, cost))
        }),
{
}

/// The curve's own arithmetic keeps the order of the logarithms it is given:
/// a logarithm that is no larger gives a price that is no larger.
pub proof fn lemma_logarithmic_price_follows_ln(c: Logarithmic, l1: FixedPoint, l2: FixedPoint)
    requires
        c.wf(),
        l1.bits <= l2.bits,
        c.price_from_ln(l1) is Ok,
        c.price_from_ln(l2) is Ok,
    ensures
        c.price_from_ln(l1)->Ok_0.bits <= c.price_from_ln(l2)->Ok_0.bits,
{
    lemma_product_monotone(c.coefficient.bits as int, l1.bits as int, l2.bits as int);
}

} // verus!
