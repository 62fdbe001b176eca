use vstd::prelude::*;

use crate::curve::BondingCurve;
use crate::errors::{BondingCurveError, InputError};
use crate::fixed_point::{lemma_product_monotone, FixedPoint, ONE_BITS};
use crate::transcendental::{pow_fixed, pow_result, pow_spec};

verus! {

/// Price `P(S) = c * S^n` with coefficient `c` and exponent `n`.
#[derive(Clone, Copy, Debug)]
pub struct Exponential {
    pub coefficient: FixedPoint,
    pub exponent: FixedPoint,
    pub token_supply: FixedPoint,
}

impl Exponential {
    /// `(c / (n + 1)) * hi^(n + 1) - (c / (n + 1)) * lo^(n + 1)`, the integral
    /// of the price from supply `lo` to supply `hi`, given `n1 = n + 1`.
    pub open spec fn area_spec(self, n1: FixedPoint, lo: FixedPoint, hi: FixedPoint) -> Result<
        FixedPoint,
        BondingCurveError,
    > {
        match pow_spec(hi, n1) {
            Err(e) => Err(e),
            Ok(upper) => match pow_spec(lo, n1) {
                Err(e) => Err(e),
                Ok(lower) => match self.coefficient.div_spec(n1) {
                    Err(e) => Err(e),
                    Ok(q) => match q.mul_spec(upper) {
                        Err(e) => Err(e),
                        Ok(a) => match q.mul_spec(lower) {
                            Err(e) => Err(e),
                            Ok(b) => a.sub_spec(b),
                        },
                    },
                },
            },
        }
    }

    /// A curve with the given coefficient and exponent and no tokens issued;
    /// both must be positive.
    pub fn new(coefficient: FixedPoint, exponent: FixedPoint) -> (r: Result<
        Exponential,
        BondingCurveError,
    >)
        ensures
            coefficient.bits <= 0 || exponent.bits <= 0 <==> r == Err::<
                Exponential,
                BondingCurveError,
            >(BondingCurveError::InvalidInput(InputError::NonPositiveParameter)),
            r is Ok <==> coefficient.bits > 0 && exponent.bits > 0,
            r matches Ok(c) ==> c.wf() && c.coefficient == coefficient && c.exponent == exponent
                && c.token_supply.bits == 0,
    {
        if coefficient.bits <= 0 || exponent.bits <= 0 {
            return Err(BondingCurveError::InvalidInput(InputError::NonPositiveParameter));
        }
        Ok(Exponential { coefficient, exponent, token_supply: FixedPoint::zero() })
    }

    fn area(&self, n1: FixedPoint, lo: FixedPoint, hi: FixedPoint) -> (r: Result<
        FixedPoint,
        BondingCurveError,
    >)
        ensures
            r == self.area_spec(n1, lo, hi),
    {
        let upper = pow_fixed(hi, n1)?;
        let lower = pow_fixed(lo, n1)?;
        let q = self.coefficient.checked_div(n1)?;
        let a = q.checked_mul(upper)?;
        let b = q.checked_mul(lower)?;
        a.checked_sub(b)
    }
}

impl BondingCurve for Exponential {
    open spec fn wf(&self) -> bool {
        &&& self.coefficient.bits > 0
        &&& self.exponent.bits > 0
        &&& self.token_supply.bits >= 0
    }

    open spec fn supply_spec(&self) -> FixedPoint {
        self.token_supply
    }

    open spec fn reserve_spec(&self) -> Option<FixedPoint> {
        None
    }

    open spec fn price_spec(&self) -> Result<FixedPoint, BondingCurveError> {
        match pow_spec(self.token_supply, self.exponent) {
            Err(e) => Err(e),
            Ok(p) => self.coefficient.mul_spec(p),
        }
    }

    open spec fn buy_spec(&self, amount: FixedPoint) -> Result<(Self, FixedPoint), BondingCurveError> {
        if amount.bits <= 0 {
            Err(BondingCurveError::InvalidInput(InputError::NonPositiveAmount))
        } else {
            match self.exponent.add_spec(FixedPoint { bits: ONE_BITS }) {
                Err(e) => Err(e),
                Ok(n1) => match self.token_supply.add_spec(amount) {
                    Err(e) => Err(e),
                    Ok(s) => match self.area_spec(n1, self.token_supply, s) {
                        Err(e) => Err(e),
                        Ok(cost) => Ok((Exponential { token_supply: s, ..*self }, cost)),
                    },
                },
            }
        }
    }

    open spec fn sell_spec(&self, amount: FixedPoint) -> Result<(Self, FixedPoint), BondingCurveError> {
        if amount.bits <= 0 {
            Err(BondingCurveError::InvalidInput(InputError::NonPositiveAmount))
        } else if amount.bits > self.token_supply.bits {
            Err(BondingCurveError::InvalidInput(InputError::AmountExceedsSupply))
        } else {
            let s = FixedPoint { bits: (self.token_supply.bits - amount.bits) as i128 };
            match self.exponent.add_spec(FixedPoint { bits: ONE_BITS }) {
                Err(e) => Err(e),
                Ok(n1) => match self.area_spec(n1, s, self.token_supply) {
                    Err(e) => Err(e),
                    Ok(refund) => Ok((Exponential { token_supply: s, ..*self }, refund)),
                },
            }
        }
    }

    /// At zero supply the price is exactly zero.
    fn get_price(&self) -> (r: Result<FixedPoint, BondingCurveError>)
        ensures
            self.token_supply.bits == 0 ==> r == Ok::<FixedPoint, BondingCurveError>(
                FixedPoint { bits: 0 },
            ),
    {
        let p = pow_fixed(self.token_supply, self.exponent)?;
        proof {
            assert(self.coefficient.bits * 0 == 0);
        }
        self.coefficient.checked_mul(p)
    }

    fn buy_token(&mut self, amount: FixedPoint) -> (r: Result<FixedPoint, BondingCurveError>) {
        if amount.bits <= 0 {
            return Err(BondingCurveError::InvalidInput(InputError::NonPositiveAmount));
        }
        let n1 = self.exponent.checked_add(FixedPoint::one())?;
        let s = self.token_supply.checked_add(amount)?;
        let cost = self.area(n1, self.token_supply, s)?;
        self.token_supply = s;
        Ok(cost)
    }

    fn sell_token(&mut self, amount: FixedPoint) -> (r: Result<FixedPoint, BondingCurveError>) {
        if amount.bits <= 0 {
            return Err(BondingCurveError::InvalidInput(InputError::NonPositiveAmount));
        }
        if amount.bits > self.token_supply.bits {
            return Err(BondingCurveError::InvalidInput(InputError::AmountExceedsSupply));
        }
        let s = FixedPoint::from_bits(self.token_supply.bits - amount.bits);
        let n1 = self.exponent.checked_add(FixedPoint::one())?;
        let refund = self.area(n1, s, self.token_supply)?;
        self.token_supply = s;
        Ok(refund)
    }

    fn get_supply(&self) -> (r: FixedPoint) {
        self.token_supply
    }

    fn get_reserve(&self) -> (r: Option<FixedPoint>) {
        None
    }
}

/// Buying `amount` and then selling the same amount restores the curve
/// exactly, and the refund equals the cost.
pub proof fn lemma_exponential_round_trip(c: Exponential, amount: FixedPoint)
    requires
        c.wf(),
        c.buy_spec(amount) is Ok,
    ensures
        ({
            let (next, cost) = c.buy_spec(amount)->Ok_0;
            next.sell_spec(amount) == Ok::<(Exponential, FixedPoint), BondingCurveError>((c, cost))
        }),
{
}

/// The curve's own arithmetic keeps the order of the powers it is given: of
/// two supplies on one curve, the one whose power `S^n` is no larger has a
/// price that is defined and no larger wherever the other's is defined.
pub proof fn lemma_exponential_price_follows_power(c: Exponential, d: Exponential)
    requires
        c.wf(),
        d.wf(),
        c.coefficient == d.coefficient,
        c.exponent == d.exponent,
        pow_result(c.token_supply.bits, c.exponent.bits) matches Some(p) && 0 <= p,
        pow_result(d.token_supply.bits, d.exponent.bits) matches Some(q) && pow_result(
            c.token_supply.bits,
            c.exponent.bits,
        )->Some_0 <= q,
        d.price_spec() is Ok,
    ensures
        c.price_spec() is Ok,
        c.price_spec()->Ok_0.bits <= d.price_spec()->Ok_0.bits,
{
    let p = pow_result(c.token_supply.bits, c.exponent.bits)->Some_0;
    let q = pow_result(d.token_supply.bits, d.exponent.bits)->Some_0;
    lemma_product_monotone(c.coefficient.bits as int, p as int, q as int);
}

} // verus!
