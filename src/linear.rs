use vstd::prelude::*;

use crate::curve::BondingCurve;
use crate::errors::{BondingCurveError, InputError};
use crate::fixed_point::{
    lemma_product_monotone, product_bits, quotient_bits, FixedPoint, TWO_BITS,
};

verus! {

/// Price `P(S) = k * S` with slope `k`.
#[derive(Clone, Copy, Debug)]
pub struct Linear {
    pub slope: FixedPoint,
    pub token_supply: FixedPoint,
}

impl Linear {
    /// `k * (s * s) / 2`, the antiderivative of the price at `s`.
    pub open spec fn half_square_spec(self, s: FixedPoint) -> Result<FixedPoint, BondingCurveError> {
        match s.mul_spec(s) {
            Err(e) => Err(e),
            Ok(sq) => match self.slope.mul_spec(sq) {
                Err(e) => Err(e),
                Ok(p) => p.div_spec(FixedPoint { bits: TWO_BITS }),
            },
        }
    }

    /// The integral of the price from supply `lo` to supply `hi`.
    pub open spec fn area_spec(self, lo: FixedPoint, hi: FixedPoint) -> Result<
        FixedPoint,
        BondingCurveError,
    > {
        match self.half_square_spec(hi) {
            Err(e) => Err(e),
            Ok(upper) => match self.half_square_spec(lo) {
                Err(e) => Err(e),
                Ok(lower) => upper.sub_spec(lower),
            },
        }
    }

    /// A curve with slope `slope` and no tokens issued; the slope must be positive.
    pub fn new(slope: FixedPoint) -> (r: Result<Linear, BondingCurveError>)
        ensures
            slope.bits <= 0 <==> r == Err::<Linear, BondingCurveError>(
                BondingCurveError::InvalidInput(InputError::NonPositiveParameter),
            ),
            r is Ok <==> slope.bits > 0,
            r matches Ok(c) ==> c.wf() && c.slope == slope && c.token_supply.bits == 0,
    {
        if slope.bits <= 0 {
            return Err(BondingCurveError::InvalidInput(InputError::NonPositiveParameter));
        }
        Ok(Linear { slope, token_supply: FixedPoint::zero() })
    }

    fn half_square(&self, s: FixedPoint) -> (r: Result<FixedPoint, BondingCurveError>)
        ensures
            r == self.half_square_spec(s),
    {
        let sq = s.checked_mul(s)?;
        let p = self.slope.checked_mul(sq)?;
        p.checked_div(FixedPoint::from_bits(TWO_BITS))
    }

    fn area(&self, lo: FixedPoint, hi: FixedPoint) -> (r: Result<FixedPoint, BondingCurveError>)
        ensures
            r == self.area_spec(lo, hi),
    {
        let upper = self.half_square(hi)?;
        let lower = self.half_square(lo)?;
        upper.checked_sub(lower)
    }
}

impl BondingCurve for Linear {
    open spec fn wf(&self) -> bool {
        self.slope.bits > 0 && self.token_supply.bits >= 0
    }

    open spec fn supply_spec(&self) -> FixedPoint {
        self.token_supply
    }

    open spec fn reserve_spec(&self) -> Option<FixedPoint> {
        None
    }

    open spec fn price_spec(&self) -> Result<FixedPoint, BondingCurveError> {
        self.slope.mul_spec(self.token_supply)
    }

    open spec fn buy_spec(&self, amount: FixedPoint) -> Result<(Self, FixedPoint), BondingCurveError> {
        if amount.bits <= 0 {
            Err(BondingCurveError::InvalidInput(InputError::NonPositiveAmount))
        } else {
            match self.token_supply.add_spec(amount) {
                Err(e) => Err(e),
                Ok(n) => match self.area_spec(self.token_supply, n) {
                    Err(e) => Err(e),
                    Ok(cost) => Ok((Linear { slope: self.slope, token_supply: n }, cost)),
                },
            }
        }
    }

    open spec fn sell_spec(&self, amount: FixedPoint) -> Result<(Self, FixedPoint), BondingCurveError> {
        if amount.bits <= 0 {
            Err(BondingCurveError::InvalidInput(InputError::NonPositiveAmount))
        } else if amount.bits > self.token_supply.bits {
            Err(BondingCurveError::InvalidInput(InputError::AmountExceedsSupply))
        } else {
            let n = FixedPoint { bits: (self.token_supply.bits - amount.bits) as i128 };
            match self.area_spec(n, self.token_supply) {
                Err(e) => Err(e),
                Ok(refund) => Ok((Linear { slope: self.slope, token_supply: n }, refund)),
            }
        }
    }

    fn get_price(&self) -> (r: Result<FixedPoint, BondingCurveError>) {
        self.slope.checked_mul(self.token_supply)
    }

    fn buy_token(&mut self, amount: FixedPoint) -> (r: Result<FixedPoint, BondingCurveError>) {
        if amount.bits <= 0 {
            return Err(BondingCurveError::InvalidInput(InputError::NonPositiveAmount));
        }
        let n = self.token_supply.checked_add(amount)?;
        let cost = self.area(self.token_supply, n)?;
        self.token_supply = n;
        Ok(cost)
    }

    /// A sale of the whole supply succeeds whenever `k * S^2 / 2` fits, and
    /// refunds exactly that.
    fn sell_token(&mut self, amount: FixedPoint) -> (r: Result<FixedPoint, BondingCurveError>)
        ensures
            amount.bits > 0 && amount == old(self).token_supply && old(self).half_square_spec(
                amount,
            ) is Ok ==> r == old(self).half_square_spec(amount) && final(self).token_supply.bits
                == 0,
    {
        if amount.bits <= 0 {
            return Err(BondingCurveError::InvalidInput(InputError::NonPositiveAmount));
        }
        if amount.bits > self.token_supply.bits {
            return Err(BondingCurveError::InvalidInput(InputError::AmountExceedsSupply));
        }
        let n = FixedPoint::from_bits(self.token_supply.bits - amount.bits);
        proof {
            let k = self.slope.bits as int;
            assert(0 * 0 == 0 && k * 0 == 0);
            assert(product_bits(0, 0) == 0);
            assert(product_bits(k, 0) == 0);
            assert(quotient_bits(0, TWO_BITS as int) == 0);
        }
        let refund = self.area(n, self.token_supply)?;
        self.token_supply = n;
        Ok(refund)
    }

    fn get_supply(&self) -> (r: FixedPoint) {
        self.token_supply
    }

    fn get_reserve(&self) -> (r: Option<FixedPoint>) {
        None
    }
}

/// Buying `amount` and then selling the same amount restores the curve
/// exactly, and the refund equals the cost.
pub proof fn lemma_linear_round_trip(c: Linear, amount: FixedPoint)
    requires
        c.wf(),
        c.buy_spec(amount) is Ok,
    ensures
        ({
            let (next, cost) = c.buy_spec(amount)->Ok_0;
            next.sell_spec(amount) == Ok::<(Linear, FixedPoint), BondingCurveError>((c, cost))
        }),
{
}

/// The price never decreases as the supply grows: where it is defined at a
/// larger supply, it is defined and no larger at a smaller one.
pub proof fn lemma_linear_price_monotone(c: Linear, d: Linear)
    requires
        c.wf(),
        d.wf(),
        c.slope == d.slope,
        c.token_supply.bits <= d.token_supply.bits,
        d.price_spec() is Ok,
    ensures
        c.price_spec() is Ok,
        c.price_spec()->Ok_0.bits <= d.price_spec()->Ok_0.bits,
{
    lemma_product_monotone(c.slope.bits as int, c.token_supply.bits as int, d.token_supply.bits as int);
}

} // verus!
