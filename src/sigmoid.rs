use vstd::arithmetic::div_mod::{
    lemma_div_is_ordered_by_denominator, lemma_fundamental_div_mod_converse,
};
use vstd::prelude::*;

use crate::curve::BondingCurve;
use crate::errors::{BondingCurveError, InputError};
use crate::fixed_point::{product_bits, quotient_bits, scale, FixedPoint};
use crate::transcendental::{exp_fixed, exp_spec, ln_fixed, ln_spec};

verus! {

/// Price `P(S) = M / (1 + e^(-k * (S - m)))` with maximum price `M`,
/// steepness `k` and midpoint `m`.
#[derive(Clone, Copy, Debug)]
pub struct Sigmoid {
    pub max_price: FixedPoint,
    pub steepness: FixedPoint,
    pub midpoint: FixedPoint,
    pub token_supply: FixedPoint,
}

impl Sigmoid {
    /// The price `M / (1 + e)` for the exponential term `e = e^(-k * (S - m))`.
    pub open spec fn price_from_exp(self, e: FixedPoint) -> Result<FixedPoint, BondingCurveError> {
        match FixedPoint::one_spec().add_spec(e) {
            Err(err) => Err(err),
            Ok(den) => self.max_price.div_spec(den),
        }
    }

    /// `ln(1 + e^(k * x))` for a supply offset `x = S - m` from the midpoint.
    pub open spec fn softplus_spec(self, x: FixedPoint) -> Result<FixedPoint, BondingCurveError> {
        match self.steepness.mul_spec(x) {
            Err(err) => Err(err),
            Ok(y) => match exp_spec(y) {
                Err(err) => Err(err),
                Ok(e) => match FixedPoint::one_spec().add_spec(e) {
                    Err(err) => Err(err),
                    Ok(z) => ln_spec(z),
                },
            },
        }
    }

    /// `(M / k) * softplus(hi) - (M / k) * softplus(lo)`, the integral of the
    /// price between supply offsets `lo` and `hi`.
    pub open spec fn area_spec(self, lo: FixedPoint, hi: FixedPoint) -> Result<
        FixedPoint,
        BondingCurveError,
    > {
        match self.softplus_spec(hi) {
            Err(err) => Err(err),
            Ok(upper) => match self.softplus_spec(lo) {
                Err(err) => Err(err),
                Ok(lower) => match self.max_price.div_spec(self.steepness) {
                    Err(err) => Err(err),
                    Ok(q) => match q.mul_spec(upper) {
                        Err(err) => Err(err),
                        Ok(a) => match q.mul_spec(lower) {
                            Err(err) => Err(err),
                            Ok(b) => a.sub_spec(b),
                        },
                    },
                },
            },
        }
    }

    /// A curve with the given maximum price, steepness and midpoint and no
    /// tokens issued; the first two must be positive, the midpoint non-negative.
    pub fn new(max_price: FixedPoint, steepness: FixedPoint, midpoint: FixedPoint) -> (r: Result<
        Sigmoid,
        BondingCurveError,
    >)
        ensures
            max_price.bits <= 0 || steepness.bits <= 0 <==> r == Err::<Sigmoid, BondingCurveError>(
                BondingCurveError::InvalidInput(InputError::NonPositiveParameter),
            ),
            max_price.bits > 0 && steepness.bits > 0 && midpoint.bits < 0 <==> r == Err::<
                Sigmoid,
                BondingCurveError,
            >(BondingCurveError::InvalidInput(InputError::NegativeMidpoint)),
            r is Ok <==> max_price.bits > 0 && steepness.bits > 0 && midpoint.bits >= 0,
            r matches Ok(c) ==> c.wf() && c.max_price == max_price && c.steepness == steepness
                && c.midpoint == midpoint && c.token_supply.bits == 0,
    {
        if max_price.bits <= 0 || steepness.bits <= 0 {
            return Err(BondingCurveError::InvalidInput(InputError::NonPositiveParameter));
        }
        if midpoint.bits < 0 {
            return Err(BondingCurveError::InvalidInput(InputError::NegativeMidpoint));
        }
        Ok(Sigmoid { max_price, steepness, midpoint, token_supply: FixedPoint::zero() })
    }

    fn softplus(&self, x: FixedPoint) -> (r: Result<FixedPoint, BondingCurveError>)
        ensures
            r == self.softplus_spec(x),
    {
        let y = self.steepness.checked_mul(x)?;
        let e = exp_fixed(y)?;
        let z = FixedPoint::one().checked_add(e)?;
        ln_fixed(z)
    }

    fn area(&self, lo: FixedPoint, hi: FixedPoint) -> (r: Result<FixedPoint, BondingCurveError>)
        ensures
            r == self.area_spec(lo, hi),
    {
        let upper = self.softplus(hi)?;
        let lower = self.softplus(lo)?;
        let q = self.max_price.checked_div(self.steepness)?;
        let a = q.checked_mul(upper)?;
        let b = q.checked_mul(lower)?;
        a.checked_sub(b)
    }
}

impl BondingCurve for Sigmoid {
    open spec fn wf(&self) -> bool {
        &&& self.max_price.bits > 0
        &&& self.steepness.bits > 0
        &&& self.midpoint.bits >= 0
        &&& self.token_supply.bits >= 0
    }

    open spec fn supply_spec(&self) -> FixedPoint {
        self.token_supply
    }

    open spec fn reserve_spec(&self) -> Option<FixedPoint> {
        None
    }

    open spec fn price_spec(&self) -> Result<FixedPoint, BondingCurveError> {
        match self.token_supply.sub_spec(self.midpoint) {
            Err(err) => Err(err),
            Ok(x) => match (FixedPoint { bits: (-self.steepness.bits) as i128 }).mul_spec(x) {
                Err(err) => Err(err),
                Ok(y) => match exp_spec(y) {
                    Err(err) => Err(err),
                    Ok(e) => self.price_from_exp(e),
                },
            },
        }
    }

    open spec fn buy_spec(&self, amount: FixedPoint) -> Result<(Self, FixedPoint), BondingCurveError> {
        if amount.bits <= 0 {
            Err(BondingCurveError::InvalidInput(InputError::NonPositiveAmount))
        } else {
            match self.token_supply.add_spec(amount) {
                Err(err) => Err(err),
                Ok(s) => match s.sub_spec(self.midpoint) {
                    Err(err) => Err(err),
                    Ok(hi) => match self.token_supply.sub_spec(self.midpoint) {
                        Err(err) => Err(err),
                        Ok(lo) => match self.area_spec(lo, hi) {
                            Err(err) => Err(err),
                            Ok(cost) => Ok((Sigmoid { token_supply: s, ..*self }, cost)),
                        },
                    },
                },
            }
        }
    }

    open spec fn sell_spec(&self, amount: FixedPoint) -> Result<(Self, FixedPoint), BondingCurveError> {
        if amount.bits <= 0 {
            Err(BondingCurveError::InvalidInput(InputError::NonPositiveAmount))
        } else if amount.bits > self.token_supply.bits {
            Err(BondingCurveError::InvalidInput(InputError::AmountExceedsSupply))
        } else {
            let s = FixedPoint { bits: (self.token_supply.bits - amount.bits) as i128 };
            match self.token_supply.sub_spec(self.midpoint) {
                Err(err) => Err(err),
                Ok(hi) => match s.sub_spec(self.midpoint) {
                    Err(err) => Err(err),
                    Ok(lo) => match self.area_spec(lo, hi) {
                        Err(err) => Err(err),
                        Ok(refund) => Ok((Sigmoid { token_supply: s, ..*self }, refund)),
                    },
                },
            }
        }
    }

    /// At the midpoint the price is exactly half the maximum price.
    fn get_price(&self) -> (r: Result<FixedPoint, BondingCurveError>)
        ensures
            self.token_supply == self.midpoint ==> r == Ok::<FixedPoint, BondingCurveError>(
                FixedPoint { bits: (self.max_price.bits / 2) as i128 },
            ),
    {
        let x = self.token_supply.checked_sub(self.midpoint)?;
        let neg_k = FixedPoint::from_bits(-self.steepness.bits);
        proof {
            if self.token_supply == self.midpoint {
                assert(neg_k.bits * 0 == 0);
                assert(product_bits(neg_k.bits as int, x.bits as int) == 0);
                lemma_half_of_max(self.max_price.bits as int);
            }
        }
        let y = neg_k.checked_mul(x)?;
        let e = exp_fixed(y)?;
        let den = FixedPoint::one().checked_add(e)?;
        self.max_price.checked_div(den)
    }

    fn buy_token(&mut self, amount: FixedPoint) -> (r: Result<FixedPoint, BondingCurveError>) {
        if amount.bits <= 0 {
            return Err(BondingCurveError::InvalidInput(InputError::NonPositiveAmount));
        }
        let s = self.token_supply.checked_add(amount)?;
        let hi = s.checked_sub(self.midpoint)?;
        let lo = self.token_supply.checked_sub(self.midpoint)?;
        let cost = self.area(lo, hi)?;
        self.token_supply = s;
        Ok(cost)
    }

    fn sell_token(&mut self, amount: FixedPoint) -> (r: Result<FixedPoint, BondingCurveError>) {
        if amount.bits <= 0 {
            return Err(BondingCurveError::InvalidInput(InputError::NonPositiveAmount));
        }
        if amount.bits > self.token_supply.bits {
            return Err(BondingCurveError::InvalidInput(InputError::AmountExceedsSupply));
        }
        let s = FixedPoint::from_bits(self.token_supply.bits - amount.bits);
        let hi = self.token_supply.checked_sub(self.midpoint)?;
        let lo = s.checked_sub(self.midpoint)?;
        let refund = self.area(lo, hi)?;
        self.token_supply = s;
        Ok(refund)
    }

    fn get_supply(&self) -> (r: FixedPoint) {
        self.token_supply
    }

    fn get_reserve(&self) -> (r: Option<FixedPoint>) {
        None
    }
}

/// Dividing by two in fixed point halves the raw bits, rounding down.
proof fn lemma_half_of_max(m: int)
    requires
        m > 0,
    ensures
        quotient_bits(m, 2 * scale()) == m / 2,
{
    let q = m / 2;
    let r = m % 2;
    assert(m == 2 * q + r && 0 <= r < 2);
    assert(m * scale() == q * (2 * scale()) + r * scale()) by (nonlinear_arith)
        requires
            m == 2 * q + r,
    ;
    assert(0 <= r * scale() < 2 * scale()) by (nonlinear_arith)
        requires
            0 <= r < 2,
            scale() > 0,
    ;
    lemma_fundamental_div_mod_converse(m * scale(), 2 * scale(), q, r * scale());
}

/// Buying `amount` and then selling the same amount restores the curve
/// exactly, and the refund equals the cost.
pub proof fn lemma_sigmoid_round_trip(c: Sigmoid, amount: FixedPoint)
    requires
        c.wf(),
        c.buy_spec(amount) is Ok,
    ensures
        ({
            let (next, cost) = c.buy_spec(amount)->Ok_0;
            next.sell_spec(amount) == Ok::<(Sigmoid, FixedPoint), BondingCurveError>((c, cost))
        }),
{
}

/// The curve's own arithmetic reverses the order of the exponential terms it
/// is given: a term that is no larger gives a price that is no smaller.
pub proof fn lemma_sigmoid_price_follows_exp(c: Sigmoid, e_more: FixedPoint, e_less: FixedPoint)
    requires
        c.wf(),
        0 <= e_less.bits <= e_more.bits,
        c.price_from_exp(e_more) is Ok,
        c.price_from_exp(e_less) is Ok,
    ensures
        c.price_from_exp(e_more)->Ok_0.bits <= c.price_from_exp(e_less)->Ok_0.bits,
{
    let m = c.max_price.bits as int;
    assert(m * scale() >= 0) by (nonlinear_arith)
        requires
            m > 0,
            scale() > 0,
    ;
    lemma_div_is_ordered_by_denominator(
        m * scale(),
        scale() + e_less.bits,
        scale() + e_more.bits,
    );
}

} // verus!
