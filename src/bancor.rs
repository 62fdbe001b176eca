use vstd::prelude::*;

use crate::curve::BondingCurve;
use crate::errors::{BondingCurveError, CalcError, InputError};
use crate::fixed_point::{
    lemma_product_monotone, lemma_quotient_nonneg, scale, FixedPoint, ONE_BITS,
};

verus! {

/// `bits` of the price, 0.0001 reserve units per token, at which the first
/// buy on a curve with no supply is made.
pub const BOOTSTRAP_PRICE_BITS: i128 = 1844674407370955;

/// Price `P = R / (S * w)` for reserve `R`, supply `S` and connector weight `w`.
#[derive(Clone, Copy, Debug)]
pub struct Bancor {
    pub reserve_balance: FixedPoint,
    pub token_supply: FixedPoint,
    pub connector_weight: FixedPoint,
}

/// Whether a connector weight lies in `(0, 1]`.
pub open spec fn weight_in_range(w: FixedPoint) -> bool {
    0 < w.bits <= scale()
}

impl Bancor {
    /// A curve holding `reserve_balance` reserve against `token_supply` tokens,
    /// both whole numbers; either both are zero or both are positive.
    pub fn new(reserve_balance: i64, token_supply: i64, connector_weight: FixedPoint) -> (r: Result<
        Bancor,
        BondingCurveError,
    >)
        ensures
            !weight_in_range(connector_weight) <==> r == Err::<Bancor, BondingCurveError>(
                BondingCurveError::InvalidInput(InputError::WeightOutOfRange),
            ),
            weight_in_range(connector_weight) && token_supply == 0 && reserve_balance != 0
                <==> r == Err::<Bancor, BondingCurveError>(
                BondingCurveError::InvalidInput(InputError::ReserveWithoutSupply),
            ),
            weight_in_range(connector_weight) && reserve_balance == 0 && token_supply != 0
                <==> r == Err::<Bancor, BondingCurveError>(
                BondingCurveError::InvalidInput(InputError::SupplyWithoutReserve),
            ),
            weight_in_range(connector_weight) && (token_supply == 0 <==> reserve_balance == 0)
                && (reserve_balance < 0 || token_supply < 0) <==> r == Err::<
                Bancor,
                BondingCurveError,
            >(BondingCurveError::InvalidInput(InputError::NegativeBalance)),
            r is Ok <==> weight_in_range(connector_weight) && (token_supply == 0
                <==> reserve_balance == 0) && reserve_balance >= 0 && token_supply >= 0,
            r matches Ok(c) ==> balanced(c),
            r matches Ok(c) ==> c.wf() && c.reserve_balance.bits == reserve_balance * scale()
                && c.token_supply.bits == token_supply * scale() && c.connector_weight
                == connector_weight,
    {
        if connector_weight.bits <= 0 || connector_weight.bits > ONE_BITS {
            return Err(BondingCurveError::InvalidInput(InputError::WeightOutOfRange));
        }
        if token_supply == 0 && reserve_balance != 0 {
            return Err(BondingCurveError::InvalidInput(InputError::ReserveWithoutSupply));
        }
        if reserve_balance == 0 && token_supply != 0 {
            return Err(BondingCurveError::InvalidInput(InputError::SupplyWithoutReserve));
        }
        if reserve_balance < 0 || token_supply < 0 {
            return Err(BondingCurveError::InvalidInput(InputError::NegativeBalance));
        }
        let reserve = FixedPoint::from_int(reserve_balance);
        let supply = FixedPoint::from_int(token_supply);
        assert(reserve.bits >= 0 && supply.bits >= 0) by (nonlinear_arith)
            requires
                reserve.bits == reserve_balance * scale(),
                supply.bits == token_supply * scale(),
                reserve_balance >= 0,
                token_supply >= 0,
                scale() > 0,
        ;
        Ok(Bancor { reserve_balance: reserve, token_supply: supply, connector_weight })
    }

    /// The tokens issued for `amount` reserve at spot price `price`.
    pub open spec fn issue_spec(self, amount: FixedPoint, price: FixedPoint) -> Result<
        FixedPoint,
        BondingCurveError,
    > {
        if self.token_supply.bits == 0 {
            amount.div_spec(FixedPoint { bits: BOOTSTRAP_PRICE_BITS })
        } else {
            amount.div_spec(price)
        }
    }
}

impl BondingCurve for Bancor {
    open spec fn wf(&self) -> bool {
        &&& weight_in_range(self.connector_weight)
        &&& self.reserve_balance.bits >= 0
        &&& self.token_supply.bits >= 0
        &&& balanced(*self)
    }

    open spec fn supply_spec(&self) -> FixedPoint {
        self.token_supply
    }

    open spec fn reserve_spec(&self) -> Option<FixedPoint> {
        Some(self.reserve_balance)
    }

    open spec fn price_spec(&self) -> Result<FixedPoint, BondingCurveError> {
        if self.token_supply.bits == 0 {
            Ok(FixedPoint { bits: 0 })
        } else {
            match self.token_supply.mul_spec(self.connector_weight) {
                Err(e) => Err(e),
                Ok(d) => self.reserve_balance.div_spec(d),
            }
        }
    }

    open spec fn buy_spec(&self, amount: FixedPoint) -> Result<(Self, FixedPoint), BondingCurveError> {
        if amount.bits <= 0 {
            Err(BondingCurveError::InvalidInput(InputError::NonPositiveAmount))
        } else {
            match self.price_spec() {
                Err(e) => Err(e),
                Ok(price) => if price.bits == 0 && self.token_supply.bits != 0 {
                    Err(BondingCurveError::CalculationError(CalcError::ZeroPrice))
                } else {
                    match self.issue_spec(amount, price) {
                        Err(e) => Err(e),
                        Ok(tokens) => match self.reserve_balance.add_spec(amount) {
                            Err(e) => Err(e),
                            Ok(reserve) => match self.token_supply.add_spec(tokens) {
                                Err(e) => Err(e),
                                Ok(supply) => Ok(
                                    (
                                        Bancor {
                                            reserve_balance: reserve,
                                            token_supply: supply,
                                            connector_weight: self.connector_weight,
                                        },
                                        tokens,
                                    ),
                                ),
                            },
                        },
                    }
                },
            }
        }
    }

    /// A sale of part of the supply pays `amount * P` at the spot price, and
    /// fails when that would use up the whole reserve (or more) while tokens
    /// stay outstanding. A sale of the whole supply pays out the whole
    /// reserve, so that supply and reserve reach zero together.
    open spec fn sell_spec(&self, amount: FixedPoint) -> Result<(Self, FixedPoint), BondingCurveError> {
        if amount.bits <= 0 {
            Err(BondingCurveError::InvalidInput(InputError::NonPositiveAmount))
        } else if amount.bits > self.token_supply.bits {
            Err(BondingCurveError::InvalidInput(InputError::AmountExceedsSupply))
        } else {
            match self.price_spec() {
                Err(e) => Err(e),
                Ok(price) => match amount.mul_spec(price) {
                    Err(e) => Err(e),
                    Ok(out) => if amount.bits < self.token_supply.bits && out.bits
                        >= self.reserve_balance.bits {
                        Err(BondingCurveError::CalculationError(CalcError::InsufficientReserve))
                    } else {
                        let paid = if amount.bits == self.token_supply.bits {
                            self.reserve_balance
                        } else {
                            out
                        };
                        Ok(
                            (
                                Bancor {
                                    reserve_balance: FixedPoint {
                                        bits: (self.reserve_balance.bits - paid.bits) as i128,
                                    },
                                    token_supply: FixedPoint {
                                        bits: (self.token_supply.bits - amount.bits) as i128,
                                    },
                                    connector_weight: self.connector_weight,
                                },
                                paid,
                            ),
                        )
                    },
                },
            }
        }
    }

    fn get_price(&self) -> (r: Result<FixedPoint, BondingCurveError>) {
        if self.token_supply.bits == 0 {
            return Ok(FixedPoint::zero());
        }
        let d = self.token_supply.checked_mul(self.connector_weight)?;
        self.reserve_balance.checked_div(d)
    }

    fn buy_token(&mut self, amount: FixedPoint) -> (r: Result<FixedPoint, BondingCurveError>) {
        if amount.bits <= 0 {
            return Err(BondingCurveError::InvalidInput(InputError::NonPositiveAmount));
        }
        let price = self.get_price()?;
        if price.bits == 0 && self.token_supply.bits != 0 {
            return Err(BondingCurveError::CalculationError(CalcError::ZeroPrice));
        }
        let tokens = if self.token_supply.bits == 0 {
            amount.checked_div(FixedPoint::from_bits(BOOTSTRAP_PRICE_BITS))?
        } else {
            amount.checked_div(price)?
        };
        let reserve = self.reserve_balance.checked_add(amount)?;
        let supply = self.token_supply.checked_add(tokens)?;
        proof {
            lemma_bancor_buy_keeps_balance(*self, amount);
            if self.token_supply.bits != 0 {
                let s = self.token_supply.bits as int;
                let w = self.connector_weight.bits as int;
                lemma_product_monotone(w, s, s);
                assert(s * w == w * s) by (nonlinear_arith);
                lemma_quotient_nonneg(self.reserve_balance.bits as int, (s * w) / scale());
                lemma_quotient_nonneg(amount.bits as int, price.bits as int);
            } else {
                lemma_quotient_nonneg(amount.bits as int, BOOTSTRAP_PRICE_BITS as int);
            }
        }
        self.reserve_balance = reserve;
        self.token_supply = supply;
        Ok(tokens)
    }

    /// A sale of the whole supply, when it succeeds, pays out the whole reserve.
    fn sell_token(&mut self, amount: FixedPoint) -> (r: Result<FixedPoint, BondingCurveError>)
        ensures
            r is Ok && amount == old(self).token_supply ==> r == Ok::<
                FixedPoint,
                BondingCurveError,
            >(old(self).reserve_balance) && final(self).reserve_balance.bits == 0,
    {
        if amount.bits <= 0 {
            return Err(BondingCurveError::InvalidInput(InputError::NonPositiveAmount));
        }
        if amount.bits > self.token_supply.bits {
            return Err(BondingCurveError::InvalidInput(InputError::AmountExceedsSupply));
        }
        let price = self.get_price()?;
        let out = amount.checked_mul(price)?;
        if amount.bits < self.token_supply.bits && out.bits >= self.reserve_balance.bits {
            return Err(BondingCurveError::CalculationError(CalcError::InsufficientReserve));
        }
        let paid = if amount.bits == self.token_supply.bits {
            self.reserve_balance
        } else {
            out
        };
        proof {
            let s = self.token_supply.bits as int;
            let w = self.connector_weight.bits as int;
            lemma_product_monotone(w, s, s);
            assert(s * w == w * s) by (nonlinear_arith);
            if s != 0 {
                lemma_quotient_nonneg(self.reserve_balance.bits as int, (s * w) / scale());
            }
            lemma_product_monotone(amount.bits as int, price.bits as int, price.bits as int);
        }
        self.reserve_balance = FixedPoint::from_bits(self.reserve_balance.bits - paid.bits);
        self.token_supply = FixedPoint::from_bits(self.token_supply.bits - amount.bits);
        Ok(paid)
    }

    fn get_supply(&self) -> (r: FixedPoint) {
        self.token_supply
    }

    fn get_reserve(&self) -> (r: Option<FixedPoint>) {
        Some(self.reserve_balance)
    }
}

/// Whether the supply is zero exactly when the reserve is zero.
pub open spec fn balanced(c: Bancor) -> bool {
    (c.token_supply.bits == 0) <==> (c.reserve_balance.bits == 0)
}

/// A buy keeps the supply zero exactly when the reserve is zero.
pub proof fn lemma_bancor_buy_keeps_balance(c: Bancor, amount: FixedPoint)
    requires
        c.wf(),
        c.buy_spec(amount) is Ok,
    ensures
        balanced(c.buy_spec(amount)->Ok_0.0),
{
    if c.token_supply.bits == 0 {
        assert(amount.bits * scale() >= scale()) by (nonlinear_arith)
            requires
                amount.bits >= 1,
                scale() > 0,
        ;
        assert((amount.bits * scale()) / (BOOTSTRAP_PRICE_BITS as int) >= 1) by (nonlinear_arith)
            requires
                amount.bits * scale() >= scale(),
                scale() > BOOTSTRAP_PRICE_BITS > 0,
        ;
    } else {
        let s = c.token_supply.bits as int;
        let w = c.connector_weight.bits as int;
        lemma_product_monotone(w, s, s);
        assert(s * w == w * s) by (nonlinear_arith);
        lemma_quotient_nonneg(c.reserve_balance.bits as int, (s * w) / scale());
        let price = c.price_spec()->Ok_0;
        lemma_quotient_nonneg(amount.bits as int, price.bits as int);
    }
}

/// Selling the tokens that a buy issued, right after that buy, brings the
/// supply back exactly to its value before the buy whenever the sale succeeds.
/// The reserve is not restored in general: the sale is priced at the spot
/// price after the buy.
pub proof fn lemma_bancor_round_trip_supply(c: Bancor, amount: FixedPoint)
    requires
        c.wf(),
        c.buy_spec(amount) is Ok,
    ensures
        ({
            let (next, tokens) = c.buy_spec(amount)->Ok_0;
            next.sell_spec(tokens) matches Ok((last, _)) ==> last.token_supply == c.token_supply
        }),
{
}

} // verus!
