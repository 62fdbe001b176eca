use vstd::prelude::*;

use crate::errors::{BondingCurveError, InputError};
use crate::fixed_point::FixedPoint;

verus! {

/// The operations shared by every bonding curve. Each curve states in spec
/// functions the exact outcome of every operation; the executable methods
/// are proved to produce exactly that outcome, and to leave the curve
/// untouched whenever they fail.
pub trait BondingCurve: Sized {
    /// The curve's invariant: its parameters are in range and its balances non-negative.
    spec fn wf(&self) -> bool;

    /// The current token supply.
    spec fn supply_spec(&self) -> FixedPoint;

    /// The current reserve balance, for curves that track one.
    spec fn reserve_spec(&self) -> Option<FixedPoint>;

    /// The spot price at the current supply.
    spec fn price_spec(&self) -> Result<FixedPoint, BondingCurveError>;

    /// The state after a buy of `amount`, with the buy's output.
    spec fn buy_spec(&self, amount: FixedPoint) -> Result<(Self, FixedPoint), BondingCurveError>;

    /// The state after a sale of `amount` tokens, with the sale's output.
    spec fn sell_spec(&self, amount: FixedPoint) -> Result<(Self, FixedPoint), BondingCurveError>;

    /// The spot price at the current supply; never changes the curve.
    fn get_price(&self) -> (r: Result<FixedPoint, BondingCurveError>)
        requires
            self.wf(),
        ensures
            r == self.price_spec(),
    ;

    /// Buys with a positive `amount` (reserve for Bancor, tokens otherwise) and
    /// returns the output (tokens issued for Bancor, cost otherwise).
    fn buy_token(&mut self, amount: FixedPoint) -> (r: Result<FixedPoint, BondingCurveError>)
        requires
            old(self).wf(),
        ensures
            final(self).wf(),
            (match old(self).buy_spec(amount) {
                Ok((next, out)) => r == Ok::<FixedPoint, BondingCurveError>(out) && *final(self)
                    == next,
                Err(e) => r == Err::<FixedPoint, BondingCurveError>(e) && *final(self) == *old(
                    self,
                ),
            }),
            amount.bits <= 0 ==> r == Err::<FixedPoint, BondingCurveError>(
                BondingCurveError::InvalidInput(InputError::NonPositiveAmount),
            ),
            r is Ok ==> final(self).supply_spec().bits >= old(self).supply_spec().bits,
    ;

    /// Sells a positive `amount` of tokens, at most the supply, and returns the
    /// output (reserve received for Bancor, refund otherwise).
    fn sell_token(&mut self, amount: FixedPoint) -> (r: Result<FixedPoint, BondingCurveError>)
        requires
            old(self).wf(),
        ensures
            final(self).wf(),
            (match old(self).sell_spec(amount) {
                Ok((next, out)) => r == Ok::<FixedPoint, BondingCurveError>(out) && *final(self)
                    == next,
                Err(e) => r == Err::<FixedPoint, BondingCurveError>(e) && *final(self) == *old(
                    self,
                ),
            }),
            amount.bits <= 0 ==> r == Err::<FixedPoint, BondingCurveError>(
                BondingCurveError::InvalidInput(InputError::NonPositiveAmount),
            ),
            amount.bits > old(self).supply_spec().bits ==> r == Err::<
                FixedPoint,
                BondingCurveError,
            >(BondingCurveError::InvalidInput(InputError::AmountExceedsSupply)),
            r is Ok ==> final(self).supply_spec().bits == old(self).supply_spec().bits
                - amount.bits,
            r is Ok && amount == old(self).supply_spec() ==> final(self).supply_spec().bits == 0,
    ;

    /// The current token supply.
    fn get_supply(&self) -> (r: FixedPoint)
        ensures
            r == self.supply_spec(),
    ;

    /// The current reserve balance: `Some` for Bancor, `None` for the others.
    fn get_reserve(&self) -> (r: Option<FixedPoint>)
        ensures
            r == self.reserve_spec(),
    ;
}

} // verus!
