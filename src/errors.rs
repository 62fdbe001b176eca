use vstd::prelude::*;

verus! {

/// Why a caller-supplied argument or constructor parameter was refused.
#[derive(Clone, Copy, Debug, PartialEq, Eq, Structural)]
pub enum InputError {
    /// A buy or sell amount that is zero or negative.
    NonPositiveAmount,
    /// A sell amount larger than the current token supply.
    AmountExceedsSupply,
    /// A connector weight outside the half-open range `(0, 1]`.
    WeightOutOfRange,
    /// A non-zero reserve balance together with a zero token supply.
    ReserveWithoutSupply,
    /// A zero reserve balance together with a non-zero token supply.
    SupplyWithoutReserve,
    /// A negative reserve balance or token supply.
    NegativeBalance,
    /// A curve parameter that must be strictly positive but is not.
    NonPositiveParameter,
    /// A sigmoid midpoint below zero.
    NegativeMidpoint,
    /// A number with no fixed-point value: not finite, or outside the range.
    NotRepresentable,
}

/// Why a computation on a valid input could not be completed.
#[derive(Clone, Copy, Debug, PartialEq, Eq, Structural)]
pub enum CalcError {
    /// A transcendental function was asked for a value outside its real domain.
    Domain,
    /// A transcendental function gave a value that is not finite or does not
    /// fit the fixed-point range.
    NonFinite,
    /// A fixed-point sum, difference, product or quotient left the representable range.
    Overflow,
    /// A fixed-point division by zero.
    DivisionByZero,
    /// A Bancor price of zero while tokens are outstanding.
    ZeroPrice,
    /// A partial Bancor sale whose payout would use up the whole reserve, or
    /// more, while tokens stay outstanding.
    InsufficientReserve,
}

/// The two failure kinds shared by every curve.
#[derive(Clone, Copy, Debug, PartialEq, Eq, Structural)]
pub enum BondingCurveError {
    InvalidInput(InputError),
    CalculationError(CalcError),
}

impl BondingCurveError {
    /// The text that `description` gives for each failure.
    pub open spec fn description_spec(self) -> Seq<char> {
        match self {
            BondingCurveError::InvalidInput(InputError::NonPositiveAmount) =>
                "Invalid input: amount must be positive"@,
            BondingCurveError::InvalidInput(InputError::AmountExceedsSupply) =>
                "Invalid input: token amount exceeds the supply"@,
            BondingCurveError::InvalidInput(InputError::WeightOutOfRange) =>
                "Invalid input: connector weight must be between 0 and 1"@,
            BondingCurveError::InvalidInput(InputError::ReserveWithoutSupply) =>
                "Invalid input: cannot have reserve with zero token supply"@,
            BondingCurveError::InvalidInput(InputError::SupplyWithoutReserve) =>
                "Invalid input: cannot have zero reserve with non-zero token supply"@,
            BondingCurveError::InvalidInput(InputError::NegativeBalance) =>
                "Invalid input: reserve and supply must be non-negative"@,
            BondingCurveError::InvalidInput(InputError::NonPositiveParameter) =>
                "Invalid input: curve parameters must be positive"@,
            BondingCurveError::InvalidInput(InputError::NegativeMidpoint) =>
                "Invalid input: midpoint must be non-negative"@,
            BondingCurveError::InvalidInput(InputError::NotRepresentable) =>
                "Invalid input: value must be finite and within the fixed-point range"@,
            BondingCurveError::CalculationError(CalcError::Domain) =>
                "Calculation error: argument outside the function's domain"@,
            BondingCurveError::CalculationError(CalcError::NonFinite) =>
                "Calculation error: result is infinite, NaN or out of range"@,
            BondingCurveError::CalculationError(CalcError::Overflow) =>
                "Calculation error: fixed-point overflow"@,
            BondingCurveError::CalculationError(CalcError::DivisionByZero) =>
                "Calculation error: division by zero"@,
            BondingCurveError::CalculationError(CalcError::ZeroPrice) =>
                "Calculation error: invalid price calculation"@,
            BondingCurveError::CalculationError(CalcError::InsufficientReserve) =>
                "Calculation error: reserve cannot cover the sale"@,
        }
    }

    /// A human-readable description of the failure.
    pub fn description(&self) -> (r: &'static str)
        ensures
            r@ == self.description_spec(),
    {
        match self {
            BondingCurveError::InvalidInput(InputError::NonPositiveAmount) =>
                "Invalid input: amount must be positive",
            BondingCurveError::InvalidInput(InputError::AmountExceedsSupply) =>
                "Invalid input: token amount exceeds the supply",
            BondingCurveError::InvalidInput(InputError::WeightOutOfRange) =>
                "Invalid input: connector weight must be between 0 and 1",
            BondingCurveError::InvalidInput(InputError::ReserveWithoutSupply) =>
                "Invalid input: cannot have reserve with zero token supply",
            BondingCurveError::InvalidInput(InputError::SupplyWithoutReserve) =>
                "Invalid input: cannot have zero reserve with non-zero token supply",
            BondingCurveError::InvalidInput(InputError::NegativeBalance) =>
                "Invalid input: reserve and supply must be non-negative",
            BondingCurveError::InvalidInput(InputError::NonPositiveParameter) =>
                "Invalid input: curve parameters must be positive",
            BondingCurveError::InvalidInput(InputError::NegativeMidpoint) =>
                "Invalid input: midpoint must be non-negative",
            BondingCurveError::InvalidInput(InputError::NotRepresentable) =>
                "Invalid input: value must be finite and within the fixed-point range",
            BondingCurveError::CalculationError(CalcError::Domain) =>
                "Calculation error: argument outside the function's domain",
            BondingCurveError::CalculationError(CalcError::NonFinite) =>
                "Calculation error: result is infinite, NaN or out of range",
            BondingCurveError::CalculationError(CalcError::Overflow) =>
                "Calculation error: fixed-point overflow",
            BondingCurveError::CalculationError(CalcError::DivisionByZero) =>
                "Calculation error: division by zero",
            BondingCurveError::CalculationError(CalcError::ZeroPrice) =>
                "Calculation error: invalid price calculation",
            BondingCurveError::CalculationError(CalcError::InsufficientReserve) =>
                "Calculation error: reserve cannot cover the sale",
        }
    }
}

} // verus!
