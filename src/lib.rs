pub mod bancor;
pub mod curve;
pub mod errors;
pub mod exponential;
pub mod fixed_point;
pub mod linear;
pub mod logarithmic;
pub mod sigmoid;
pub mod transcendental;

pub use bancor::Bancor;
pub use curve::BondingCurve;
pub use errors::{BondingCurveError, CalcError, InputError};
pub use exponential::Exponential;
pub use fixed_point::FixedPoint;
pub use linear::Linear;
pub use logarithmic::Logarithmic;
pub use sigmoid::Sigmoid;
