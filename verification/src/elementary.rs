//! The elementary functions of the number type.
use vstd::prelude::*;

verus! {

/// The elementary functions that the controller calls on its wide number type
/// `D`, and the rounding of a wide number to the narrow number type `S`.
///
/// How precise they are varies with the platform, so nothing is asked of them:
/// the contracts of this crate relate what the controller does to the values that
/// these functions return.
pub trait Elementary<S, D> {
    /// The natural logarithm of `x`.
    fn ln(x: D) -> D;

    /// The square root of `x`.
    fn sqrt(x: D) -> D;

    /// `base` raised to the power `exponent`.
    fn powf(base: D, exponent: D) -> D;

    /// The angle in radians whose sine is `x`.
    fn asin(x: D) -> D;

    /// The angle in radians from the positive `x` axis to the point `(x, y)`.
    fn atan2(y: D, x: D) -> D;

    /// The narrow number nearest to `x`.
    fn narrow(x: D) -> S;
}

} // verus!
