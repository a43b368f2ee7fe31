//! What the controller concludes from what its sensors measure.
use crate::elementary::Elementary;
use crate::number::{lawful_real, minus, negated, over, plus, quotient, ratio, times, whole, Real};
use std::ops::Neg;
use vstd::prelude::*;

verus! {

/// The altitude above sea level at which the pressure is the one measured, by the
/// barometric formula at the standard pressure and temperature of sea level, given
/// the logarithms of the two pressures.
pub open spec fn barometric_altitude<D: Real>(ln_base: D, ln_pressure: D) -> Option<D> {
    times(
        times(minus(Some(ln_base), Some(ln_pressure)), quotient(292718, 10000)),
        quotient(28815, 100),
    )
}

/// The logarithms of the pressure at sea level, in pascals, and of `pressure`.
pub open spec fn pressure_logarithms<S, D: Real, M: Elementary<S, D>>(
    pressure: D,
    ln_base: D,
    ln_pressure: D,
) -> bool {
    &&& call_ensures(M::ln, (whole::<D>(101325)->0,), ln_base)
    &&& call_ensures(M::ln, (pressure,), ln_pressure)
}

/// Whatever the elementary functions return, the altitude can be computed from
/// the pressure.
pub open spec fn altitude_defined<S, D: Real, M: Elementary<S, D>>(pressure: D) -> bool {
    forall|ln_base: D, ln_pressure: D| #[trigger]
        pressure_logarithms::<S, D, M>(pressure, ln_base, ln_pressure) ==> barometric_altitude(
            ln_base,
            ln_pressure,
        ) is Some
}

/// `altitude` follows from the pressure.
pub open spec fn at_altitude<S, D: Real, M: Elementary<S, D>>(pressure: D, altitude: D) -> bool {
    exists|ln_base: D, ln_pressure: D| #[trigger]
        pressure_logarithms::<S, D, M>(pressure, ln_base, ln_pressure) && barometric_altitude(
            ln_base,
            ln_pressure,
        ) == Some(altitude)
}

/// Computes the altitude at which `pressure` is measured.
pub fn altitude_at<S, D: Real, M: Elementary<S, D>>(pressure: D) -> (altitude: D)
    requires
        lawful_real::<D>(),
        altitude_defined::<S, D, M>(pressure),
    ensures
        at_altitude::<S, D, M>(pressure, altitude),
{
    let ln_base = M::ln(D::from(101325i32));
    let ln_pressure = M::ln(pressure);
    assert(pressure_logarithms::<S, D, M>(pressure, ln_base, ln_pressure));
    (ln_base - ln_pressure) * ratio::<D>(292718, 10000) * ratio::<D>(28815, 100)
}

/// The square of the length of an acceleration.
pub open spec fn acceleration_square<D: Real>(acc: (D, D, D)) -> Option<D> {
    plus(
        plus(times(Some(acc.0), Some(acc.0)), times(Some(acc.1), Some(acc.1))),
        times(Some(acc.2), Some(acc.2)),
    )
}

/// `resultant` is the length of an acceleration.
pub open spec fn acceleration_length<S, D: Real, M: Elementary<S, D>>(
    acc: (D, D, D),
    resultant: D,
) -> bool {
    acceleration_square(acc) matches Some(square) && call_ensures(M::sqrt, (square,), resultant)
}

/// `pitch_roll` is the pitch and the roll at which gravity alone causes an
/// acceleration whose length is `resultant`. The sensor's axes are those of the
/// blimp: to the right, forward, up. Level and at rest it measures an acceleration
/// upwards, so that the pitch is positive with the nose up, and the roll with the
/// right side down.
pub open spec fn tilt<S, D: Real, M: Elementary<S, D>>(
    acc: (D, D, D),
    resultant: D,
    pitch_roll: (D, D),
) -> bool {
    &&& over(Some(acc.1), Some(resultant)) matches Some(sine) && call_ensures(
        M::asin,
        (sine,),
        pitch_roll.0,
    )
    &&& negated(Some(acc.0)) matches Some(side) && call_ensures(
        M::atan2,
        (side, acc.2),
        pitch_roll.1,
    )
}

/// Whatever the elementary functions return, pitch and roll can be computed from
/// the acceleration.
pub open spec fn tilt_defined<S, D: Real, M: Elementary<S, D>>(acc: (D, D, D)) -> bool {
    &&& acceleration_square(acc) is Some
    &&& negated(Some(acc.0)) is Some
    &&& forall|resultant: D| #[trigger]
        acceleration_length::<S, D, M>(acc, resultant) ==> over(
            Some(acc.1),
            Some(resultant),
        ) is Some
}

/// `pitch_roll` follows from the acceleration.
pub open spec fn tilted<S, D: Real, M: Elementary<S, D>>(
    acc: (D, D, D),
    pitch_roll: (D, D),
) -> bool {
    exists|resultant: D| #[trigger]
        acceleration_length::<S, D, M>(acc, resultant) && tilt::<S, D, M>(
            acc,
            resultant,
            pitch_roll,
        )
}

/// Computes pitch and roll from the acceleration.
pub fn tilt_of<S, D: Real, M: Elementary<S, D>>(acc: (D, D, D)) -> (pitch_roll: (D, D))
    requires
        lawful_real::<D>(),
        tilt_defined::<S, D, M>(acc),
    ensures
        tilted::<S, D, M>(acc, pitch_roll),
{
    let resultant = M::sqrt(acc.0 * acc.0 + acc.1 * acc.1 + acc.2 * acc.2);
    assert(acceleration_length::<S, D, M>(acc, resultant));
    let pitch = M::asin(acc.1 / resultant);
    let roll = M::atan2(acc.0.neg(), acc.2);
    (pitch, roll)
}

} // verus!
