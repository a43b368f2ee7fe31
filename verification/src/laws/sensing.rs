//! Laws of the sensors: what the controller concludes from what they measure.
use crate::elementary::Elementary;
use crate::laws::reals::{
    asin_is_odd, direction, finds_directions, inverts_sine, law_quotient_is_exact, lemma_divided,
    takes_logarithms, takes_roots, Functions, Measure,
};
use crate::messages::{BlimpEvent, Controls, SensorType};
use crate::number::{quotient, small, whole, Real};
use crate::obsw_algo::{event_learnt, BlimpInnerState};
use crate::sensors::{acceleration_length, barometric_altitude, pressure_logarithms, tilt};
use vstd::prelude::*;

verus! {

/// Controls take the place of those before, and a heading that of the one before;
/// nothing else changes.
pub proof fn law_controls_and_heading_are_taken_over<S, D: Real, M: Elementary<S, D>>(
    pre: BlimpInnerState<S, D>,
    controls: Controls<S>,
    heading: D,
    post: BlimpInnerState<S, D>,
)
    ensures
        event_learnt::<S, D, M>(pre, BlimpEvent::Control(controls), post) <==> post == (
        BlimpInnerState { controls, ..pre }),
        event_learnt::<S, D, M>(
            pre,
            BlimpEvent::SensorDataF64(SensorType::MagnetometerHeading, heading),
            post,
        ) <==> post == (BlimpInnerState { heading, ..pre }),
{
}

/// `now` is what was known before where something was, and zero where not.
pub open spec fn kept<D: Real>(before: Option<D>, now: D) -> bool {
    match before {
        Some(x) => now == x,
        None => Some(now) == small::<D>(0),
    }
}

/// A component of the acceleration takes the place of the one before. The others stay
/// what they were, and are zero where nothing has been measured yet. Nothing else
/// changes, save pitch and roll once the upward component comes.
pub proof fn law_components_of_the_acceleration<S, D: Real, M: Elementary<S, D>>(
    pre: BlimpInnerState<S, D>,
    sensor: SensorType,
    value: D,
    post: BlimpInnerState<S, D>,
)
    requires
        sensor is AccelerometerX || sensor is AccelerometerY || sensor is AccelerometerZ,
        event_learnt::<S, D, M>(pre, BlimpEvent::SensorDataF64(sensor, value), post),
    ensures
        post.acceleration matches Some((x, y, z)) && {
            let before = |k: int|
                match pre.acceleration {
                    Some((x, y, z)) => Some(if k == 0 { x } else if k == 1 { y } else { z }),
                    None => None,
                };
            &&& if sensor is AccelerometerX { x == value } else { kept(before(0), x) }
            &&& if sensor is AccelerometerY { y == value } else { kept(before(1), y) }
            &&& if sensor is AccelerometerZ { z == value } else { kept(before(2), z) }
        },
        post == (BlimpInnerState {
            acceleration: post.acceleration,
            pitch_roll: post.pitch_roll,
            ..pre
        }),
        !(sensor is AccelerometerZ) ==> post.pitch_roll == pre.pitch_roll,
{
}

/// A coordinate takes the place of the one before, and the other stays what it was, or
/// is zero where nothing has been measured yet. Nothing else changes.
pub proof fn law_coordinates_of_the_location<S, D: Real, M: Elementary<S, D>>(
    pre: BlimpInnerState<S, D>,
    sensor: SensorType,
    value: D,
    post: BlimpInnerState<S, D>,
)
    requires
        sensor is GPSLatitude || sensor is GPSLongitude,
        event_learnt::<S, D, M>(pre, BlimpEvent::SensorDataF64(sensor, value), post),
    ensures
        post.gps_location matches Some((latitude, longitude)) && {
            let before = |first: bool|
                match pre.gps_location {
                    Some((a, b)) => Some(if first { a } else { b }),
                    None => None,
                };
            &&& if sensor is GPSLatitude {
                latitude == value
            } else {
                kept(before(true), latitude)
            }
            &&& if sensor is GPSLongitude {
                longitude == value
            } else {
                kept(before(false), longitude)
            }
        },
        post == (BlimpInnerState { gps_location: post.gps_location, ..pre }),
{
}

/// The altitude is the difference of the logarithms of the pressure at sea level,
/// 101325 pascals, and of the one measured, times 29.2718 and times 288.15.
pub proof fn law_pressure_gives_the_altitude<S, D: Real, M: Elementary<S, D>>(
    w: Measure<D>,
    f: Functions,
    pre: BlimpInnerState<S, D>,
    pressure: D,
    post: BlimpInnerState<S, D>,
)
    requires
        w.exact_real(),
        w.divides(),
        takes_logarithms::<S, D, M>(w, f),
        w.of(pressure) > 0 as real,
        event_learnt::<S, D, M>(
            pre,
            BlimpEvent::SensorDataF64(SensorType::Barometer, pressure),
            post,
        ),
    ensures
        w.of(post.altitude) == ((f.ln)(101325 as real) - (f.ln)(w.of(pressure))) * (292718 as real
            / 10000 as real) * (28815 as real / 100 as real),
        post == (BlimpInnerState { altitude: post.altitude, ..pre }),
{
    let (base, ln) = choose|base: D, ln: D| #[trigger]
        pressure_logarithms::<S, D, M>(pressure, base, ln) && barometric_altitude(base, ln)
            == Some(post.altitude);
    assert(w.of(whole::<D>(101325)->0) == 101325 as real);
    law_quotient_is_exact(w, 292718, 10000);
    law_quotient_is_exact(w, 28815, 100);
    let height: real = w.of(quotient::<D>(292718, 10000)->0);
    let warmth: real = w.of(quotient::<D>(28815, 100)->0);
    assert(height == 292718 as real / 10000 as real);
    assert(warmth == 28815 as real / 100 as real);
}

/// The same for every pressure, over what the logarithm returns.
pub proof fn law_altitude_follows_from_the_logarithms<S, D: Real, M: Elementary<S, D>>(
    w: Measure<D>,
    pre: BlimpInnerState<S, D>,
    pressure: D,
    post: BlimpInnerState<S, D>,
)
    requires
        w.exact_real(),
        w.divides(),
        event_learnt::<S, D, M>(
            pre,
            BlimpEvent::SensorDataF64(SensorType::Barometer, pressure),
            post,
        ),
    ensures
        exists|sea_level: D, base: D, ln: D|
            {
                &&& w.of(sea_level) == 101325 as real
                &&& #[trigger] call_ensures(M::ln, (sea_level,), base)
                &&& #[trigger] call_ensures(M::ln, (pressure,), ln)
                &&& w.of(post.altitude) == (w.of(base) - w.of(ln)) * (292718 as real
                    / 10000 as real) * (28815 as real / 100 as real)
            },
{
    let (base, ln) = choose|base: D, ln: D| #[trigger]
        pressure_logarithms::<S, D, M>(pressure, base, ln) && barometric_altitude(base, ln)
            == Some(post.altitude);
    let sea_level = whole::<D>(101325)->0;
    assert(w.of(sea_level) == 101325 as real);
    law_quotient_is_exact(w, 292718, 10000);
    law_quotient_is_exact(w, 28815, 100);
    let height: real = w.of(quotient::<D>(292718, 10000)->0);
    let warmth: real = w.of(quotient::<D>(28815, 100)->0);
    assert(height == 292718 as real / 10000 as real);
    assert(warmth == 28815 as real / 100 as real);
    assert(call_ensures(M::ln, (sea_level,), base));
    assert(call_ensures(M::ln, (pressure,), ln));
}

/// A component is no larger than the length.
proof fn lemma_component(g: real, x: real, y: real, z: real)
    requires
        g > 0 as real,
        g * g == x * x + y * y + z * z,
    ensures
        -1 as real <= y / g <= 1 as real,
        y / g * g == y,
        y > 0 as real <==> y / g > 0 as real,
        y < 0 as real <==> y / g < 0 as real,
{
    lemma_divided(y, g);
    let q: real = y / g;
    assert(-g <= y <= g) by (nonlinear_arith)
        requires
            g > 0 as real,
            g * g == x * x + y * y + z * z,
    ;
    assert(-1 as real <= q <= 1 as real) by (nonlinear_arith)
        requires
            g > 0 as real,
            q * g == y,
            -g <= y <= g,
    ;
    assert((y > 0 as real <==> q > 0 as real) && (y < 0 as real <==> q < 0 as real))
        by (nonlinear_arith)
        requires
            g > 0 as real,
            q * g == y,
    ;
}

/// The length of an acceleration that pitch and roll follow from.
proof fn lemma_resultant<S, D: Real, M: Elementary<S, D>>(
    w: Measure<D>,
    acc: (D, D, D),
    pitch_roll: (D, D),
    resultant: D,
)
    requires
        w.exact_real(),
        w.divides(),
        takes_roots::<S, D, M>(w),
        acceleration_length::<S, D, M>(acc, resultant),
        tilt::<S, D, M>(acc, resultant, pitch_roll),
    ensures
        w.of(resultant) > 0 as real,
        w.of(resultant) * w.of(resultant) == w.of(acc.0) * w.of(acc.0) + w.of(acc.1) * w.of(acc.1)
            + w.of(acc.2) * w.of(acc.2),
{
    let x: real = w.of(acc.0);
    let y: real = w.of(acc.1);
    let z: real = w.of(acc.2);
    assert(x * x + y * y + z * z >= 0 as real) by (nonlinear_arith);
}

/// Pitch and roll follow from gravity. The sine of the pitch, times the length of the
/// acceleration, is its forward component, and the pitch is at most a quarter turn
/// either way; the roll is the direction of the point made of the upward component and
/// the opposite of the rightward one. Without any acceleration there is no tilt.
pub proof fn law_tilt_follows_from_gravity<S, D: Real, M: Elementary<S, D>>(
    w: Measure<D>,
    f: Functions,
    pre: BlimpInnerState<S, D>,
    value: D,
    post: BlimpInnerState<S, D>,
    g: real,
)
    requires
        w.exact_real(),
        w.divides(),
        takes_roots::<S, D, M>(w),
        inverts_sine::<S, D, M>(w, f),
        finds_directions::<S, D, M>(w, f),
        event_learnt::<S, D, M>(
            pre,
            BlimpEvent::SensorDataF64(SensorType::AccelerometerZ, value),
            post,
        ),
    ensures
        post.acceleration matches Some((x, y, z)) && {
            let pitch = w.of(post.pitch_roll.0);
            let roll = w.of(post.pitch_roll.1);
            &&& g >= 0 as real && g * g == w.of(x) * w.of(x) + w.of(y) * w.of(y) + w.of(z) * w.of(z)
                ==> g * (f.sin)(pitch) == w.of(y)
            &&& w.of(x) * w.of(x) + w.of(y) * w.of(y) + w.of(z) * w.of(z) > 0 as real
            &&& -f.pi <= 2 as real * pitch <= f.pi
            &&& direction(f, w.of(z), -w.of(x), roll)
        },
{
    let acc = post.acceleration->0;
    let resultant = choose|resultant: D| #[trigger]
        acceleration_length::<S, D, M>(acc, resultant) && tilt::<S, D, M>(
            acc,
            resultant,
            post.pitch_roll,
        );
    lemma_resultant::<S, D, M>(w, acc, post.pitch_roll, resultant);
    let h: real = w.of(resultant);
    let y: real = w.of(acc.1);
    assert(h * h > 0 as real) by (nonlinear_arith)
        requires
            h > 0 as real,
    ;
    lemma_component(h, w.of(acc.0), y, w.of(acc.2));
    if g >= 0 as real && g * g == h * h {
        assert(g == h) by (nonlinear_arith)
            requires
                g >= 0 as real,
                h > 0 as real,
                g * g == h * h,
        ;
        let sine: real = (f.sin)(w.of(post.pitch_roll.0));
        assert(sine == y / h);
        assert(h * sine == y) by (nonlinear_arith)
            requires
                sine * h == y,
        ;
    }
}

/// The pitch has the sign of the forward acceleration: nose up and nose down are told
/// apart, and neither is taken for level.
pub proof fn law_pitch_has_the_sign_of_the_acceleration<S, D: Real, M: Elementary<S, D>>(
    w: Measure<D>,
    pre: BlimpInnerState<S, D>,
    value: D,
    post: BlimpInnerState<S, D>,
)
    requires
        w.exact_real(),
        w.divides(),
        takes_roots::<S, D, M>(w),
        asin_is_odd::<S, D, M>(w),
        event_learnt::<S, D, M>(
            pre,
            BlimpEvent::SensorDataF64(SensorType::AccelerometerZ, value),
            post,
        ),
    ensures
        post.acceleration matches Some((_, y, _)) && {
            &&& w.of(y) > 0 as real <==> w.of(post.pitch_roll.0) > 0 as real
            &&& w.of(y) < 0 as real <==> w.of(post.pitch_roll.0) < 0 as real
        },
{
    let acc = post.acceleration->0;
    let resultant = choose|resultant: D| #[trigger]
        acceleration_length::<S, D, M>(acc, resultant) && tilt::<S, D, M>(
            acc,
            resultant,
            post.pitch_roll,
        );
    lemma_resultant::<S, D, M>(w, acc, post.pitch_roll, resultant);
    lemma_component(w.of(resultant), w.of(acc.0), w.of(acc.1), w.of(acc.2));
}

/// Turning the forward acceleration round turns the pitch round.
pub proof fn law_pitch_turns_with_the_acceleration<S, D: Real, M: Elementary<S, D>>(
    w: Measure<D>,
    pre_a: BlimpInnerState<S, D>,
    post_a: BlimpInnerState<S, D>,
    pre_b: BlimpInnerState<S, D>,
    post_b: BlimpInnerState<S, D>,
    value: D,
)
    requires
        w.exact_real(),
        w.divides(),
        takes_roots::<S, D, M>(w),
        asin_is_odd::<S, D, M>(w),
        event_learnt::<S, D, M>(
            pre_a,
            BlimpEvent::SensorDataF64(SensorType::AccelerometerZ, value),
            post_a,
        ),
        event_learnt::<S, D, M>(
            pre_b,
            BlimpEvent::SensorDataF64(SensorType::AccelerometerZ, value),
            post_b,
        ),
        pre_a.acceleration matches Some((x, y, _)) && (pre_b.acceleration matches Some((u, v, _))
            && w.of(x) == w.of(u) && w.of(y) == -w.of(v)),
    ensures
        w.of(post_a.pitch_roll.0) == -w.of(post_b.pitch_roll.0),
{
    let acc_a = post_a.acceleration->0;
    let acc_b = post_b.acceleration->0;
    let len_a = choose|resultant: D| #[trigger]
        acceleration_length::<S, D, M>(acc_a, resultant) && tilt::<S, D, M>(
            acc_a,
            resultant,
            post_a.pitch_roll,
        );
    let len_b = choose|resultant: D| #[trigger]
        acceleration_length::<S, D, M>(acc_b, resultant) && tilt::<S, D, M>(
            acc_b,
            resultant,
            post_b.pitch_roll,
        );
    lemma_resultant::<S, D, M>(w, acc_a, post_a.pitch_roll, len_a);
    lemma_resultant::<S, D, M>(w, acc_b, post_b.pitch_roll, len_b);
    let y: real = w.of(acc_a.1);
    let v: real = w.of(acc_b.1);
    let g: real = w.of(len_a);
    let h: real = w.of(len_b);
    assert(y * y == v * v) by (nonlinear_arith)
        requires
            y == -v,
    ;
    assert(g == h) by (nonlinear_arith)
        requires
            g > 0 as real,
            h > 0 as real,
            g * g == h * h,
    ;
    assert(y / g == -(v / h)) by (nonlinear_arith)
        requires
            g == h,
            g > 0 as real,
            y == -v,
    ;
}

} // verus!
