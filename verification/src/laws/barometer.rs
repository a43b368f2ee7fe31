//! Laws of the barometer. They hold for every number type whose arithmetic respects the
//! order, be it exact or rounded.
use crate::elementary::Elementary;
use crate::laws::integers::Reading;
use crate::messages::{BlimpEvent, SensorType};
use crate::number::{minus, quotient, small, times, whole, Real};
use crate::obsw_algo::{event_learnt, BlimpInnerState};
use crate::sensors::{barometric_altitude, pressure_logarithms};
use vstd::prelude::*;
use vstd::std_specs::cmp::PartialOrdIs;

verus! {

/// `a` is less than or equal to `b`.
pub open spec fn at_most<D: Real>(a: D, b: D) -> bool {
    a.is_le(&b)
}

/// `a` has a place in the order. In floating point, what is not a number has none.
pub open spec fn ordered<D: Real>(a: D) -> bool {
    at_most(a, a)
}

/// `a` is zero or above.
pub open spec fn not_negative<D: Real>(a: D) -> bool {
    at_most(small::<D>(0)->0, a)
}

/// `a` is zero or below.
pub open spec fn not_positive<D: Real>(a: D) -> bool {
    at_most(a, small::<D>(0)->0)
}

/// The formula can be computed, and its result has a place in the order.
pub open spec fn yields<D: Real>(a: Option<D>) -> bool {
    a is Some && ordered(a->0)
}

/// Differences respect the order: taking away more never leaves more, and what is
/// left has the sign that it should.
pub open spec fn differences_respect_order<D: Real>() -> bool {
    &&& forall|c: D, a: D, b: D|
        #![trigger minus(Some(c), Some(a)), minus(Some(c), Some(b))]
        at_most(a, b) && yields(minus(Some(c), Some(a))) && yields(minus(Some(c), Some(b)))
            ==> at_most(minus(Some(c), Some(b))->0, minus(Some(c), Some(a))->0)
    &&& forall|c: D, a: D|
        yields(#[trigger] minus(Some(c), Some(a))) ==> {
            &&& at_most(a, c) ==> not_negative(minus(Some(c), Some(a))->0)
            &&& at_most(c, a) ==> not_positive(minus(Some(c), Some(a))->0)
            &&& a == c ==> minus(Some(c), Some(a)) == small::<D>(0)
        }
}

/// Products with a number that is not negative respect the order and keep the sign,
/// and what has no place in the order does not get one.
pub open spec fn products_respect_order<D: Real>() -> bool {
    &&& forall|a: D, b: D, k: D|
        #![trigger times(Some(a), Some(k)), times(Some(b), Some(k))]
        at_most(a, b) && not_negative(k) && yields(times(Some(a), Some(k))) && yields(
            times(Some(b), Some(k)),
        ) ==> at_most(times(Some(a), Some(k))->0, times(Some(b), Some(k))->0)
    &&& forall|a: D, k: D|
        not_negative(k) && yields(#[trigger] times(Some(a), Some(k))) ==> {
            &&& ordered(a)
            &&& not_negative(a) ==> not_negative(times(Some(a), Some(k))->0)
            &&& not_positive(a) ==> not_positive(times(Some(a), Some(k))->0)
            &&& Some(a) == small::<D>(0) ==> times(Some(a), Some(k)) == small::<D>(0)
        }
}

/// The arithmetic of `D` respects the order. Exact arithmetic does, and so does
/// arithmetic that rounds to the nearest number.
pub open spec fn respects_order<D: Real>() -> bool {
    &&& differences_respect_order::<D>()
    &&& products_respect_order::<D>()
    &&& forall|n: int, d: int|
        0 <= n <= i32::MAX && 0 < d <= i32::MAX && #[trigger] quotient::<D>(n, d) is Some
            ==> not_negative(quotient::<D>(n, d)->0)
}

/// Numbers that can be read as integers do.
pub proof fn law_exact_numbers_respect_order<D: Real>(w: Reading<D>)
    requires
        w.exact_real(),
    ensures
        respects_order::<D>(),
{
    assert(w.of(small::<D>(0)->0) == 0);
    assert forall|a: D, b: D| #[trigger] at_most(a, b) <==> w.of(a) <= w.of(b) by {}
    assert forall|a: D, b: D, k: D|
        #![trigger times(Some(a), Some(k)), times(Some(b), Some(k))]
        at_most(a, b) && not_negative(k) && yields(times(Some(a), Some(k))) && yields(
            times(Some(b), Some(k)),
        ) implies at_most(times(Some(a), Some(k))->0, times(Some(b), Some(k))->0) by {
        let x: int = w.of(a);
        let y: int = w.of(b);
        let z: int = w.of(k);
        assert(x * z <= y * z) by (nonlinear_arith)
            requires
                x <= y,
                0 <= z,
        ;
    }
    assert forall|a: D, k: D|
        not_negative(k) && yields(#[trigger] times(Some(a), Some(k))) implies {
        &&& ordered(a)
        &&& not_negative(a) ==> not_negative(times(Some(a), Some(k))->0)
        &&& not_positive(a) ==> not_positive(times(Some(a), Some(k))->0)
        &&& Some(a) == small::<D>(0) ==> times(Some(a), Some(k)) == small::<D>(0)
    } by {
        let x: int = w.of(a);
        let z: int = w.of(k);
        assert((x >= 0 ==> x * z >= 0) && (x <= 0 ==> x * z <= 0) && (x == 0 ==> x * z == 0))
            by (nonlinear_arith)
            requires
                0 <= z,
        ;
    }
    assert forall|n: int, d: int|
        0 <= n <= i32::MAX && 0 < d <= i32::MAX && #[trigger] quotient::<D>(n, d) is Some implies
        not_negative(quotient::<D>(n, d)->0) by {
        assert(w.of(whole::<D>(n)->0) == n);
        assert(w.of(whole::<D>(d)->0) == d);
        assert(n / d >= 0) by (nonlinear_arith)
            requires
                0 <= n,
                0 < d,
        ;
    }
}

/// The altitude does not rise with the logarithm of the pressure.
pub proof fn law_altitude_falls_with_the_logarithm<D: Real>(ln_base: D, ln_a: D, ln_b: D)
    requires
        respects_order::<D>(),
        at_most(ln_a, ln_b),
        yields(barometric_altitude(ln_base, ln_a)),
        yields(barometric_altitude(ln_base, ln_b)),
    ensures
        at_most(
            barometric_altitude(ln_base, ln_b)->0,
            barometric_altitude(ln_base, ln_a)->0,
        ),
{
    let height = quotient::<D>(292718, 10000);
    let warmth = quotient::<D>(28815, 100);
    assert(not_negative(height->0) && not_negative(warmth->0));
    let a = minus(Some(ln_base), Some(ln_a));
    let b = minus(Some(ln_base), Some(ln_b));
    assert(ordered(times(a, height)->0) && ordered(times(b, height)->0));
    assert(at_most(b->0, a->0));
    assert(at_most(times(b, height)->0, times(a, height)->0));
}

/// The altitude is zero where the logarithm is the one at sea level, not below zero
/// where it is lower, and not above where it is higher.
pub proof fn law_altitude_has_the_sign_of_the_difference<D: Real>(ln_base: D, ln_pressure: D)
    requires
        respects_order::<D>(),
        yields(barometric_altitude(ln_base, ln_pressure)),
    ensures
        ({
            let altitude = barometric_altitude(ln_base, ln_pressure);
            &&& ln_pressure == ln_base ==> altitude == small::<D>(0)
            &&& at_most(ln_pressure, ln_base) ==> not_negative(altitude->0)
            &&& at_most(ln_base, ln_pressure) ==> not_positive(altitude->0)
        }),
{
    let height = quotient::<D>(292718, 10000);
    let warmth = quotient::<D>(28815, 100);
    assert(not_negative(height->0) && not_negative(warmth->0));
    let a = minus(Some(ln_base), Some(ln_pressure));
    assert(ordered(times(a, height)->0));
    assert(ordered(a->0));
}

/// The logarithm of a positive number is one number, and does not fall when its
/// argument rises.
pub open spec fn logarithm_rises<S, D: Real, M: Elementary<S, D>>() -> bool {
    &&& forall|x: D, a: D, b: D| #[trigger]
        call_ensures(M::ln, (x,), a) && #[trigger] call_ensures(M::ln, (x,), b) ==> a == b
    &&& forall|x: D, y: D, ln_x: D, ln_y: D| #[trigger]
        call_ensures(M::ln, (x,), ln_x) && #[trigger] call_ensures(M::ln, (y,), ln_y)
            && small::<D>(0)->0.is_lt(&x) && at_most(x, y) ==> at_most(ln_x, ln_y)
}

/// A higher pressure never means a higher altitude.
pub proof fn law_altitude_falls_with_the_pressure<S, D: Real, M: Elementary<S, D>>(
    pre_a: BlimpInnerState<S, D>,
    a: D,
    post_a: BlimpInnerState<S, D>,
    pre_b: BlimpInnerState<S, D>,
    b: D,
    post_b: BlimpInnerState<S, D>,
)
    requires
        respects_order::<D>(),
        logarithm_rises::<S, D, M>(),
        small::<D>(0)->0.is_lt(&a),
        at_most(a, b),
        event_learnt::<S, D, M>(
            pre_a,
            BlimpEvent::SensorDataF64(SensorType::Barometer, a),
            post_a,
        ),
        event_learnt::<S, D, M>(
            pre_b,
            BlimpEvent::SensorDataF64(SensorType::Barometer, b),
            post_b,
        ),
        ordered(post_a.altitude),
        ordered(post_b.altitude),
    ensures
        at_most(post_b.altitude, post_a.altitude),
{
    let (base_a, ln_a) = choose|base: D, ln: D| #[trigger]
        pressure_logarithms::<S, D, M>(a, base, ln) && barometric_altitude(base, ln) == Some(
            post_a.altitude,
        );
    let (base_b, ln_b) = choose|base: D, ln: D| #[trigger]
        pressure_logarithms::<S, D, M>(b, base, ln) && barometric_altitude(base, ln) == Some(
            post_b.altitude,
        );
    assert(base_a == base_b);
    law_altitude_falls_with_the_logarithm(base_a, ln_a, ln_b);
}

/// The altitude is zero at the pressure of sea level, not below zero at a lower
/// pressure, and not above zero at a higher one.
pub proof fn law_sea_level_is_at_zero<S, D: Real, M: Elementary<S, D>>(
    pre: BlimpInnerState<S, D>,
    pressure: D,
    post: BlimpInnerState<S, D>,
)
    requires
        respects_order::<D>(),
        logarithm_rises::<S, D, M>(),
        small::<D>(0)->0.is_lt(&pressure),
        small::<D>(0)->0.is_lt(&whole::<D>(101325)->0),
        event_learnt::<S, D, M>(
            pre,
            BlimpEvent::SensorDataF64(SensorType::Barometer, pressure),
            post,
        ),
        ordered(post.altitude),
    ensures
        ({
            let base = whole::<D>(101325)->0;
            &&& pressure == base ==> Some(post.altitude) == small::<D>(0)
            &&& at_most(pressure, base) ==> not_negative(post.altitude)
            &&& at_most(base, pressure) ==> not_positive(post.altitude)
        }),
{
    let (base, ln) = choose|base: D, ln: D| #[trigger]
        pressure_logarithms::<S, D, M>(pressure, base, ln) && barometric_altitude(base, ln)
            == Some(post.altitude);
    law_altitude_has_the_sign_of_the_difference(base, ln);
}

} // verus!
