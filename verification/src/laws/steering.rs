//! Laws of steering: which way each control and each correction moves the blimp. They
//! hold for all number types that can be read as integers.
use crate::attitude::{local_force, main_force, rotating_force, BlimpPids, Corrections};
use crate::elementary::Elementary;
use crate::laws::integers::Reading;
use crate::layout::{left, right};
use crate::laws::regulators::{law_output_is_the_sum_of_three_terms, lemma_deviation};
use crate::manual::{downwards, location, sideways, speed, up_down};
use crate::messages::{BlimpAction, Controls, FlightMode};
use crate::number::{converted, plus, small, times, Number, Real, Signed};
use crate::obsw_algo::{flown, forces, steadied, step_defined, BlimpInnerState};
use crate::pid::{deviation, updated, PidRegulator};
use vstd::arithmetic::div_mod::lemma_small_mod;
use vstd::prelude::*;

verus! {

/// Motor `i` is on the left.
pub open spec fn on_the_left(i: int) -> bool {
    i == 0 || i == 2
}

/// Motor `i` is in front.
pub open spec fn in_front(i: int) -> bool {
    i == 0 || i == 1
}

/// A product with one is the number itself, and one with minus one is its opposite.
pub proof fn lemma_signs<T: Signed>(r: Reading<T>)
    requires
        r.exact_signed(),
    ensures
        forall|a: Option<T>| #[trigger] times(a, small(1)) == a,
        forall|a: Option<T>| #[trigger]
            times(a, small(-1)) matches Some(b) ==> a matches Some(x) && r.of(b) == -r.of(x),
{
    assert forall|a: Option<T>| #[trigger] times(a, small(1)) == a by {
        if a is Some {
            assert(r.of(a->0) * 1 == r.of(a->0));
            assert(r.of(converted::<i8, T>(1)) == 1);
        }
    }
    assert forall|a: Option<T>| #[trigger] times(a, small(-1)) is Some implies a is Some && r.of(
        times(a, small(-1))->0,
    ) == -r.of(a->0) by {
        assert(r.of(a->0) * -1 == -r.of(a->0));
        assert(r.of(converted::<i8, T>(-1i8)) == -1);
    }
}

// Manual flight.

/// The throttle applies to all motors equally: what it gives to or takes from one
/// motor's speed it gives to or takes from every other's, against the direction of
/// those that are reversed.
pub proof fn law_throttle_applies_equally<S: Signed>(
    r: Reading<S>,
    c: Controls<S>,
    throttle_main: S,
    i: int,
)
    requires
        r.exact_signed(),
        0 <= i < 4,
        speed(c, i) is Some,
        speed(Controls { throttle_main, ..c }, i) is Some,
    ensures
        ({
            let more = r.of(throttle_main) - r.of(c.throttle_main);
            r.of(speed(Controls { throttle_main, ..c }, i)->0) == r.of(speed(c, i)->0) + (
            if c.motors_reverse[i] {
                -more
            } else {
                more
            })
        }),
{
    lemma_signs(r);
}

/// A positive yaw makes the motors on the left faster and those on the right
/// slower, all by the same amount.
pub proof fn law_yaw_speeds_up_the_left<S: Signed>(
    r: Reading<S>,
    c: Controls<S>,
    none: S,
    i: int,
)
    requires
        r.exact_signed(),
        r.of(none) == 0,
        0 <= i < 4,
        speed(c, i) is Some,
        speed(Controls { yaw: none, ..c }, i) is Some,
    ensures
        r.of(speed(c, i)->0) == r.of(speed(Controls { yaw: none, ..c }, i)->0) + (if on_the_left(
            i,
        ) {
            r.of(c.yaw)
        } else {
            -r.of(c.yaw)
        }),
{
    lemma_signs(r);
}

/// A deflection of at least one is a quarter turn, and none is none.
proof fn lemma_location<S: Signed>(r: Reading<S>, deflection: S)
    requires
        r.exact_signed(),
        location(Some(deflection)) is Some,
    ensures
        r.of(deflection) > 0 ==> r.of(location(Some(deflection))->0) == 90,
        r.of(deflection) == 0 ==> r.of(location(Some(deflection))->0) == 0,
        r.of(deflection) < 0 ==> r.of(location(Some(deflection))->0) == -90,
{
    assert(r.of(converted::<i8, S>(1)) == 1);
    assert(r.of(converted::<i8, S>(-1i8)) == -1);
    assert(r.of(converted::<i8, S>(90)) == 90);
    assert(1int * 90 == 90 && 0int * 90 == 0 && (-1int) * 90 == -90);
}

/// How far down the up-down servo of motor `i` is turned, in degrees. The servos on
/// the right count the other way.
pub open spec fn degrees_down<S: Signed>(r: Reading<S>, c: Controls<S>, i: int) -> int {
    if on_the_left(i) {
        r.of(up_down(c, i)->0)
    } else {
        -r.of(up_down(c, i)->0)
    }
}

/// A positive elevation turns all up-down servos downwards. A positive pitch turns
/// those in front upwards and those in the back downwards. A positive roll turns
/// those on the left downwards and those on the right upwards.
pub proof fn law_up_down_servos_follow_the_stick<S: Signed>(
    r: Reading<S>,
    c: Controls<S>,
    i: int,
)
    requires
        r.exact_signed(),
        0 <= i < 4,
        up_down(c, i) is Some,
    ensures
        downwards(c, i) is Some,
        r.of(downwards(c, i)->0) == r.of(c.elevation) + (if in_front(i) {
            -r.of(c.pitch)
        } else {
            r.of(c.pitch)
        }) + (if on_the_left(i) { r.of(c.roll) } else { -r.of(c.roll) }),
        r.of(downwards(c, i)->0) > 0 ==> degrees_down(r, c, i) == 90,
        r.of(downwards(c, i)->0) == 0 ==> degrees_down(r, c, i) == 0,
        r.of(downwards(c, i)->0) < 0 ==> degrees_down(r, c, i) == -90,
{
    lemma_signs(r);
    lemma_location(r, times(downwards(c, i), left(i))->0);
}

/// In manual flight no servo is sent further than a quarter turn either way.
pub proof fn law_servos_stay_in_range<S: Signed>(r: Reading<S>, c: Controls<S>, i: int)
    requires
        r.exact_signed(),
        0 <= i < 4,
        up_down(c, i) is Some,
        sideways(c, i) is Some,
    ensures
        -90 <= r.of(up_down(c, i)->0) <= 90,
        -90 <= r.of(sideways(c, i)->0) <= 90,
{
    lemma_location(r, times(downwards(c, i), left(i))->0);
    lemma_location(r, plus(times(Some(c.roll), right(i)), small(-1))->0);
}

/// Without roll all sideways servos point ahead. A positive roll turns those on the
/// right to the right, and a negative one those on the left; the others, which would
/// have to turn to the left, are held where they are.
pub proof fn law_sideways_servos_follow_the_roll<S: Signed>(
    r: Reading<S>,
    c: Controls<S>,
    i: int,
)
    requires
        r.exact_signed(),
        0 <= i < 4,
        sideways(c, i) is Some,
    ensures
        ({
            let roll = r.of(c.roll);
            let angle = r.of(sideways(c, i)->0);
            &&& roll == 0 ==> angle == -90
            &&& roll > 0 && on_the_left(i) ==> angle == -90
            &&& roll > 0 && !on_the_left(i) ==> angle > -90
            &&& roll < 0 && on_the_left(i) ==> angle > -90
            &&& roll < 0 && !on_the_left(i) ==> angle == -90
        }),
{
    lemma_signs(r);
    assert(r.of(converted::<i8, S>(-1i8)) == -1);
    lemma_location(r, plus(times(Some(c.roll), right(i)), small(-1))->0);
}

// Stabilised flight.

/// A narrow number, made wide, is read as before.
pub open spec fn widens<S: Signed, D: Real + From<S>>(n: Reading<S>, w: Reading<D>) -> bool {
    &&& n.exact_signed()
    &&& w.exact_real()
    &&& forall|a: S| w.of(#[trigger] converted::<S, D>(a)) == n.of(a)
}

/// In the main desired force vector the throttle is the forward component, the
/// sideways control the one to the right, and the upward one is the elevation, or
/// the correction of the altitude where that is held.
pub proof fn law_controls_make_up_the_main_force<S: Signed, D: Real + From<S>>(
    n: Reading<S>,
    w: Reading<D>,
    c: Controls<S>,
    corrections: Corrections<D>,
)
    requires
        widens(n, w),
    ensures
        main_force(c, corrections) is Some,
        ({
            let main = main_force(c, corrections)->0;
            &&& w.of(main.x) == n.of(c.sideways)
            &&& w.of(main.y) == n.of(c.throttle_main)
            &&& w.of(main.z) == (match corrections.altitude {
                Some(altitude) => w.of(altitude),
                None => n.of(c.elevation),
            })
        }),
{
    assert(w.of(converted::<i8, D>(0)) == 0);
}

/// A positive correction of the roll adds to the upward component of the local
/// rotating force vectors on the left and takes away from those on the right; one
/// of the pitch adds to those in front and takes away from those in the back; one
/// of the heading pushes clockwise: the front to the right and the back to the left,
/// the left forward and the right backward. The yaw control adds to the latter two.
pub proof fn law_corrections_make_up_the_rotating_force<S: Signed, D: Real + From<S>>(
    n: Reading<S>,
    w: Reading<D>,
    c: Controls<S>,
    corrections: Corrections<D>,
    i: int,
)
    requires
        widens(n, w),
        0 <= i < 4,
        rotating_force(c, corrections, i) is Some,
    ensures
        ({
            let own = rotating_force(c, corrections, i)->0;
            let yaw = w.of(corrections.yaw);
            let pitch = w.of(corrections.pitch);
            let roll = w.of(corrections.roll);
            &&& w.of(own.x) == (if in_front(i) { yaw } else { -yaw })
            &&& w.of(own.y) == (if on_the_left(i) {
                n.of(c.yaw) + yaw
            } else {
                -n.of(c.yaw) - yaw
            })
            &&& w.of(own.z) == (if in_front(i) { pitch } else { -pitch }) + (if on_the_left(i) {
                roll
            } else {
                -roll
            })
        }),
{
    lemma_signs(w);
    assert(w.of(converted::<i8, D>(0)) == 0);
}

/// The corrections only turn the blimp: over the four motors the local rotating
/// force vectors cancel out, and what is left is four times the main desired one.
pub proof fn law_rotating_forces_cancel_out<S: Signed, D: Real + From<S>>(
    n: Reading<S>,
    w: Reading<D>,
    c: Controls<S>,
    corrections: Corrections<D>,
)
    requires
        widens(n, w),
        forall|i: int| 0 <= i < 4 ==> #[trigger] local_force(c, corrections, i) is Some,
    ensures
        ({
            let f = |i: int| local_force(c, corrections, i)->0;
            let m = main_force(c, corrections)->0;
            &&& w.of(f(0).x) + w.of(f(1).x) + w.of(f(2).x) + w.of(f(3).x) == 4 * w.of(m.x)
            &&& w.of(f(0).y) + w.of(f(1).y) + w.of(f(2).y) + w.of(f(3).y) == 4 * w.of(m.y)
            &&& w.of(f(0).z) + w.of(f(1).z) + w.of(f(2).z) + w.of(f(3).z) == 4 * w.of(m.z)
        }),
{
    assert(local_force(c, corrections, 0) is Some);
    assert(local_force(c, corrections, 1) is Some);
    assert(local_force(c, corrections, 2) is Some);
    assert(local_force(c, corrections, 3) is Some);
    law_corrections_make_up_the_rotating_force(n, w, c, corrections, 0);
    law_corrections_make_up_the_rotating_force(n, w, c, corrections, 1);
    law_corrections_make_up_the_rotating_force(n, w, c, corrections, 2);
    law_corrections_make_up_the_rotating_force(n, w, c, corrections, 3);
}

/// The regulator corrects towards its setpoint, and what it remembers does not speak
/// against a deviation of `d`: its integral does not point the other way, and the
/// deviation has not been larger. A regulator that has seen no deviation yet is one.
pub open spec fn agrees<T: Number>(r: Reading<T>, pid: PidRegulator<T>, d: int) -> bool {
    &&& r.of(pid.k_p) > 0
    &&& r.of(pid.k_i) >= 0
    &&& r.of(pid.k_d) >= 0
    &&& d >= 0 ==> r.of(pid.deviation_integral) >= 0 && r.of(pid.previous_deviation) <= d
    &&& d <= 0 ==> r.of(pid.deviation_integral) <= 0 && r.of(pid.previous_deviation) >= d
}

/// `a` has the sign of `b`.
pub open spec fn same_sign(a: int, b: int) -> bool {
    &&& a > 0 <==> b > 0
    &&& a < 0 <==> b < 0
}

/// The output of such a regulator has the sign of the deviation.
proof fn lemma_output_sign<T: Number>(
    r: Reading<T>,
    pid: PidRegulator<T>,
    current: T,
    delta_time: T,
)
    requires
        r.exact(),
        r.of(delta_time) > 0,
        updated(pid, current, delta_time) is Some,
        agrees(r, pid, r.of(deviation(pid.setpoint, current, pid.circular)->0)),
    ensures
        ({
            let (_, correction) = updated(pid, current, delta_time)->0;
            same_sign(
                r.of(correction),
                r.of(deviation(pid.setpoint, current, pid.circular)->0),
            )
        }),
{
    let d: int = r.of(deviation(pid.setpoint, current, pid.circular)->0);
    let k_p: int = r.of(pid.k_p);
    let k_i: int = r.of(pid.k_i);
    let k_d: int = r.of(pid.k_d);
    let t: int = r.of(delta_time);
    let p: int = d * k_p;
    let weighted: int = d * t;
    let integral: int = r.of(pid.deviation_integral) + weighted;
    let i: int = integral * k_i;
    let growth: int = d - r.of(pid.previous_deviation);
    let change: int = growth * k_d;
    law_output_is_the_sum_of_three_terms(r, pid, current, delta_time);
    if d > 0 {
        assert(p > 0 && weighted > 0 && change >= 0) by (nonlinear_arith)
            requires
                d > 0,
                growth >= 0,
                p == d * k_p,
                weighted == d * t,
                change == growth * k_d,
                k_p > 0,
                k_d >= 0,
                t > 0,
        ;
        assert(i >= 0) by (nonlinear_arith)
            requires
                i == integral * k_i,
                integral >= 0,
                k_i >= 0,
        ;
        assert(change / t >= 0) by (nonlinear_arith)
            requires
                change >= 0,
                t > 0,
        ;
    } else if d < 0 {
        assert(p < 0 && weighted < 0 && change <= 0) by (nonlinear_arith)
            requires
                d < 0,
                growth <= 0,
                p == d * k_p,
                weighted == d * t,
                change == growth * k_d,
                k_p > 0,
                k_d >= 0,
                t > 0,
        ;
        assert(i <= 0) by (nonlinear_arith)
            requires
                i == integral * k_i,
                integral <= 0,
                k_i >= 0,
        ;
        assert((-change) / t >= 0) by (nonlinear_arith)
            requires
                change <= 0,
                t > 0,
        ;
        assert(0int / t == 0) by (nonlinear_arith)
            requires
                t > 0,
        ;
    } else {
        assert(p == 0 && weighted == 0 && change == 0) by (nonlinear_arith)
            requires
                d == 0,
                growth == 0,
                p == d * k_p,
                weighted == d * t,
                change == growth * k_d,
        ;
        assert(i == 0) by (nonlinear_arith)
            requires
                i == integral * k_i,
                integral == 0,
        ;
        assert(change / t == 0) by (nonlinear_arith)
            requires
                change == 0,
                t > 0,
        ;
    }
}

/// `angle` lies within the circle.
pub open spec fn on_the_circle<T: Number>(r: Reading<T>, angle: T, circular: Option<T>) -> bool {
    circular matches Some(half) ==> r.of(half) > 0 && -r.of(half) <= r.of(angle) <= r.of(half)
}

/// An angle that is to be zero deviates by its opposite.
proof fn lemma_levelling_deviation<T: Number>(
    r: Reading<T>,
    level: T,
    angle: T,
    circular: Option<T>,
)
    requires
        r.exact(),
        r.of(level) == 0,
        on_the_circle(r, angle, circular),
        deviation(level, angle, circular) is Some,
    ensures
        r.of(deviation(level, angle, circular)->0) == -r.of(angle),
{
    lemma_deviation(r, level, angle, circular);
    if let Some(half) = circular {
        let a: int = r.of(angle);
        lemma_small_mod((if a < 0 { -a } else { a }) as nat, (2 * r.of(half)) as nat);
    }
}

/// A control step in a stabilised mode keeps the blimp level. The correction of the
/// pitch opposes the pitch, and that of the roll opposes the roll. Beyond the main
/// desired force, a positive pitch, nose up, takes away from the upward push in front
/// and adds to it in the back; a positive roll, right side down, takes away from it
/// on the left and adds to it on the right. This holds as long as what the regulators
/// remember does not speak against it.
pub proof fn law_tilt_is_corrected<S: Signed, D: Real + From<S>, M: Elementary<S, D>>(
    n: Reading<S>,
    w: Reading<D>,
    s: BlimpInnerState<S, D>,
    pids: BlimpPids<D>,
    delta_time: D,
    post: BlimpPids<D>,
    moves: Seq<BlimpAction<S, D>>,
    i: int,
)
    requires
        widens(n, w),
        0 <= i < 4,
        w.of(delta_time) > 0,
        s.controls.desired_flight_mode != FlightMode::Manual,
        step_defined::<S, D, M>(s, pids, delta_time),
        flown::<S, D, M>(s, pids, delta_time, post, moves),
        on_the_circle(w, s.pitch_roll.0, pids.pitch_pid.circular),
        on_the_circle(w, s.pitch_roll.1, pids.roll_pid.circular),
        agrees(w, pids.pitch_pid, -w.of(s.pitch_roll.0)),
        agrees(w, pids.roll_pid, -w.of(s.pitch_roll.1)),
    ensures
        ({
            let (_, corrections) = steadied(s, pids, delta_time)->0;
            let force = forces(s.controls, corrections)[i];
            let main = main_force(s.controls, corrections)->0;
            let up = w.of(force.z) - w.of(main.z);
            let pitch = w.of(s.pitch_roll.0);
            let roll = w.of(s.pitch_roll.1);
            let pitch_back = w.of(corrections.pitch);
            let roll_back = w.of(corrections.roll);
            &&& same_sign(pitch_back, -pitch)
            &&& same_sign(roll_back, -roll)
            &&& up == (if in_front(i) { pitch_back } else { -pitch_back }) + (if on_the_left(i) {
                roll_back
            } else {
                -roll_back
            })
            &&& roll == 0 ==> same_sign(up, if in_front(i) { -pitch } else { pitch })
            &&& pitch == 0 ==> same_sign(up, if on_the_left(i) { -roll } else { roll })
        }),
{
    let (_, corrections) = steadied(s, pids, delta_time)->0;
    assert(local_force(s.controls, corrections, i) is Some);
    law_corrections_make_up_the_rotating_force(n, w, s.controls, corrections, i);
    let level = small::<D>(0)->0;
    assert(w.of(level) == 0);
    let pitch_pid = PidRegulator { setpoint: level, ..pids.pitch_pid };
    let roll_pid = PidRegulator { setpoint: level, ..pids.roll_pid };
    lemma_levelling_deviation(w, level, s.pitch_roll.0, pitch_pid.circular);
    lemma_levelling_deviation(w, level, s.pitch_roll.1, roll_pid.circular);
    lemma_output_sign(w, pitch_pid, s.pitch_roll.0, delta_time);
    lemma_output_sign(w, roll_pid, s.pitch_roll.1, delta_time);
}

/// A control step in a stabilised mode steers to the heading that it holds. If that
/// lies clockwise of the one measured, then beyond the main desired force and the
/// yaw control the front pushes to the right and the back to the left, the left
/// forward and the right backward; if it lies anticlockwise, the other way round.
/// This holds as long as what the regulator remembers does not speak against it.
pub proof fn law_heading_is_sought<S: Signed, D: Real + From<S>, M: Elementary<S, D>>(
    n: Reading<S>,
    w: Reading<D>,
    s: BlimpInnerState<S, D>,
    pids: BlimpPids<D>,
    delta_time: D,
    post: BlimpPids<D>,
    moves: Seq<BlimpAction<S, D>>,
    i: int,
)
    requires
        widens(n, w),
        0 <= i < 4,
        w.of(delta_time) > 0,
        s.controls.desired_flight_mode != FlightMode::Manual,
        step_defined::<S, D, M>(s, pids, delta_time),
        flown::<S, D, M>(s, pids, delta_time, post, moves),
        agrees(
            w,
            pids.attitude_pid,
            w.of(
                deviation(post.attitude_pid.setpoint, s.heading, pids.attitude_pid.circular)->0,
            ),
        ),
    ensures
        ({
            let (_, corrections) = steadied(s, pids, delta_time)->0;
            let ahead = w.of(
                deviation(post.attitude_pid.setpoint, s.heading, pids.attitude_pid.circular)->0,
            );
            let yaw = n.of(s.controls.yaw);
            let force = forces(s.controls, corrections)[i];
            let main = main_force(s.controls, corrections)->0;
            &&& same_sign(w.of(corrections.yaw), ahead)
            &&& same_sign(
                w.of(force.x) - w.of(main.x),
                if in_front(i) { ahead } else { -ahead },
            )
            &&& same_sign(
                w.of(force.y) - w.of(main.y) - (if on_the_left(i) { yaw } else { -yaw }),
                if on_the_left(i) { ahead } else { -ahead },
            )
        }),
{
    let (_, corrections) = steadied(s, pids, delta_time)->0;
    assert(local_force(s.controls, corrections, i) is Some);
    law_corrections_make_up_the_rotating_force(n, w, s.controls, corrections, i);
    let pid = PidRegulator { setpoint: post.attitude_pid.setpoint, ..pids.attitude_pid };
    assert(updated(pid, s.heading, delta_time) == Some((post.attitude_pid, corrections.yaw)));
    lemma_output_sign(w, pid, s.heading, delta_time);
}

/// A control step that holds the altitude brings the blimp to it: below it the main
/// desired force pushes up, and above it down. This holds as long as what the
/// regulator remembers does not speak against it.
pub proof fn law_altitude_is_sought<S: Signed, D: Real + From<S>, M: Elementary<S, D>>(
    n: Reading<S>,
    w: Reading<D>,
    s: BlimpInnerState<S, D>,
    pids: BlimpPids<D>,
    delta_time: D,
    post: BlimpPids<D>,
    moves: Seq<BlimpAction<S, D>>,
)
    requires
        widens(n, w),
        w.of(delta_time) > 0,
        s.controls.desired_flight_mode == FlightMode::AltiAtti,
        flown::<S, D, M>(s, pids, delta_time, post, moves),
        pids.altitude_pid.circular is None,
        agrees(
            w,
            pids.altitude_pid,
            w.of(post.altitude_pid.setpoint) - w.of(s.altitude),
        ),
    ensures
        ({
            let (_, corrections) = steadied(s, pids, delta_time)->0;
            &&& main_force(s.controls, corrections) is Some
            &&& same_sign(
                w.of(main_force(s.controls, corrections)->0.z),
                w.of(post.altitude_pid.setpoint) - w.of(s.altitude),
            )
        }),
{
    let (_, corrections) = steadied(s, pids, delta_time)->0;
    law_controls_make_up_the_main_force(n, w, s.controls, corrections);
    let pid = PidRegulator { setpoint: post.altitude_pid.setpoint, ..pids.altitude_pid };
    assert(updated(pid, s.altitude, delta_time) == Some(
        (post.altitude_pid, corrections.altitude->0),
    ));
    lemma_deviation(w, pid.setpoint, s.altitude, pid.circular);
    lemma_output_sign(w, pid, s.altitude, delta_time);
}

} // verus!
