//! Laws of the control step: what the regulators remember and correct, and what force is
//! wanted of the motors.
use crate::attitude::{local_force, main_force, rotating_force, BlimpPids, Corrections};
use crate::elementary::Elementary;
use crate::laws::integers::{truncated, Reading};
use crate::laws::reals::{
    apart, finds_directions, law_quotient_is_exact, lemma_sides, narrows, squares_numbers,
    takes_roots, widened, Functions, Measure,
};
use crate::laws::regulators::law_output_is_the_sum_of_three_terms;
use crate::laws::steering::{
    in_front, law_controls_make_up_the_main_force, on_the_left, widens,
};
use crate::laws::thrusting::{
    law_settings_give_back_the_force, law_speed_is_the_length_of_the_force,
};
use crate::messages::{BlimpAction, Controls, FlightMode};
use crate::number::{
    converted, minus, modulo, plus, quotient, small, times, Number, Real, Signed,
};
use crate::obsw_algo::{flown, forces, steadied, step_defined, BlimpInnerState};
use crate::pid::{deviation, updated, PidRegulator};
use vstd::prelude::*;

verus! {

// One regulator.

/// `d` is how far `current` is from `setpoint`: their difference, or on a circle the
/// difference less a whole number of turns, at most half a turn either way. Where both
/// ways around are equally long, it is the way of the difference.
pub open spec fn deviates<T: Number>(
    m: Measure<T>,
    setpoint: T,
    current: T,
    circular: Option<T>,
    d: real,
) -> bool {
    let raw = m.of(setpoint) - m.of(current);
    match circular {
        None => d == raw,
        Some(h) => {
            let half = m.of(h);
            half > 0 as real ==> {
                &&& exists|k: int| #[trigger] apart(raw, d, half + half, k)
                &&& -half <= d <= half
                &&& d == half ==> raw > 0 as real
                &&& d == -half ==> raw < 0 as real
            }
        },
    }
}

/// The deviation is the shorter way from the measured value to the setpoint.
pub proof fn law_deviation_is_the_shorter_way<T: Number>(
    m: Measure<T>,
    setpoint: T,
    current: T,
    circular: Option<T>,
)
    requires
        m.exact(),
        m.leaves_over(),
        deviation(setpoint, current, circular) is Some,
    ensures
        deviates(
            m,
            setpoint,
            current,
            circular,
            m.of(deviation(setpoint, current, circular)->0),
        ),
{
    if let Some(h) = circular {
        let half: real = m.of(h);
        if half > 0 as real {
            let c: real = half + half;
            let raw: real = m.of(setpoint) - m.of(current);
            let raw_t = minus(Some(setpoint), Some(current))->0;
            let c_t = plus(Some(h), Some(h))->0;
            let rest_t = modulo(Some(raw_t), Some(c_t))->0;
            let rest: real = m.of(rest_t);
            let k: int = choose|k: int| #[trigger] apart(m.of(raw_t), rest, m.of(c_t), k);
            assert(apart(raw, rest, c, k));
            assert((k + 1) as real * c == k as real * c + c) by (nonlinear_arith);
            assert((k - 1) as real * c == k as real * c - c) by (nonlinear_arith);
            let d: real = m.of(deviation(setpoint, current, circular)->0);
            if rest > half {
                assert(apart(raw, d, c, k + 1));
            } else if rest < -half {
                assert(apart(raw, d, c, k - 1));
            } else {
                assert(apart(raw, d, c, k));
            }
        }
    }
}

/// `after` is the regulator `before` once it has measured `current`: its gains and its
/// circle are as they were, it remembers the deviation, and its integral has grown by
/// the deviation times how long it lasted.
pub open spec fn remembers<T: Number>(
    m: Measure<T>,
    before: PidRegulator<T>,
    current: T,
    delta_time: T,
    after: PidRegulator<T>,
) -> bool {
    let d = m.of(after.previous_deviation);
    &&& after.k_p == before.k_p
    &&& after.k_i == before.k_i
    &&& after.k_d == before.k_d
    &&& after.circular == before.circular
    &&& deviates(m, after.setpoint, current, before.circular, d)
    &&& m.of(after.deviation_integral) == m.of(before.deviation_integral) + d * m.of(delta_time)
}

/// What a regulator puts out that went from `before` to `after`: the deviation, the
/// integral, and the growth of the deviation since the last update per unit of time,
/// each with its gain.
pub open spec fn three_terms<T: Number>(
    m: Measure<T>,
    before: PidRegulator<T>,
    delta_time: T,
    after: PidRegulator<T>,
) -> real {
    let d = m.of(after.previous_deviation);
    d * m.of(before.k_p) + (m.of(before.deviation_integral) + d * m.of(delta_time)) * m.of(
        before.k_i,
    ) + (d - m.of(before.previous_deviation)) * m.of(before.k_d) / m.of(delta_time)
}

/// An update remembers what it measured, and puts out the sum of the three terms. There
/// is none unless time has passed.
pub proof fn law_update_remembers_and_corrects<T: Number>(
    m: Measure<T>,
    pid: PidRegulator<T>,
    current: T,
    delta_time: T,
)
    requires
        m.exact(),
        m.divides(),
        m.leaves_over(),
        updated(pid, current, delta_time) is Some,
    ensures
        ({
            let (post, o) = updated(pid, current, delta_time)->0;
            let d = m.of(post.previous_deviation);
            &&& m.of(delta_time) != 0 as real
            &&& post.setpoint == pid.setpoint
            &&& remembers(m, pid, current, delta_time, post)
            &&& m.of(o) == d * m.of(pid.k_p) + (m.of(pid.deviation_integral) + d * m.of(delta_time))
                * m.of(pid.k_i) + (d - m.of(pid.previous_deviation)) * m.of(pid.k_d) / m.of(
                delta_time,
            )
        }),
{
    law_deviation_is_the_shorter_way(m, pid.setpoint, current, pid.circular);
}

// The regulators in a step.

/// What a step in a stabilised mode does to the regulators. The heading that is held is
/// the present one where the mode is new, and else the one of before; the yaw control
/// moves it by a quarter of itself per unit of time. So it is with the altitude where
/// that is held, and there the elevation moves it by a half. Pitch and roll are to be
/// zero. Each regulator goes on from what it remembered.
pub proof fn law_step_updates_the_regulators<
    S: Signed,
    D: Real + From<S>,
    M: Elementary<S, D>,
>(
    n: Measure<S>,
    w: Measure<D>,
    s: BlimpInnerState<S, D>,
    pids: BlimpPids<D>,
    delta_time: D,
    post: BlimpPids<D>,
    moves: Seq<BlimpAction<S, D>>,
)
    requires
        widened(n, w),
        w.divides(),
        w.leaves_over(),
        s.controls.desired_flight_mode != FlightMode::Manual,
        flown::<S, D, M>(s, pids, delta_time, post, moves),
    ensures
        ({
            let same_mode = s.curr_flight_mode == s.controls.desired_flight_mode;
            let heading = if same_mode { pids.attitude_pid.setpoint } else { s.heading };
            let altitude = if same_mode { pids.altitude_pid.setpoint } else { s.altitude };
            let t = w.of(delta_time);
            &&& w.of(post.attitude_pid.setpoint) == w.of(heading) + n.of(s.controls.yaw) * t
                / 4 as real
            &&& remembers(w, pids.attitude_pid, s.heading, delta_time, post.attitude_pid)
            &&& w.of(post.pitch_pid.setpoint) == 0 as real
            &&& remembers(w, pids.pitch_pid, s.pitch_roll.0, delta_time, post.pitch_pid)
            &&& w.of(post.roll_pid.setpoint) == 0 as real
            &&& remembers(w, pids.roll_pid, s.pitch_roll.1, delta_time, post.roll_pid)
            &&& s.controls.desired_flight_mode == FlightMode::AltiAtti ==> {
                &&& w.of(post.altitude_pid.setpoint) == w.of(altitude) + n.of(s.controls.elevation)
                    * t / 2 as real
                &&& remembers(w, pids.altitude_pid, s.altitude, delta_time, post.altitude_pid)
            }
            &&& s.controls.desired_flight_mode == FlightMode::Atti ==> post.altitude_pid
                == pids.altitude_pid
        }),
{
    lemma_step::<S, D, M>(n, w, s, pids, delta_time, post, moves);
}

/// A quarter or a half of a rate, per unit of time.
proof fn lemma_share<D: Real>(w: Measure<D>, n: int, d: int, rate: D, delta_time: D)
    requires
        w.exact_real(),
        w.divides(),
        n == 1,
        0 < d <= 4,
        times(times(quotient(n, d), Some(rate)), Some(delta_time)) is Some,
    ensures
        w.of(times(times(quotient(n, d), Some(rate)), Some(delta_time))->0) == w.of(rate) * w.of(
            delta_time,
        ) / d as real,
{
    law_quotient_is_exact(w, n, d);
    let q: real = w.of(quotient::<D>(n, d)->0);
    let r: real = w.of(rate);
    let t: real = w.of(delta_time);
    let e: real = d as real;
    assert(q * r * t == r * t / e) by (nonlinear_arith)
        requires
            q * e == 1 as real,
            e > 0 as real,
    ;
}

/// The regulators of a step, and what they put out.
proof fn lemma_step<S: Signed, D: Real + From<S>, M: Elementary<S, D>>(
    n: Measure<S>,
    w: Measure<D>,
    s: BlimpInnerState<S, D>,
    pids: BlimpPids<D>,
    delta_time: D,
    post: BlimpPids<D>,
    moves: Seq<BlimpAction<S, D>>,
)
    requires
        widened(n, w),
        w.divides(),
        w.leaves_over(),
        s.controls.desired_flight_mode != FlightMode::Manual,
        flown::<S, D, M>(s, pids, delta_time, post, moves),
    ensures
        ({
            let (_, corrections) = steadied(s, pids, delta_time)->0;
            let same_mode = s.curr_flight_mode == s.controls.desired_flight_mode;
            let heading = if same_mode { pids.attitude_pid.setpoint } else { s.heading };
            let altitude = if same_mode { pids.altitude_pid.setpoint } else { s.altitude };
            let t = w.of(delta_time);
            &&& steadied(s, pids, delta_time) is Some
            &&& w.of(post.attitude_pid.setpoint) == w.of(heading) + n.of(s.controls.yaw) * t
                / 4 as real
            &&& remembers(w, pids.attitude_pid, s.heading, delta_time, post.attitude_pid)
            &&& w.of(corrections.yaw) == three_terms(
                w,
                pids.attitude_pid,
                delta_time,
                post.attitude_pid,
            )
            &&& w.of(post.pitch_pid.setpoint) == 0 as real
            &&& remembers(w, pids.pitch_pid, s.pitch_roll.0, delta_time, post.pitch_pid)
            &&& w.of(corrections.pitch) == three_terms(
                w,
                pids.pitch_pid,
                delta_time,
                post.pitch_pid,
            )
            &&& w.of(post.roll_pid.setpoint) == 0 as real
            &&& remembers(w, pids.roll_pid, s.pitch_roll.1, delta_time, post.roll_pid)
            &&& w.of(corrections.roll) == three_terms(w, pids.roll_pid, delta_time, post.roll_pid)
            &&& if s.controls.desired_flight_mode == FlightMode::AltiAtti {
                &&& w.of(post.altitude_pid.setpoint) == w.of(altitude) + n.of(s.controls.elevation)
                    * t / 2 as real
                &&& remembers(w, pids.altitude_pid, s.altitude, delta_time, post.altitude_pid)
                &&& corrections.altitude matches Some(up) && w.of(up) == three_terms(
                    w,
                    pids.altitude_pid,
                    delta_time,
                    post.altitude_pid,
                )
            } else {
                &&& post.altitude_pid == pids.altitude_pid
                &&& corrections.altitude is None
            }
        }),
{
    let (_, corrections) = steadied(s, pids, delta_time)->0;
    lemma_sides(w);
    let attitude = PidRegulator { setpoint: post.attitude_pid.setpoint, ..pids.attitude_pid };
    assert(updated(attitude, s.heading, delta_time) == Some((post.attitude_pid, corrections.yaw)));
    law_update_remembers_and_corrects(w, attitude, s.heading, delta_time);
    lemma_share(w, 1, 4, converted::<S, D>(s.controls.yaw), delta_time);
    let pitch = PidRegulator { setpoint: small::<D>(0)->0, ..pids.pitch_pid };
    law_update_remembers_and_corrects(w, pitch, s.pitch_roll.0, delta_time);
    let roll = PidRegulator { setpoint: small::<D>(0)->0, ..pids.roll_pid };
    law_update_remembers_and_corrects(w, roll, s.pitch_roll.1, delta_time);
    if s.controls.desired_flight_mode == FlightMode::AltiAtti {
        let altitude = PidRegulator { setpoint: post.altitude_pid.setpoint, ..pids.altitude_pid };
        assert(updated(altitude, s.altitude, delta_time) == Some(
            (post.altitude_pid, corrections.altitude->0),
        ));
        law_update_remembers_and_corrects(w, altitude, s.altitude, delta_time);
        lemma_share(w, 1, 2, converted::<S, D>(s.controls.elevation), delta_time);
    }
}

/// The force wanted of a motor, from the controls and the corrections.
proof fn lemma_force<S: Signed, D: Real + From<S>>(
    n: Measure<S>,
    w: Measure<D>,
    c: Controls<S>,
    corrections: Corrections<D>,
    i: int,
)
    requires
        widened(n, w),
        0 <= i < 4,
        local_force(c, corrections, i) is Some,
    ensures
        ({
            let force = local_force(c, corrections, i)->0;
            let yaw = w.of(corrections.yaw);
            let pitch = w.of(corrections.pitch);
            let roll = w.of(corrections.roll);
            let up = match corrections.altitude {
                Some(altitude) => w.of(altitude),
                None => n.of(c.elevation),
            };
            &&& w.of(force.x) == n.of(c.sideways) + (if in_front(i) { yaw } else { -yaw })
            &&& w.of(force.y) == n.of(c.throttle_main) + (if on_the_left(i) {
                n.of(c.yaw) + yaw
            } else {
                -n.of(c.yaw) - yaw
            })
            &&& w.of(force.z) == up + (if in_front(i) { pitch } else { -pitch }) + (if on_the_left(
                i,
            ) {
                roll
            } else {
                -roll
            })
        }),
{
    lemma_sides(w);
    assert(rotating_force(c, corrections, i) is Some && main_force(c, corrections) is Some);
}

/// What a step in a stabilised mode does about the motors. The force wanted of a motor
/// is made of the controls and of what the regulators put out: to the right the
/// sideways control, with the correction of the heading in front and less it in the
/// back; forward the throttle, with the yaw control and the correction of the heading
/// on the left and less both on the right; upward the elevation, or the correction of
/// the altitude where that is held, with the correction of the pitch in front and less
/// it in the back, and with the correction of the roll on the left and less it on the
/// right. The two servos and the speed are set so that they give back this force, for
/// all motors in their order, and nothing else is set.
pub proof fn law_step_sets_the_motors<S: Signed, D: Real + From<S>, M: Elementary<S, D>>(
    n: Measure<S>,
    w: Measure<D>,
    f: Functions,
    s: BlimpInnerState<S, D>,
    pids: BlimpPids<D>,
    delta_time: D,
    post: BlimpPids<D>,
    moves: Seq<BlimpAction<S, D>>,
    i: int,
)
    requires
        widened(n, w),
        w.divides(),
        w.leaves_over(),
        takes_roots::<S, D, M>(w),
        squares_numbers::<S, D, M>(w),
        finds_directions::<S, D, M>(w, f),
        narrows::<S, D, M>(n, w),
        s.controls.desired_flight_mode != FlightMode::Manual,
        step_defined::<S, D, M>(s, pids, delta_time),
        flown::<S, D, M>(s, pids, delta_time, post, moves),
        0 <= i < 4,
    ensures
        moves.len() == 12,
        moves[3 * i] matches BlimpAction::SetServo { servo: first, location: up_down } && (moves[3
            * i + 1] matches BlimpAction::SetServo { servo: second, location: sideways } && (moves[3
            * i + 2] matches BlimpAction::SetMotor { motor, speed } && {
            let c = s.controls;
            let yaw = three_terms(w, pids.attitude_pid, delta_time, post.attitude_pid);
            let pitch = three_terms(w, pids.pitch_pid, delta_time, post.pitch_pid);
            let roll = three_terms(w, pids.roll_pid, delta_time, post.roll_pid);
            let up = if c.desired_flight_mode == FlightMode::AltiAtti {
                three_terms(w, pids.altitude_pid, delta_time, post.altitude_pid)
            } else {
                n.of(c.elevation)
            };
            let x = n.of(c.sideways) + (if in_front(i) { yaw } else { -yaw });
            let y = n.of(c.throttle_main) + (if on_the_left(i) {
                n.of(c.yaw) + yaw
            } else {
                -n.of(c.yaw) - yaw
            });
            let z = up + (if in_front(i) { pitch } else { -pitch }) + (if on_the_left(i) {
                roll
            } else {
                -roll
            });
            let half = 884279719003555 as real / 281474976710656 as real;
            let length = n.of(speed);
            let b = n.of(sideways) * half / 180 as real;
            let t = (if on_the_left(i) { -n.of(up_down) } else { n.of(up_down) }) * half
                / 180 as real;
            &&& first == 2 * i && second == 2 * i + 1 && motor == i
            &&& length >= 0 as real
            &&& length * length == x * x + y * y + z * z
            &&& length * (f.cos)(b) == x
            &&& length * (f.sin)(b) <= 0 as real
            &&& -(length * (f.sin)(b)) * (f.cos)(t) == y
            &&& -(length * (f.sin)(b)) * (f.sin)(t) == z
            &&& -f.pi <= b <= f.pi
            &&& -f.pi <= t <= f.pi
            &&& length == 0 as real ==> b == 0 as real
            &&& y == 0 as real && z == 0 as real ==> t == 0 as real
        })),
{
    let (_, corrections) = steadied(s, pids, delta_time)->0;
    lemma_step::<S, D, M>(n, w, s, pids, delta_time, post, moves);
    assert(local_force(s.controls, corrections, i) is Some);
    lemma_force(n, w, s.controls, corrections, i);
    let wanted = forces(s.controls, corrections);
    assert(wanted[i] == local_force(s.controls, corrections, i)->0);
    law_settings_give_back_the_force::<S, D, M>(n, w, f, wanted, moves, i);
    law_speed_is_the_length_of_the_force::<S, D, M>(n, w, wanted, moves, i);
}

// Read as integers.

/// What a regulator puts out, read as integers: the quotient is rounded towards zero.
pub open spec fn integer_terms<T: Number>(
    r: Reading<T>,
    before: PidRegulator<T>,
    d: int,
    delta_time: T,
) -> int {
    d * r.of(before.k_p) + (r.of(before.deviation_integral) + d * r.of(delta_time)) * r.of(
        before.k_i,
    ) + truncated((d - r.of(before.previous_deviation)) * r.of(before.k_d), r.of(delta_time))
}

/// In a step that holds the altitude, what the regulator remembers enters the upward
/// main force, which is the sum of the three terms. If the deviation has not changed
/// since the last step, there is no third term.
pub proof fn law_altitude_is_regulated_from_step_to_step<
    S: Signed,
    D: Real + From<S>,
    M: Elementary<S, D>,
>(
    n: Reading<S>,
    w: Reading<D>,
    s: BlimpInnerState<S, D>,
    pids: BlimpPids<D>,
    delta_time: D,
    post: BlimpPids<D>,
    moves: Seq<BlimpAction<S, D>>,
)
    requires
        widens(n, w),
        s.controls.desired_flight_mode == FlightMode::AltiAtti,
        pids.altitude_pid.circular is None,
        flown::<S, D, M>(s, pids, delta_time, post, moves),
    ensures
        ({
            let (_, corrections) = steadied(s, pids, delta_time)->0;
            let pid = pids.altitude_pid;
            let d = w.of(post.altitude_pid.setpoint) - w.of(s.altitude);
            let sum = w.of(pid.deviation_integral) + d * w.of(delta_time);
            let up = w.of(main_force(s.controls, corrections)->0.z);
            &&& main_force(s.controls, corrections) is Some
            &&& w.of(delta_time) != 0
            &&& up == d * w.of(pid.k_p) + sum * w.of(pid.k_i) + truncated(
                (d - w.of(pid.previous_deviation)) * w.of(pid.k_d),
                w.of(delta_time),
            )
            &&& d == w.of(pid.previous_deviation) ==> up == d * w.of(pid.k_p) + sum * w.of(pid.k_i)
            &&& w.of(post.altitude_pid.previous_deviation) == d
            &&& w.of(post.altitude_pid.deviation_integral) == sum
        }),
{
    let (_, corrections) = steadied(s, pids, delta_time)->0;
    law_controls_make_up_the_main_force(n, w, s.controls, corrections);
    let pid = PidRegulator { setpoint: post.altitude_pid.setpoint, ..pids.altitude_pid };
    assert(updated(pid, s.altitude, delta_time) == Some(
        (post.altitude_pid, corrections.altitude->0),
    ));
    law_output_is_the_sum_of_three_terms(w, pid, s.altitude, delta_time);
    let t: int = w.of(delta_time);
    let k_d: int = w.of(pid.k_d);
    assert(0int / t == 0) by (nonlinear_arith)
        requires
            t != 0,
    ;
    assert(0 * k_d == 0);
}

/// In a step in a stabilised mode, what the regulators of heading, pitch and roll
/// remember enters what they put out, which is the sum of the three terms each.
pub proof fn law_attitude_is_regulated_from_step_to_step<
    S: Signed,
    D: Real + From<S>,
    M: Elementary<S, D>,
>(
    n: Reading<S>,
    w: Reading<D>,
    s: BlimpInnerState<S, D>,
    pids: BlimpPids<D>,
    delta_time: D,
    post: BlimpPids<D>,
    moves: Seq<BlimpAction<S, D>>,
)
    requires
        widens(n, w),
        s.controls.desired_flight_mode != FlightMode::Manual,
        flown::<S, D, M>(s, pids, delta_time, post, moves),
    ensures
        ({
            let (_, corrections) = steadied(s, pids, delta_time)->0;
            let yaw = w.of(post.attitude_pid.previous_deviation);
            let pitch = w.of(post.pitch_pid.previous_deviation);
            let roll = w.of(post.roll_pid.previous_deviation);
            let t = w.of(delta_time);
            &&& t != 0
            &&& w.of(corrections.yaw) == integer_terms(w, pids.attitude_pid, yaw, delta_time)
            &&& w.of(corrections.pitch) == integer_terms(w, pids.pitch_pid, pitch, delta_time)
            &&& w.of(corrections.roll) == integer_terms(w, pids.roll_pid, roll, delta_time)
            &&& w.of(post.attitude_pid.deviation_integral) == w.of(
                pids.attitude_pid.deviation_integral,
            ) + yaw * t
            &&& w.of(post.pitch_pid.deviation_integral) == w.of(pids.pitch_pid.deviation_integral)
                + pitch * t
            &&& w.of(post.roll_pid.deviation_integral) == w.of(pids.roll_pid.deviation_integral)
                + roll * t
        }),
{
    let (_, corrections) = steadied(s, pids, delta_time)->0;
    let attitude = PidRegulator { setpoint: post.attitude_pid.setpoint, ..pids.attitude_pid };
    assert(updated(attitude, s.heading, delta_time) == Some((post.attitude_pid, corrections.yaw)));
    law_output_is_the_sum_of_three_terms(w, attitude, s.heading, delta_time);
    let pitch = PidRegulator { setpoint: small::<D>(0)->0, ..pids.pitch_pid };
    law_output_is_the_sum_of_three_terms(w, pitch, s.pitch_roll.0, delta_time);
    let roll = PidRegulator { setpoint: small::<D>(0)->0, ..pids.roll_pid };
    law_output_is_the_sum_of_three_terms(w, roll, s.pitch_roll.1, delta_time);
}

} // verus!
