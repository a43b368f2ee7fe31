//! Laws of how a controller starts out, of how its steps end, and of when it can compute.
use crate::attitude::{local_force, BlimpPids};
use crate::elementary::Elementary;
use crate::laws::reals::{law_half_turn_is_exact, law_quotient_is_exact, lemma_sides, Measure};
use crate::manual::{manual_actions, motor_actions};
use crate::messages::{BlimpAction, BlimpEvent, BlimpState, Controls, FlightMode, MessageB2G};
use crate::number::{half_turn, lawful_signed, small, Number, Real, Signed};
use crate::obsw_algo::{
    closing, event_defined, fresh_pids, lights, steadied, step_defined, untouched, zero,
    BlimpInnerState, BlimpMainAlgo,
};
use crate::pid::{deviation, updated, PidRegulator};
use crate::thrust::thrust_defined;
use crate::vector::Vector3;
use vstd::prelude::*;
use vstd::std_specs::ops::{AddSpec, DivSpec, MulSpec, NegSpec, RemSpec, SubSpec};

verus! {

// How a controller starts out.

/// Untouched controls ask for nothing: everything is zero, flight is manual, all motors
/// are on and none is reversed, and the lights are off.
pub proof fn law_untouched_controls_ask_for_nothing<S: Signed>(m: Measure<S>, c: Controls<S>)
    requires
        m.exact_signed(),
        untouched(c),
    ensures
        m.of(zero::<S>()) == 0 as real,
        m.of(c.throttle_main) == 0 as real,
        forall|i: int| 0 <= i < 4 ==> m.of(#[trigger] c.throttle_split[i]) == 0 as real,
        m.of(c.sideways) == 0 as real,
        m.of(c.elevation) == 0 as real,
        m.of(c.pitch) == 0 as real,
        m.of(c.roll) == 0 as real,
        m.of(c.yaw) == 0 as real,
        c.desired_flight_mode == FlightMode::Manual,
        forall|i: int| 0 <= i < 4 ==> #[trigger] c.motors_toggles[i],
        forall|i: int| 0 <= i < 4 ==> !#[trigger] c.motors_reverse[i],
        !c.nav_lights,
{
    lemma_sides(m);
    let zeros = seq![zero::<S>(), zero::<S>(), zero::<S>(), zero::<S>()];
    assert forall|i: int| 0 <= i < 4 implies m.of(#[trigger] c.throttle_split[i]) == 0 as real by {
        assert(c.throttle_split@[i] == zeros[i]);
    }
    assert forall|i: int| 0 <= i < 4 implies #[trigger] c.motors_toggles[i] by {
        assert(c.motors_toggles@[i] == seq![true, true, true, true][i]);
    }
    assert forall|i: int| 0 <= i < 4 implies !#[trigger] c.motors_reverse[i] by {
        assert(c.motors_reverse@[i] == seq![false, false, false, false][i]);
    }
}

/// The regulator has the gains 1, 0.15 and 2, is to drive its value to zero, and has
/// seen nothing yet.
pub open spec fn starts_out<D: Real>(w: Measure<D>, pid: PidRegulator<D>) -> bool {
    &&& w.of(pid.k_p) == 1 as real
    &&& w.of(pid.k_i) == 15 as real / 100 as real
    &&& w.of(pid.k_d) == 2 as real
    &&& w.of(pid.setpoint) == 0 as real
    &&& w.of(pid.deviation_integral) == 0 as real
    &&& w.of(pid.previous_deviation) == 0 as real
}

/// The regulators of a new controller. All but that of the altitude go round a circle
/// whose half circumference is half a turn in radians.
pub proof fn law_new_regulators<D: Real>(w: Measure<D>)
    requires
        w.exact_real(),
        w.divides(),
        fresh_pids::<D>() is Some,
    ensures
        ({
            let pids = fresh_pids::<D>()->0;
            let half = 884279719003555 as real / 281474976710656 as real;
            &&& starts_out(w, pids.attitude_pid)
            &&& starts_out(w, pids.altitude_pid)
            &&& starts_out(w, pids.pitch_pid)
            &&& starts_out(w, pids.roll_pid)
            &&& pids.altitude_pid.circular is None
            &&& pids.attitude_pid.circular matches Some(h) && w.of(h) == half
            &&& pids.pitch_pid.circular matches Some(h) && w.of(h) == half
            &&& pids.roll_pid.circular matches Some(h) && w.of(h) == half
        }),
{
    lemma_sides(w);
    assert(w.of(small::<D>(2)->0) == 2i8 as real);
    law_quotient_is_exact(w, 15, 100);
    law_half_turn_is_exact(w);
    let h: real = w.of(half_turn::<D>()->0);
    assert(h == 884279719003555 as real / 281474976710656 as real) by (nonlinear_arith)
        requires
            h * 281474976710656 as real == 884279719003555 as real,
    ;
}

/// A new regulator has the settings that it was given, and remembers what the number
/// type starts from, which is zero.
pub proof fn law_new_regulator_has_seen_nothing<T: Signed>(
    setpoint: T,
    k_p: T,
    k_i: T,
    k_d: T,
    circular: Option<T>,
    pid: PidRegulator<T>,
)
    requires
        call_ensures(PidRegulator::<T>::new, (setpoint, k_p, k_i, k_d, circular), pid),
    ensures
        pid.setpoint == setpoint,
        pid.k_p == k_p,
        pid.k_i == k_i,
        pid.k_d == k_d,
        pid.circular == circular,
        lawful_signed::<T>() ==> Some(pid.deviation_integral) == small::<T>(0) && Some(
            pid.previous_deviation,
        ) == small::<T>(0),
{
}

/// A new controller knows nothing: it flies manually, its controls are untouched, the
/// blimp is at altitude zero with heading zero and level, and neither its location nor
/// its acceleration is known. Its regulators have seen nothing.
pub proof fn law_new_controller_knows_nothing<
    S: Signed + Copy,
    D: Real + From<S>,
    M: Elementary<S, D>,
>(m: Measure<S>, w: Measure<D>, algo: BlimpMainAlgo<S, D, M>)
    requires
        m.exact_signed(),
        w.exact_real(),
        call_ensures(BlimpMainAlgo::<S, D, M>::new, (), algo),
    ensures
        ({
            let s = algo.inner_state;
            let c = s.controls;
            &&& s.curr_flight_mode == FlightMode::Manual
            &&& c.desired_flight_mode == FlightMode::Manual
            &&& m.of(c.throttle_main) == 0 as real
            &&& m.of(c.sideways) == 0 as real
            &&& m.of(c.elevation) == 0 as real
            &&& m.of(c.pitch) == 0 as real
            &&& m.of(c.roll) == 0 as real
            &&& m.of(c.yaw) == 0 as real
            &&& !c.nav_lights
            &&& w.of(s.altitude) == 0 as real
            &&& w.of(s.heading) == 0 as real
            &&& w.of(s.pitch_roll.0) == 0 as real
            &&& w.of(s.pitch_roll.1) == 0 as real
            &&& s.gps_location is None
            &&& s.acceleration is None
            &&& Some(algo.pids) == fresh_pids::<D>()
        }),
        forall|i: int|
            0 <= i < 4 ==> {
                &&& m.of(#[trigger] algo.inner_state.controls.throttle_split[i]) == 0 as real
                &&& algo.inner_state.controls.motors_toggles[i]
                &&& !algo.inner_state.controls.motors_reverse[i]
            },
{
    law_untouched_controls_ask_for_nothing(m, algo.inner_state.controls);
    lemma_sides(w);
}

/// Performing an action delivers it; a setting of a motor or a servo is then reported to
/// the ground, and nothing else is delivered.
pub proof fn law_performing_delivers<S: Signed + Copy, D: Real + From<S>, M: Elementary<S, D>>(
    action: BlimpAction<S, D>,
    delivered: Vec<BlimpAction<S, D>>,
)
    requires
        call_ensures(BlimpMainAlgo::<S, D, M>::perform_action, (action,), delivered),
    ensures
        delivered@ == (if action is SetMotor || action is SetServo {
            seq![
                action,
                BlimpAction::<S, D>::SendMsg(Box::new(MessageB2G::ForwardAction(action))),
            ]
        } else {
            seq![action]
        }),
{
}

// How a step ends.

/// Every step ends with the lights and the report. The lights blink with a frequency of
/// a half when they are on, and are set to minus one, which is off, when not. The report
/// names the mode, what is measured, and what is held: a heading in both stabilised
/// modes, and an altitude in the one that holds it.
pub proof fn law_step_ends_with_lights_and_report<S: Signed, D>(
    m: Measure<S>,
    s: BlimpInnerState<S, D>,
    pids: BlimpPids<D>,
)
    requires
        m.exact_signed(),
        m.divides(),
        lights::<S>(s.controls.nav_lights) is Some,
    ensures
        closing(s, pids).len() == 2,
        closing(s, pids)[0] matches BlimpAction::NavLights(light) && m.of(light) == (
        if s.controls.nav_lights {
            1 as real / 2 as real
        } else {
            -(1 as real)
        }),
        closing(s, pids)[1] == BlimpAction::<S, D>::SendMsg(
            Box::new(
                MessageB2G::BlimpState(
                    BlimpState {
                        flight_mode: s.curr_flight_mode,
                        altitude: s.altitude,
                        desired_altitude: match s.curr_flight_mode {
                            FlightMode::AltiAtti => Some(pids.altitude_pid.setpoint),
                            _ => None,
                        },
                        heading: s.heading,
                        desired_heading: match s.curr_flight_mode {
                            FlightMode::Manual => None,
                            _ => Some(pids.attitude_pid.setpoint),
                        },
                        pitch: s.pitch_roll.0,
                        roll: s.pitch_roll.1,
                    },
                ),
            ),
        ),
{
    lemma_sides(m);
    assert(m.of(small::<S>(2)->0) == 2i8 as real);
}

// When the controller can compute.

/// All operations of the number type are defined on all operands, as they are in
/// floating point.
pub open spec fn computes_always<T: Number>() -> bool {
    &&& forall|a: T, b: T| #[trigger] a.add_req(b)
    &&& forall|a: T, b: T| #[trigger] a.sub_req(b)
    &&& forall|a: T, b: T| #[trigger] a.mul_req(b)
    &&& forall|a: T, b: T| #[trigger] a.div_req(b)
    &&& forall|a: T, b: T| #[trigger] a.rem_req(b)
}

/// What is done about the first `n` motors in manual flight can then be computed.
proof fn lemma_manual_is_defined<S: Signed, D>(c: Controls<S>, n: nat)
    requires
        computes_always::<S>(),
    ensures
        manual_actions::<S, D>(c, n) is Some,
    decreases n,
{
    if n > 0 {
        lemma_manual_is_defined::<S, D>(c, (n - 1) as nat);
        assert(motor_actions::<S, D>(c, n - 1) is Some);
    }
}

/// With such numbers the controller accepts every event and every step, and a regulator
/// every measured value.
pub proof fn law_nothing_is_refused<S: Signed, D: Real + From<S>, M: Elementary<S, D>>(
    s: BlimpInnerState<S, D>,
    ev: BlimpEvent<S, D>,
    pids: BlimpPids<D>,
    delta_time: D,
    pid: PidRegulator<D>,
    current: D,
    force: Vector3<D>,
    i: int,
)
    requires
        computes_always::<S>(),
        computes_always::<D>(),
        forall|a: D| #[trigger] a.neg_req(),
    ensures
        fresh_pids::<D>() is Some,
        updated(pid, current, delta_time) is Some,
        event_defined::<S, D, M>(s, ev),
        thrust_defined::<S, D, M>(force, i),
        step_defined::<S, D, M>(s, pids, delta_time),
{
    assert forall|p: PidRegulator<D>, c: D| #[trigger] updated(p, c, delta_time) is Some by {
        assert(deviation(p.setpoint, c, p.circular) is Some);
    }
    assert forall|v: Vector3<D>, k: int| #[trigger] thrust_defined::<S, D, M>(v, k) by {}
    if s.controls.desired_flight_mode == FlightMode::Manual {
        lemma_manual_is_defined::<S, D>(s.controls, 4);
    } else {
        assert(steadied(s, pids, delta_time) is Some);
        let (_, corrections) = steadied(s, pids, delta_time)->0;
        assert forall|k: int| 0 <= k < 4 implies #[trigger] local_force(
            s.controls,
            corrections,
            k,
        ) is Some by {}
    }
}

} // verus!
