//! Laws of manual flight: the values that the controls set.
use crate::attitude::BlimpPids;
use crate::elementary::Elementary;
use crate::laws::integers::Reading;
use crate::laws::reals::{lemma_sides, Measure};
use crate::laws::steering::{in_front, lemma_signs, on_the_left};
use crate::layout::{left, right};
use crate::manual::{downwards, location, manual_actions, motor_actions, sideways, speed, up_down};
use crate::messages::{BlimpAction, Controls, FlightMode};
use crate::number::{plus, small, times, Real, Signed};
use crate::obsw_algo::{flown, BlimpInnerState};
use vstd::prelude::*;

verus! {

/// A motor's speed is both its throttles together, the other way round where the motor
/// is reversed, with the yaw added on the left and taken away on the right.
pub proof fn law_speed_is_throttle_and_yaw<S: Signed>(m: Measure<S>, c: Controls<S>, i: int)
    requires
        m.exact_signed(),
        0 <= i < 4,
        speed(c, i) is Some,
    ensures
        m.of(speed(c, i)->0) == (if c.motors_reverse[i] {
            -(m.of(c.throttle_main) + m.of(c.throttle_split[i]))
        } else {
            m.of(c.throttle_main) + m.of(c.throttle_split[i])
        }) + (if on_the_left(i) { m.of(c.yaw) } else { -m.of(c.yaw) }),
{
    lemma_sides(m);
}

/// The same, read as integers.
pub proof fn law_integer_speed_is_throttle_and_yaw<S: Signed>(
    r: Reading<S>,
    c: Controls<S>,
    i: int,
)
    requires
        r.exact_signed(),
        0 <= i < 4,
        speed(c, i) is Some,
    ensures
        r.of(speed(c, i)->0) == (if c.motors_reverse[i] {
            -(r.of(c.throttle_main) + r.of(c.throttle_split[i]))
        } else {
            r.of(c.throttle_main) + r.of(c.throttle_split[i])
        }) + (if on_the_left(i) { r.of(c.yaw) } else { -r.of(c.yaw) }),
{
    lemma_signs(r);
}

/// The split throttle steers motors one by one: what it gives to or takes from motor
/// `i` changes that motor's speed by as much, against its direction where it is
/// reversed, and changes the speed of no other motor.
pub proof fn law_split_throttle_steers_one_motor<S: Signed>(
    r: Reading<S>,
    c: Controls<S>,
    throttle_split: [S; 4],
    i: int,
    j: int,
)
    requires
        r.exact_signed(),
        0 <= i < 4,
        0 <= j < 4,
        forall|k: int| 0 <= k < 4 && k != i ==> throttle_split[k] == #[trigger] c.throttle_split[k],
        speed(c, i) is Some,
        speed(Controls { throttle_split, ..c }, i) is Some,
    ensures
        ({
            let more = r.of(throttle_split[i]) - r.of(c.throttle_split[i]);
            let new = Controls { throttle_split, ..c };
            &&& r.of(speed(new, i)->0) - r.of(speed(c, i)->0) == (if c.motors_reverse[i] {
                -more
            } else {
                more
            })
            &&& j != i ==> speed(new, j) == speed(c, j)
        }),
{
    lemma_signs(r);
    assert(j != i ==> throttle_split[j] == c.throttle_split[j]);
}

/// `x` held between minus one and one.
pub open spec fn held(x: real) -> real {
    if x < -(1 as real) {
        -(1 as real)
    } else if x > 1 as real {
        1 as real
    } else {
        x
    }
}

/// A full deflection is a quarter turn.
proof fn lemma_location_value<S: Signed>(m: Measure<S>, deflection: S)
    requires
        m.exact_signed(),
        location(Some(deflection)) is Some,
    ensures
        m.of(location(Some(deflection))->0) == held(m.of(deflection)) * 90 as real,
{
    lemma_sides(m);
    assert(m.of(small::<S>(90)->0) == 90i8 as real);
}

/// The up-down servo of a motor is turned down by the elevation, less the pitch in
/// front and with it in the back, with the roll on the left and less it on the right;
/// ninety degrees for each, and no more than that in all. On the right it counts the
/// other way.
pub proof fn law_up_down_servo_adds_up_the_sticks<S: Signed>(
    m: Measure<S>,
    c: Controls<S>,
    i: int,
)
    requires
        m.exact_signed(),
        0 <= i < 4,
        up_down(c, i) is Some,
    ensures
        ({
            let down = m.of(c.elevation) + (if in_front(i) {
                -m.of(c.pitch)
            } else {
                m.of(c.pitch)
            }) + (if on_the_left(i) { m.of(c.roll) } else { -m.of(c.roll) });
            m.of(up_down(c, i)->0) == held(if on_the_left(i) { down } else { -down }) * 90 as real
        }),
{
    lemma_sides(m);
    lemma_location_value(m, times(downwards(c, i), left(i))->0);
}

/// The sideways servo of a motor is a quarter turn back from its origin, turned by the
/// roll, forth on the right and further back on the left; ninety degrees for the whole
/// roll, and no more than that from the origin.
pub proof fn law_sideways_servo_adds_the_roll<S: Signed>(m: Measure<S>, c: Controls<S>, i: int)
    requires
        m.exact_signed(),
        0 <= i < 4,
        sideways(c, i) is Some,
    ensures
        m.of(sideways(c, i)->0) == held(
            (if on_the_left(i) { -m.of(c.roll) } else { m.of(c.roll) }) - 1 as real,
        ) * 90 as real,
{
    lemma_sides(m);
    lemma_location_value(m, plus(times(Some(c.roll), right(i)), small(-1))->0);
}

/// How many of the first `n` motors are toggled on.
pub open spec fn motors_on<S>(c: Controls<S>, n: nat) -> nat
    decreases n,
{
    if n == 0 {
        0
    } else {
        motors_on(c, (n - 1) as nat) + (if c.motors_toggles[n - 1] { 1nat } else { 0nat })
    }
}

/// What is done about motor `i` stands after what is done about those before it.
proof fn lemma_manual_places<S: Signed, D>(c: Controls<S>, n: nat, i: int)
    requires
        manual_actions::<S, D>(c, n) is Some,
    ensures
        manual_actions::<S, D>(c, n)->0.len() == 3 * motors_on(c, n),
        0 <= i < n && c.motors_toggles[i] ==> {
            let k = 3 * motors_on(c, i as nat) as int;
            let all = manual_actions::<S, D>(c, n)->0;
            let own = motor_actions::<S, D>(c, i);
            &&& k + 3 <= all.len()
            &&& own is Some
            &&& all[k] == own->0[0]
            &&& all[k + 1] == own->0[1]
            &&& all[k + 2] == own->0[2]
        },
    decreases n,
{
    if n > 0 {
        lemma_manual_places::<S, D>(c, (n - 1) as nat, i);
    }
}

/// A manual step sets the motors that are toggled on, in their order, and no other:
/// first the motor's speed, then its up-down and then its sideways servo, with the
/// values that follow from the controls.
pub proof fn law_manual_step_sets_the_values<
    S: Signed,
    D: Real + From<S>,
    M: Elementary<S, D>,
>(
    m: Measure<S>,
    s: BlimpInnerState<S, D>,
    pids: BlimpPids<D>,
    delta_time: D,
    post: BlimpPids<D>,
    moves: Seq<BlimpAction<S, D>>,
    i: int,
)
    requires
        m.exact_signed(),
        s.controls.desired_flight_mode == FlightMode::Manual,
        flown::<S, D, M>(s, pids, delta_time, post, moves),
        0 <= i < 4,
    ensures
        moves.len() == 3 * motors_on(s.controls, 4),
        s.controls.motors_toggles[i] ==> {
            let c = s.controls;
            let k = 3 * motors_on(c, i as nat) as int;
            let throttle = m.of(c.throttle_main) + m.of(c.throttle_split[i]);
            let down = m.of(c.elevation) + (if in_front(i) {
                -m.of(c.pitch)
            } else {
                m.of(c.pitch)
            }) + (if on_the_left(i) { m.of(c.roll) } else { -m.of(c.roll) });
            let aside = (if on_the_left(i) { -m.of(c.roll) } else { m.of(c.roll) }) - 1 as real;
            &&& moves[k] matches BlimpAction::SetMotor { motor, speed } && motor == i
                && m.of(speed) == (if c.motors_reverse[i] { -throttle } else { throttle }) + (
            if on_the_left(i) {
                m.of(c.yaw)
            } else {
                -m.of(c.yaw)
            })
            &&& moves[k + 1] matches BlimpAction::SetServo { servo, location } && servo == 2 * i
                && m.of(location) == held(if on_the_left(i) { down } else { -down }) * 90 as real
            &&& moves[k + 2] matches BlimpAction::SetServo { servo, location } && servo == 2 * i + 1
                && m.of(location) == held(aside) * 90 as real
        },
{
    let c = s.controls;
    lemma_manual_places::<S, D>(c, 4, i);
    if c.motors_toggles[i] {
        law_speed_is_throttle_and_yaw(m, c, i);
        law_up_down_servo_adds_up_the_sticks(m, c, i);
        law_sideways_servo_adds_the_roll(m, c, i);
    }
}

} // verus!
