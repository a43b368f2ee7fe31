//! Laws of the control step.
use crate::attitude::BlimpPids;
use crate::elementary::Elementary;
use crate::manual::{manual_actions, motor_actions, sideways, speed, up_down};
use crate::messages::{BlimpAction, Controls, FlightMode, MessageB2G};
use crate::number::{converted, plus, quotient, times, Real, Signed};
use crate::obsw_algo::{
    closing, flown, forces, fresh_pids, report, steadied, zero, BlimpInnerState,
};
use crate::pid::PidRegulator;
use crate::thrust::{all_setting_actions, setting_actions, thrusts, turned, Setting};
use vstd::prelude::*;

verus! {

// Regulators over the steps.

/// The settings of a regulator that the controller never changes.
pub open spec fn same_gains<D>(a: PidRegulator<D>, b: PidRegulator<D>) -> bool {
    &&& a.k_p == b.k_p
    &&& a.k_i == b.k_i
    &&& a.k_d == b.k_d
    &&& a.circular == b.circular
}

/// What holds of the regulators whenever the controller is not at work: their gains
/// and circles are the ones they were made with, and the blimp is to be level.
pub open spec fn sound<D: Real>(pids: BlimpPids<D>) -> bool {
    fresh_pids::<D>() matches Some(fresh) && {
        &&& same_gains(pids.attitude_pid, fresh.attitude_pid)
        &&& same_gains(pids.altitude_pid, fresh.altitude_pid)
        &&& same_gains(pids.pitch_pid, fresh.pitch_pid)
        &&& same_gains(pids.roll_pid, fresh.roll_pid)
        &&& pids.pitch_pid.setpoint == zero::<D>()
        &&& pids.roll_pid.setpoint == zero::<D>()
    }
}

/// The regulators are sound at first, and every step leaves them sound.
pub proof fn law_regulators_stay_sound<S: Signed, D: Real + From<S>, M: Elementary<S, D>>(
    s: BlimpInnerState<S, D>,
    pids: BlimpPids<D>,
    delta_time: D,
    post: BlimpPids<D>,
    moves: Seq<BlimpAction<S, D>>,
)
    requires
        fresh_pids::<D>() is Some,
    ensures
        sound(fresh_pids::<D>()->0),
        sound(pids) && flown::<S, D, M>(s, pids, delta_time, post, moves) ==> sound(post),
{
}

/// Manual flight leaves all regulators alone, and flight that does not hold the
/// altitude leaves the one of the altitude alone.
pub proof fn law_idle_regulators_rest<S: Signed, D: Real + From<S>, M: Elementary<S, D>>(
    s: BlimpInnerState<S, D>,
    pids: BlimpPids<D>,
    delta_time: D,
    post: BlimpPids<D>,
    moves: Seq<BlimpAction<S, D>>,
)
    requires
        flown::<S, D, M>(s, pids, delta_time, post, moves),
    ensures
        s.controls.desired_flight_mode == FlightMode::Manual ==> post == pids,
        s.controls.desired_flight_mode == FlightMode::Atti ==> post.altitude_pid
            == pids.altitude_pid,
{
}

/// A setpoint moved by `n / d` times `rate` per unit of time.
pub open spec fn drifted<D: Real>(
    setpoint: D,
    n: int,
    d: int,
    rate: D,
    delta_time: D,
) -> Option<D> {
    plus(Some(setpoint), times(times(quotient(n, d), Some(rate)), Some(delta_time)))
}

/// The heading that is held persists from step to step: it is the one that the
/// blimp had when it entered the mode, and after that the one of the step before,
/// and each step moves it with the yaw control, a quarter of it per unit of time.
pub proof fn law_held_heading_persists<S: Signed, D: Real + From<S>, M: Elementary<S, D>>(
    s: BlimpInnerState<S, D>,
    pids: BlimpPids<D>,
    delta_time: D,
    post: BlimpPids<D>,
    moves: Seq<BlimpAction<S, D>>,
)
    requires
        flown::<S, D, M>(s, pids, delta_time, post, moves),
        s.controls.desired_flight_mode != FlightMode::Manual,
    ensures
        ({
            let start = if s.curr_flight_mode == s.controls.desired_flight_mode {
                pids.attitude_pid.setpoint
            } else {
                s.heading
            };
            drifted(
                start,
                1,
                4,
                converted::<S, D>(s.controls.yaw),
                delta_time,
            ) == Some(post.attitude_pid.setpoint)
        }),
{
}

/// The altitude that is held persists in the same way, and moves with the
/// elevation control, half of it per unit of time.
pub proof fn law_held_altitude_persists<S: Signed, D: Real + From<S>, M: Elementary<S, D>>(
    s: BlimpInnerState<S, D>,
    pids: BlimpPids<D>,
    delta_time: D,
    post: BlimpPids<D>,
    moves: Seq<BlimpAction<S, D>>,
)
    requires
        flown::<S, D, M>(s, pids, delta_time, post, moves),
        s.controls.desired_flight_mode == FlightMode::AltiAtti,
    ensures
        ({
            let start = if s.curr_flight_mode == FlightMode::AltiAtti {
                pids.altitude_pid.setpoint
            } else {
                s.altitude
            };
            drifted(
                start,
                1,
                2,
                converted::<S, D>(s.controls.elevation),
                delta_time,
            ) == Some(post.altitude_pid.setpoint)
        }),
{
}

/// The report names a desired heading in the stabilised modes and a desired
/// altitude where the altitude is held, and not otherwise; they are the setpoints.
pub proof fn law_report_names_what_is_held<S, D>(s: BlimpInnerState<S, D>, pids: BlimpPids<D>)
    ensures
        report(s, pids).flight_mode == s.curr_flight_mode,
        report(s, pids).desired_heading is Some <==> (s.curr_flight_mode == FlightMode::Atti
            || s.curr_flight_mode == FlightMode::AltiAtti),
        report(s, pids).desired_altitude is Some <==> s.curr_flight_mode == FlightMode::AltiAtti,
        report(s, pids).desired_heading matches Some(heading) ==> heading
            == pids.attitude_pid.setpoint,
        report(s, pids).desired_altitude matches Some(altitude) ==> altitude
            == pids.altitude_pid.setpoint,
{
}

// Which motors and servos a step sets.

/// `action` sets motor `i` or one of its two servos.
pub open spec fn sets<S, D>(action: BlimpAction<S, D>, i: int) -> bool {
    match action {
        BlimpAction::SetMotor { motor, .. } => motor == i,
        BlimpAction::SetServo { servo, .. } => servo == 2 * i || servo == 2 * i + 1,
        _ => false,
    }
}

/// In manual flight, what is done about the first `n` motors sets no other motor,
/// and none that is toggled off.
proof fn lemma_manual_sets<S: Signed, D>(c: Controls<S>, n: nat, i: int)
    requires
        n <= 4,
        manual_actions::<S, D>(c, n) is Some,
        0 <= i,
        i < n ==> !c.motors_toggles[i],
    ensures
        forall|k: int|
            0 <= k < manual_actions::<S, D>(c, n)->0.len() ==> !sets(
                #[trigger] manual_actions::<S, D>(c, n)->0[k],
                i,
            ),
    decreases n,
{
    if n > 0 {
        let m: nat = (n - 1) as nat;
        lemma_manual_sets::<S, D>(c, m, i);
        let before = manual_actions::<S, D>(c, m)->0;
        let last = motor_actions::<S, D>(c, m as int)->0;
        assert forall|k: int| 0 <= k < (before + last).len() implies !sets(
            #[trigger] (before + last)[k],
            i,
        ) by {
            if k < before.len() {
                assert((before + last)[k] == before[k]);
            } else {
                assert((before + last)[k] == last[k - before.len()]);
            }
        }
    }
}

/// In manual flight a motor that is toggled off is not set, nor are its servos.
pub proof fn law_motors_off_are_left_alone<S: Signed, D>(c: Controls<S>, i: int, k: int)
    requires
        manual_actions::<S, D>(c, 4) is Some,
        0 <= i < 4,
        !c.motors_toggles[i],
        0 <= k < manual_actions::<S, D>(c, 4)->0.len(),
    ensures
        !sets(manual_actions::<S, D>(c, 4)->0[k], i),
{
    lemma_manual_sets::<S, D>(c, 4, i);
}

/// Where what is done about motor `i` stands among what is done about the first
/// `n` motors: after what is done about the motors before it.
proof fn lemma_manual_position<S: Signed, D>(c: Controls<S>, n: nat, i: int)
    requires
        manual_actions::<S, D>(c, n) is Some,
        0 <= i < n,
    ensures
        ({
            let all = manual_actions::<S, D>(c, n)->0;
            let start = manual_actions::<S, D>(c, i as nat)->0.len();
            let own = motor_actions::<S, D>(c, i)->0;
            &&& manual_actions::<S, D>(c, i as nat) is Some
            &&& motor_actions::<S, D>(c, i) is Some
            &&& start + own.len() <= all.len()
            &&& all.subrange(start as int, (start + own.len()) as int) == own
        }),
    decreases n,
{
    let m: nat = (n - 1) as nat;
    let before = manual_actions::<S, D>(c, m)->0;
    let last = motor_actions::<S, D>(c, m as int)->0;
    let start = manual_actions::<S, D>(c, i as nat)->0.len() as int;
    let own = motor_actions::<S, D>(c, i)->0;
    if i < m {
        lemma_manual_position::<S, D>(c, m, i);
        assert((before + last).subrange(start, start + own.len()) =~= before.subrange(
            start,
            start + own.len(),
        ));
    } else {
        assert((before + last).subrange(start, start + own.len()) =~= last);
    }
}

/// In manual flight a motor that is toggled on gets its speed, and then its up-down
/// and its sideways servo get their locations.
pub proof fn law_motors_on_are_set<S: Signed, D>(c: Controls<S>, i: int)
    requires
        manual_actions::<S, D>(c, 4) is Some,
        0 <= i < 4,
        c.motors_toggles[i],
    ensures
        speed(c, i) is Some,
        up_down(c, i) is Some,
        sideways(c, i) is Some,
        exists|start: int|
            {
                &&& 0 <= start <= manual_actions::<S, D>(c, 4)->0.len() - 3
                &&& #[trigger] manual_actions::<S, D>(c, 4)->0.subrange(start, start + 3)
                    == seq![
                    BlimpAction::<S, D>::SetMotor { motor: i as u8, speed: speed(c, i)->0 },
                    BlimpAction::<S, D>::SetServo {
                        servo: (2 * i) as u8,
                        location: up_down(c, i)->0,
                    },
                    BlimpAction::<S, D>::SetServo {
                        servo: (2 * i + 1) as u8,
                        location: sideways(c, i)->0,
                    },
                ]
            },
{
    lemma_manual_position::<S, D>(c, 4, i);
    let start = manual_actions::<S, D>(c, i as nat)->0.len() as int;
    assert(manual_actions::<S, D>(c, 4)->0.subrange(start, start + 3) == motor_actions::<S, D>(
        c,
        i,
    )->0);
}

/// What brings the motors to their settings, motor by motor.
pub proof fn lemma_setting_positions<S, D>(settings: Seq<Setting<S>>, i: int)
    requires
        0 <= i < settings.len(),
    ensures
        all_setting_actions::<S, D>(settings).len() == 3 * settings.len(),
        all_setting_actions::<S, D>(settings).subrange(3 * i, 3 * i + 3) == setting_actions::<S, D>(
            i,
            settings[i],
        ),
    decreases settings.len(),
{
    let shorter = settings.drop_last();
    let before = all_setting_actions::<S, D>(shorter);
    let last = setting_actions::<S, D>(settings.len() - 1, settings.last());
    if shorter.len() > 0 {
        lemma_setting_positions::<S, D>(shorter, if i < shorter.len() { i } else { 0 });
    }
    if i < shorter.len() {
        assert((before + last).subrange(3 * i, 3 * i + 3) =~= before.subrange(3 * i, 3 * i + 3));
    } else {
        assert((before + last).subrange(3 * i, 3 * i + 3) =~= last);
    }
}

/// In the stabilised modes every motor and its servos are set, whether it is
/// toggled on or not: the servos towards the force wanted of the motor, and the
/// speed to the size of that force.
pub proof fn law_stabilised_flight_sets_every_motor<
    S: Signed,
    D: Real + From<S>,
    M: Elementary<S, D>,
>(
    s: BlimpInnerState<S, D>,
    pids: BlimpPids<D>,
    delta_time: D,
    post: BlimpPids<D>,
    moves: Seq<BlimpAction<S, D>>,
    i: int,
)
    requires
        flown::<S, D, M>(s, pids, delta_time, post, moves),
        s.controls.desired_flight_mode != FlightMode::Manual,
        0 <= i < 4,
    ensures
        moves.len() == 12,
        steadied(s, pids, delta_time) matches Some((_, corrections)) && exists|setting: Setting<S>|
            {
                &&& #[trigger] turned::<S, D, M>(
                    forces(s.controls, corrections)[i],
                    i,
                    setting,
                )
                &&& moves.subrange(3 * i, 3 * i + 3) == setting_actions::<S, D>(i, setting)
            },
{
    let (_, corrections) = steadied(s, pids, delta_time)->0;
    let f = forces(s.controls, corrections);
    assert(thrusts::<S, D, M>(f, moves));
    let settings = choose|settings: Seq<Setting<S>>|
        {
            &&& settings.len() == f.len()
            &&& forall|i: int|
                0 <= i < f.len() ==> turned::<S, D, M>(f[i], i, #[trigger] settings[i])
            &&& moves == #[trigger] all_setting_actions::<S, D>(settings)
        };
    lemma_setting_positions::<S, D>(settings, i);
    assert(turned::<S, D, M>(f[i], i, settings[i]));
}

/// `action` sets one of the four motors or one of their eight servos.
pub open spec fn moves_the_blimp<S, D>(action: BlimpAction<S, D>) -> bool {
    match action {
        BlimpAction::SetMotor { motor, .. } => motor < 4,
        BlimpAction::SetServo { servo, .. } => servo < 8,
        _ => false,
    }
}

/// What is done about the first motors in manual flight only moves the blimp.
proof fn lemma_manual_moves<S: Signed, D>(c: Controls<S>, n: nat)
    requires
        n <= 4,
        manual_actions::<S, D>(c, n) is Some,
    ensures
        manual_actions::<S, D>(c, n)->0.len() <= 3 * n,
        forall|k: int|
            0 <= k < manual_actions::<S, D>(c, n)->0.len() ==> moves_the_blimp(
                #[trigger] manual_actions::<S, D>(c, n)->0[k],
            ),
    decreases n,
{
    if n > 0 {
        let m: nat = (n - 1) as nat;
        lemma_manual_moves::<S, D>(c, m);
        let before = manual_actions::<S, D>(c, m)->0;
        let last = motor_actions::<S, D>(c, m as int)->0;
        assert forall|k: int| 0 <= k < (before + last).len() implies moves_the_blimp(
            #[trigger] (before + last)[k],
        ) by {
            if k < before.len() {
                assert((before + last)[k] == before[k]);
            } else {
                assert((before + last)[k] == last[k - before.len()]);
            }
        }
    }
}

/// A step first moves the blimp, with at most twelve settings of its motors and
/// servos; then it sets the lights once, and last it reports once.
pub proof fn law_step_moves_then_reports<S: Signed, D: Real + From<S>, M: Elementary<S, D>>(
    s: BlimpInnerState<S, D>,
    pids: BlimpPids<D>,
    delta_time: D,
    post_state: BlimpInnerState<S, D>,
    post: BlimpPids<D>,
    moves: Seq<BlimpAction<S, D>>,
)
    requires
        flown::<S, D, M>(s, pids, delta_time, post, moves),
    ensures
        ({
            let actions = moves + closing(post_state, post);
            let n = actions.len();
            &&& 2 <= n <= 14
            &&& forall|k: int| 0 <= k < n - 2 ==> moves_the_blimp(#[trigger] actions[k])
            &&& actions[n - 2] is NavLights
            &&& actions[n - 1] == BlimpAction::<S, D>::SendMsg(
                Box::new(MessageB2G::BlimpState(report(post_state, post))),
            )
        }),
{
    let actions = moves + closing(post_state, post);
    if s.controls.desired_flight_mode == FlightMode::Manual {
        lemma_manual_moves::<S, D>(s.controls, 4);
    } else {
        law_stabilised_flight_sets_every_motor::<S, D, M>(s, pids, delta_time, post, moves, 0);
        assert forall|k: int| 0 <= k < 12 implies moves_the_blimp(#[trigger] moves[k]) by {
            let i: int = k / 3;
            law_stabilised_flight_sets_every_motor::<S, D, M>(s, pids, delta_time, post, moves, i);
            assert(moves[k] == moves.subrange(3 * i, 3 * i + 3)[k - 3 * i]);
        }
    }
    assert forall|k: int| 0 <= k < actions.len() - 2 implies moves_the_blimp(
        #[trigger] actions[k],
    ) by {
        assert(actions[k] == moves[k]);
    }
}

} // verus!
