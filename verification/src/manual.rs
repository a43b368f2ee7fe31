//! Manual flight: the controls set motors and servos directly.
use crate::layout::{back, left, right, sign};
use crate::messages::{BlimpAction, Controls};
use crate::number::{clamp, clamped, lawful_signed, plus, small, times, Signed};
use vstd::prelude::*;

verus! {

/// The servo location, in degrees, for a deflection of which one is full.
pub open spec fn location<S: Signed>(deflection: Option<S>) -> Option<S> {
    times(clamped(deflection, small::<S>(-1)->0, small::<S>(1)->0), small(90))
}

/// Computes `location`.
pub fn servo_location<S: Signed>(deflection: S) -> (angle: S)
    requires
        lawful_signed::<S>(),
        location(Some(deflection)) is Some,
    ensures
        Some(angle) == location(Some(deflection)),
{
    clamp(deflection, S::from(-1i8), S::from(1i8)) * S::from(90i8)
}

/// How fast motor `i` turns: both throttles together, reversed where the motor is,
/// with more of it on the left the more the blimp is to yaw.
pub open spec fn speed<S: Signed>(c: Controls<S>, i: int) -> Option<S> {
    plus(
        times(
            plus(Some(c.throttle_main), Some(c.throttle_split[i])),
            small(if c.motors_reverse[i] { -1 } else { 1 }),
        ),
        times(Some(c.yaw), left(i)),
    )
}

/// How far the up-down servo of motor `i` turns downwards: with the elevation
/// everywhere, against the pitch in front and with it in the back, with the roll
/// on the left and against it on the right.
pub open spec fn downwards<S: Signed>(c: Controls<S>, i: int) -> Option<S> {
    plus(
        plus(Some(c.elevation), times(Some(c.pitch), back(i))),
        times(Some(c.roll), left(i)),
    )
}

/// Where the up-down servo of motor `i` is set. Those on the right are mounted the
/// other way round.
pub open spec fn up_down<S: Signed>(c: Controls<S>, i: int) -> Option<S> {
    location(times(downwards(c, i), left(i)))
}

/// Where the sideways servo of motor `i` is set: a quarter turn back from its
/// origin is straight ahead, and the roll turns the two sides against each other.
/// The yaw does not move these servos: straight ahead is the end of their range, so
/// that they could follow it one way only, and whether they have room to is open.
pub open spec fn sideways<S: Signed>(c: Controls<S>, i: int) -> Option<S> {
    location(plus(times(Some(c.roll), right(i)), small(-1)))
}

/// What is done about motor `i`: nothing if it is toggled off.
pub open spec fn motor_actions<S: Signed, D>(c: Controls<S>, i: int) -> Option<
    Seq<BlimpAction<S, D>>,
> {
    if !c.motors_toggles[i] {
        Some(seq![])
    } else {
        match (speed(c, i), up_down(c, i), sideways(c, i)) {
            (Some(v), Some(u), Some(s)) => Some(
                seq![
                    BlimpAction::SetMotor { motor: i as u8, speed: v },
                    BlimpAction::SetServo { servo: (2 * i) as u8, location: u },
                    BlimpAction::SetServo { servo: (2 * i + 1) as u8, location: s },
                ],
            ),
            _ => None,
        }
    }
}

/// What is done about the first `n` motors, in their order.
pub open spec fn manual_actions<S: Signed, D>(c: Controls<S>, n: nat) -> Option<
    Seq<BlimpAction<S, D>>,
>
    decreases n,
{
    if n == 0 {
        Some(seq![])
    } else {
        match (
            manual_actions::<S, D>(c, (n - 1) as nat),
            motor_actions::<S, D>(c, n - 1),
        ) {
            (Some(before), Some(last)) => Some(before + last),
            _ => None,
        }
    }
}

/// What can be computed for all motors can be computed for the first few.
proof fn lemma_manual_prefix<S: Signed, D>(c: Controls<S>, m: nat, n: nat)
    requires
        m <= n,
        manual_actions::<S, D>(c, n) is Some,
    ensures
        manual_actions::<S, D>(c, m) is Some,
    decreases n,
{
    if m < n {
        lemma_manual_prefix::<S, D>(c, m, (n - 1) as nat);
    }
}

/// Turns the controls into settings of the motors and their servos.
pub fn manual<S: Signed + Copy, D>(controls: &Controls<S>) -> (actions: Vec<BlimpAction<S, D>>)
    requires
        lawful_signed::<S>(),
        manual_actions::<S, D>(*controls, 4) is Some,
    ensures
        Some(actions@) == manual_actions::<S, D>(*controls, 4),
{
    let mut actions: Vec<BlimpAction<S, D>> = Vec::new();
    let mut i: u8 = 0;
    while i < 4
        invariant
            i <= 4,
            lawful_signed::<S>(),
            manual_actions::<S, D>(*controls, 4) is Some,
            Some(actions@) == manual_actions::<S, D>(*controls, i as nat),
        decreases 4 - i,
    {
        proof {
            lemma_manual_prefix::<S, D>(*controls, (i + 1) as nat, 4);
        }
        let ghost before = actions@;
        let k: usize = i as usize;
        if controls.motors_toggles[k] {
            let throttle = controls.throttle_main + controls.throttle_split[k];
            let speed = throttle * sign(!controls.motors_reverse[k]) + controls.yaw * sign(
                i % 2 == 0,
            );
            actions.push(BlimpAction::SetMotor { motor: i, speed });

            let down = controls.elevation + controls.pitch * sign(i >= 2) + controls.roll * sign(
                i % 2 == 0,
            );
            let location = servo_location(down * sign(i % 2 == 0));
            actions.push(BlimpAction::SetServo { servo: 2 * i, location });

            let aside = controls.roll * sign(i % 2 != 0) + S::from(-1i8);
            let location = servo_location(aside);
            actions.push(BlimpAction::SetServo { servo: 2 * i + 1, location });
        }
        assert(actions@ =~= before + motor_actions::<S, D>(*controls, i as int)->0);
        i = i + 1;
    }
    actions
}

} // verus!
