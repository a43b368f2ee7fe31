//! Laws of the handling of events and of the delivery of actions.
use crate::elementary::Elementary;
use crate::messages::{BlimpAction, BlimpEvent, Controls, MessageB2G, MessageG2B, SensorType};
use crate::number::Real;
use crate::obsw_algo::{deliveries, event_learnt, event_reactions, BlimpInnerState};
use crate::obsw_interface::Reaction;
use crate::sensors::tilted;
use vstd::prelude::*;

verus! {

/// A ping is answered by a pong of the same number and by nothing else, and it
/// teaches nothing.
pub proof fn law_ping_is_answered<S, D: Real, M: Elementary<S, D>>(
    pre: BlimpInnerState<S, D>,
    id: u32,
    post: BlimpInnerState<S, D>,
)
    requires
        event_learnt::<S, D, M>(pre, BlimpEvent::GetMsg(MessageG2B::Ping(id)), post),
    ensures
        post == pre,
        event_reactions::<S, D>(BlimpEvent::GetMsg(MessageG2B::Ping(id))) == seq![
            Reaction::<BlimpEvent<S, D>, BlimpAction<S, D>>::Perform(
                BlimpAction::SendMsg(Box::new(MessageB2G::Pong(id))),
            ),
        ],
{
}

/// A pong is taken in without a consequence.
pub proof fn law_pong_is_ignored<S, D: Real, M: Elementary<S, D>>(
    pre: BlimpInnerState<S, D>,
    id: u32,
    post: BlimpInnerState<S, D>,
)
    requires
        event_learnt::<S, D, M>(pre, BlimpEvent::GetMsg(MessageG2B::Pong(id)), post),
    ensures
        post == pre,
        event_reactions::<S, D>(BlimpEvent::GetMsg(MessageG2B::Pong(id))).len() == 0,
{
}

/// Controls that come from the ground take the same effect as those that come
/// directly: the event that they schedule is the direct one, and after it the
/// controls are the new ones and all else is as before.
pub proof fn law_controls_from_the_ground<S, D: Real, M: Elementary<S, D>>(
    pre: BlimpInnerState<S, D>,
    controls: Controls<S>,
    between: BlimpInnerState<S, D>,
    post: BlimpInnerState<S, D>,
)
    requires
        event_learnt::<S, D, M>(pre, BlimpEvent::GetMsg(MessageG2B::Control(controls)), between),
        event_learnt::<S, D, M>(between, BlimpEvent::Control(controls), post),
    ensures
        event_reactions::<S, D>(BlimpEvent::GetMsg(MessageG2B::Control(controls))) == seq![
            Reaction::<BlimpEvent<S, D>, BlimpAction<S, D>>::Schedule(
                BlimpEvent::Control(controls),
            ),
        ],
        event_reactions::<S, D>(BlimpEvent::Control(controls)).len() == 0,
        event_learnt::<S, D, M>(pre, BlimpEvent::Control(controls), post),
        post == (BlimpInnerState { controls, ..pre }),
{
}

/// Whatever a sensor measures goes to the ground as it is, and that is all that is
/// done about it.
pub proof fn law_measurements_are_forwarded<S, D>(sensor: SensorType, value: D)
    ensures
        event_reactions::<S, D>(BlimpEvent::SensorDataF64(sensor, value)) == seq![
            Reaction::<BlimpEvent<S, D>, BlimpAction<S, D>>::Perform(
                BlimpAction::SendMsg(
                    Box::new(MessageB2G::ForwardEvent(BlimpEvent::SensorDataF64(sensor, value))),
                ),
            ),
        ],
{
}

/// No event changes the flight mode, and none but controls changes the controls.
pub proof fn law_events_keep_mode_and_controls<S, D: Real, M: Elementary<S, D>>(
    pre: BlimpInnerState<S, D>,
    ev: BlimpEvent<S, D>,
    post: BlimpInnerState<S, D>,
)
    requires
        event_learnt::<S, D, M>(pre, ev, post),
    ensures
        post.curr_flight_mode == pre.curr_flight_mode,
        !(ev is Control) ==> post.controls == pre.controls,
{
}

/// Each measured quantity changes what it is about and nothing else. What the
/// gyroscope and the altitude of the satellite fix say is not used.
pub proof fn law_sensors_do_not_interfere<S, D: Real, M: Elementary<S, D>>(
    pre: BlimpInnerState<S, D>,
    sensor: SensorType,
    value: D,
    post: BlimpInnerState<S, D>,
)
    requires
        event_learnt::<S, D, M>(pre, BlimpEvent::SensorDataF64(sensor, value), post),
    ensures
        !(sensor is Barometer) ==> post.altitude == pre.altitude,
        !(sensor is MagnetometerHeading) ==> post.heading == pre.heading,
        !(sensor is AccelerometerZ) ==> post.pitch_roll == pre.pitch_roll,
        !(sensor is AccelerometerX || sensor is AccelerometerY || sensor is AccelerometerZ)
            ==> post.acceleration == pre.acceleration,
        !(sensor is GPSLatitude || sensor is GPSLongitude) ==> post.gps_location
            == pre.gps_location,
        sensor is GyroscopeX || sensor is GyroscopeY || sensor is GyroscopeZ
            || sensor is GPSAltitude ==> post == pre,
{
}

/// Latitude and longitude may come in either order: once both have come, the
/// location is made of the two.
pub proof fn law_location_in_either_order<S, D: Real, M: Elementary<S, D>>(
    pre: BlimpInnerState<S, D>,
    latitude: D,
    longitude: D,
    first: BlimpInnerState<S, D>,
    post: BlimpInnerState<S, D>,
)
    requires
        ({
            let north = BlimpEvent::SensorDataF64(SensorType::GPSLatitude, latitude);
            let east = BlimpEvent::SensorDataF64(SensorType::GPSLongitude, longitude);
            ||| event_learnt::<S, D, M>(pre, north, first) && event_learnt::<S, D, M>(
                first,
                east,
                post,
            )
            ||| event_learnt::<S, D, M>(pre, east, first) && event_learnt::<S, D, M>(
                first,
                north,
                post,
            )
        }),
    ensures
        post == (BlimpInnerState { gps_location: Some((latitude, longitude)), ..pre }),
{
}

/// Once all three components of the acceleration have come, the upward one last,
/// pitch and roll follow from all three.
pub proof fn law_tilt_uses_all_components<S, D: Real, M: Elementary<S, D>>(
    pre: BlimpInnerState<S, D>,
    acc: (D, D, D),
    first: BlimpInnerState<S, D>,
    second: BlimpInnerState<S, D>,
    post: BlimpInnerState<S, D>,
)
    requires
        ({
            let x = BlimpEvent::SensorDataF64(SensorType::AccelerometerX, acc.0);
            let y = BlimpEvent::SensorDataF64(SensorType::AccelerometerY, acc.1);
            ||| event_learnt::<S, D, M>(pre, x, first) && event_learnt::<S, D, M>(first, y, second)
            ||| event_learnt::<S, D, M>(pre, y, first) && event_learnt::<S, D, M>(first, x, second)
        }),
        event_learnt::<S, D, M>(
            second,
            BlimpEvent::SensorDataF64(SensorType::AccelerometerZ, acc.2),
            post,
        ),
    ensures
        post.acceleration == Some(acc),
        tilted::<S, D, M>(acc, post.pitch_roll),
{
}

/// Settings of motors and servos are delivered and then reported to the ground;
/// everything else is delivered alone, so that reports are not reported in turn.
pub proof fn law_reports_are_not_reported<S, D>(action: BlimpAction<S, D>)
    ensures
        deliveries(action)[0] == action,
        action is SetMotor || action is SetServo <==> deliveries(action).len() == 2,
        action is SendMsg || action is NavLights <==> deliveries(action).len() == 1,
        forall|k: int|
            1 <= k < deliveries(action).len() ==> {
                &&& #[trigger] deliveries(action)[k] == BlimpAction::<S, D>::SendMsg(
                    Box::new(MessageB2G::ForwardAction(action)),
                )
                &&& deliveries(deliveries(action)[k]) == seq![deliveries(action)[k]]
            },
{
}

} // verus!
