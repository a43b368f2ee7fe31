//! The flight controller: what it knows, how events change that, and what it does
//! in every control step.
use crate::attitude::{
    capture, captured, compute_main_force, compute_rotating_force, local_force, main_force,
    regulate, regulated, rotating_force, BlimpPids, Corrections, Measurements,
};
use crate::elementary::Elementary;
use crate::manual::{manual, manual_actions};
use crate::messages::{
    BlimpAction, BlimpEvent, BlimpState, Controls, FlightMode, MessageB2G, MessageG2B, SensorType,
};
use crate::number::{
    converted, converts, half_turn, lawful_real, lawful_signed, over, pi, quotient, ratio, small,
    Real, Signed,
};
use crate::obsw_interface::{BlimpAlgorithm, Reaction};
use crate::pid::PidRegulator;
use crate::sensors::{altitude_at, altitude_defined, at_altitude, tilt_defined, tilt_of, tilted};
use crate::thrust::{thrust_defined, thrusts, vectored_thrust};
use crate::vector::{vector_sum, Vector3};
use std::marker::PhantomData;
use vstd::prelude::*;

verus! {

/// What the controller knows of the blimp and of its pilot's wishes.
#[derive(Copy, Debug, PartialEq)]
pub struct BlimpInnerState<S, D> {
    pub curr_flight_mode: FlightMode,
    pub controls: Controls<S>,
    pub altitude: D,
    /// Latitude and longitude.
    pub gps_location: Option<(D, D)>,
    pub acceleration: Option<(D, D, D)>,
    pub heading: D,
    /// The pitch, positive with the nose up, and the roll, positive with the right
    /// side down.
    pub pitch_roll: (D, D),
}

impl<S: Copy, D: Copy> Clone for BlimpInnerState<S, D> {
    fn clone(&self) -> (copy: Self)
        ensures
            copy == *self,
    {
        *self
    }
}

/// The flight controller. `M` supplies the elementary functions.
pub struct BlimpMainAlgo<S, D, M> {
    pub inner_state: BlimpInnerState<S, D>,
    pub pids: BlimpPids<D>,
    pub math: PhantomData<M>,
}

/// The number zero.
pub open spec fn zero<T: Signed>() -> T {
    small::<T>(0)->0
}

/// The acceleration measured so far; what was never measured counts as zero.
pub open spec fn known_acceleration<S, D: Signed>(s: BlimpInnerState<S, D>) -> (D, D, D) {
    match s.acceleration {
        Some(acc) => acc,
        None => (zero(), zero(), zero()),
    }
}

/// The location measured so far; what was never measured counts as zero.
pub open spec fn known_location<S, D: Signed>(s: BlimpInnerState<S, D>) -> (D, D) {
    match s.gps_location {
        Some(location) => location,
        None => (zero(), zero()),
    }
}

/// The acceleration once the upward one is known to be `z`.
pub open spec fn with_upward<S, D: Signed>(s: BlimpInnerState<S, D>, z: D) -> (D, D, D) {
    (known_acceleration(s).0, known_acceleration(s).1, z)
}

/// The numbers in `ev` are within what can be computed with.
pub open spec fn event_defined<S, D: Real, M: Elementary<S, D>>(
    s: BlimpInnerState<S, D>,
    ev: BlimpEvent<S, D>,
) -> bool {
    match ev {
        BlimpEvent::SensorDataF64(SensorType::Barometer, pressure) => altitude_defined::<S, D, M>(
            pressure,
        ),
        BlimpEvent::SensorDataF64(SensorType::AccelerometerZ, z) => tilt_defined::<S, D, M>(
            with_upward(s, z),
        ),
        _ => true,
    }
}

/// What the controller knows after `ev` is `post`, if it knew `pre` before.
pub open spec fn event_learnt<S, D: Real, M: Elementary<S, D>>(
    pre: BlimpInnerState<S, D>,
    ev: BlimpEvent<S, D>,
    post: BlimpInnerState<S, D>,
) -> bool {
    let acc = known_acceleration(pre);
    let location = known_location(pre);
    match ev {
        BlimpEvent::Control(controls) => post == BlimpInnerState { controls, ..pre },
        BlimpEvent::GetMsg(_) => post == pre,
        BlimpEvent::SensorDataF64(sensor, value) => match sensor {
            SensorType::Barometer => {
                &&& at_altitude::<S, D, M>(value, post.altitude)
                &&& post == BlimpInnerState { altitude: post.altitude, ..pre }
            },
            SensorType::MagnetometerHeading => post == BlimpInnerState { heading: value, ..pre },
            SensorType::AccelerometerX => post == BlimpInnerState {
                acceleration: Some((value, acc.1, acc.2)),
                ..pre
            },
            SensorType::AccelerometerY => post == BlimpInnerState {
                acceleration: Some((acc.0, value, acc.2)),
                ..pre
            },
            SensorType::AccelerometerZ => {
                &&& tilted::<S, D, M>(with_upward(pre, value), post.pitch_roll)
                &&& post == BlimpInnerState {
                    acceleration: Some(with_upward(pre, value)),
                    pitch_roll: post.pitch_roll,
                    ..pre
                }
            },
            SensorType::GPSLatitude => post == BlimpInnerState {
                gps_location: Some((value, location.1)),
                ..pre
            },
            SensorType::GPSLongitude => post == BlimpInnerState {
                gps_location: Some((location.0, value)),
                ..pre
            },
            _ => post == pre,
        },
    }
}

/// What is done about `ev`: a ping is answered, controls that come as a message are
/// handled as controls, and whatever a sensor measures goes to the ground.
pub open spec fn event_reactions<S, D>(ev: BlimpEvent<S, D>) -> Seq<
    Reaction<BlimpEvent<S, D>, BlimpAction<S, D>>,
> {
    match ev {
        BlimpEvent::Control(_) => seq![],
        BlimpEvent::GetMsg(MessageG2B::Ping(id)) => seq![
            Reaction::Perform(BlimpAction::SendMsg(Box::new(MessageB2G::Pong(id)))),
        ],
        BlimpEvent::GetMsg(MessageG2B::Pong(_)) => seq![],
        BlimpEvent::GetMsg(MessageG2B::Control(controls)) => seq![
            Reaction::Schedule(BlimpEvent::Control(controls)),
        ],
        BlimpEvent::SensorDataF64(..) => seq![
            Reaction::Perform(BlimpAction::SendMsg(Box::new(MessageB2G::ForwardEvent(ev)))),
        ],
    }
}

impl<S: Signed + Copy, D: Real + From<S>, M: Elementary<S, D>> BlimpAlgorithm<
    BlimpEvent<S, D>,
    BlimpAction<S, D>,
> for BlimpMainAlgo<S, D, M> {
    open spec fn accepts(&self, ev: BlimpEvent<S, D>) -> bool {
        &&& lawful_real::<D>()
        &&& event_defined::<S, D, M>(self.inner_state, ev)
    }

    fn handle_event(&mut self, ev: BlimpEvent<S, D>) -> (reactions: Vec<
        Reaction<BlimpEvent<S, D>, BlimpAction<S, D>>,
    >)
        ensures
            event_learnt::<S, D, M>(old(self).inner_state, ev, final(self).inner_state),
            final(self).pids == old(self).pids,
            reactions@ == event_reactions(ev),
    {
        let mut reactions: Vec<Reaction<BlimpEvent<S, D>, BlimpAction<S, D>>> = Vec::new();
        let unknown = D::from(0i8);
        let acc = match self.inner_state.acceleration {
            Some(acc) => acc,
            None => (unknown, unknown, unknown),
        };
        let location = match self.inner_state.gps_location {
            Some(location) => location,
            None => (unknown, unknown),
        };
        match ev {
            BlimpEvent::Control(controls) => {
                self.inner_state.controls = controls;
            },
            BlimpEvent::SensorDataF64(sensor, value) => {
                match sensor {
                    SensorType::Barometer => {
                        self.inner_state.altitude = altitude_at::<S, D, M>(value);
                    },
                    SensorType::MagnetometerHeading => {
                        self.inner_state.heading = value;
                    },
                    SensorType::AccelerometerX => {
                        self.inner_state.acceleration = Some((value, acc.1, acc.2));
                    },
                    SensorType::AccelerometerY => {
                        self.inner_state.acceleration = Some((acc.0, value, acc.2));
                    },
                    SensorType::AccelerometerZ => {
                        let acc_new = (acc.0, acc.1, value);
                        self.inner_state.acceleration = Some(acc_new);
                        self.inner_state.pitch_roll = tilt_of::<S, D, M>(acc_new);
                    },
                    SensorType::GPSLatitude => {
                        self.inner_state.gps_location = Some((value, location.1));
                    },
                    SensorType::GPSLongitude => {
                        self.inner_state.gps_location = Some((location.0, value));
                    },
                    _ => {},
                }
                reactions.push(
                    Reaction::Perform(
                        BlimpAction::SendMsg(Box::new(MessageB2G::ForwardEvent(ev))),
                    ),
                );
            },
            BlimpEvent::GetMsg(msg) => {
                match msg {
                    MessageG2B::Ping(id) => {
                        reactions.push(
                            Reaction::Perform(BlimpAction::SendMsg(Box::new(MessageB2G::Pong(id)))),
                        );
                    },
                    MessageG2B::Pong(_id) => {},
                    MessageG2B::Control(controls) => {
                        reactions.push(Reaction::Schedule(BlimpEvent::Control(controls)));
                    },
                }
            },
        }
        reactions
    }
}

/// The controls of a pilot who does not touch them: everything is zero, the mode is
/// manual, all motors are on, and none is reversed.
pub open spec fn untouched<S: Signed>(c: Controls<S>) -> bool {
    &&& c.throttle_main == zero::<S>()
    &&& c.throttle_split@ == seq![zero::<S>(), zero::<S>(), zero::<S>(), zero::<S>()]
    &&& c.sideways == zero::<S>()
    &&& c.elevation == zero::<S>()
    &&& c.pitch == zero::<S>()
    &&& c.roll == zero::<S>()
    &&& c.yaw == zero::<S>()
    &&& c.desired_flight_mode == FlightMode::Manual
    &&& c.motors_toggles@ == seq![true, true, true, true]
    &&& c.motors_reverse@ == seq![false, false, false, false]
    &&& !c.nav_lights
}

/// A regulator with the controller's gains that has seen no deviation yet.
pub open spec fn fresh_pid<D: Real>(circular: Option<D>) -> Option<PidRegulator<D>> {
    match quotient::<D>(15, 100) {
        Some(k_i) => Some(
            PidRegulator {
                setpoint: zero(),
                k_p: small::<D>(1)->0,
                k_i,
                k_d: small::<D>(2)->0,
                circular,
                deviation_integral: zero(),
                previous_deviation: zero(),
            },
        ),
        None => None,
    }
}

/// The regulators of a controller that has not flown yet. All but the one of the
/// altitude regulate angles.
pub open spec fn fresh_pids<D: Real>() -> Option<BlimpPids<D>> {
    match (fresh_pid(half_turn::<D>()), fresh_pid(None::<D>), half_turn::<D>()) {
        (Some(angle_pid), Some(altitude_pid), Some(_)) => Some(
            BlimpPids {
                attitude_pid: angle_pid,
                altitude_pid,
                pitch_pid: angle_pid,
                roll_pid: angle_pid,
            },
        ),
        _ => None,
    }
}

/// Makes a regulator with the controller's gains.
fn make_pid<D: Real>(circular: Option<D>) -> (pid: PidRegulator<D>)
    requires
        lawful_real::<D>(),
        fresh_pid(circular) is Some,
    ensures
        Some(pid) == fresh_pid(circular),
{
    PidRegulator::new(D::from(0i8), D::from(1i8), ratio::<D>(15, 100), D::from(2i8), circular)
}

// The control step.

/// What the regulators are fed with.
pub open spec fn measurements<S, D>(s: BlimpInnerState<S, D>) -> Measurements<D> {
    Measurements {
        altitude: s.altitude,
        heading: s.heading,
        pitch: s.pitch_roll.0,
        roll: s.pitch_roll.1,
    }
}

/// The regulators at the start of a step that flies in the mode wanted by the
/// pilot.
pub open spec fn entered<S, D>(s: BlimpInnerState<S, D>, pids: BlimpPids<D>) -> BlimpPids<D> {
    captured(pids, s.curr_flight_mode, s.controls.desired_flight_mode, s.heading, s.altitude)
}

/// What the regulators do in a step in one of the stabilised modes.
pub open spec fn steadied<S: Signed, D: Real + From<S>>(
    s: BlimpInnerState<S, D>,
    pids: BlimpPids<D>,
    delta_time: D,
) -> Option<(BlimpPids<D>, Corrections<D>)> {
    regulated(
        entered(s, pids),
        measurements(s),
        converted::<S, D>(s.controls.yaw),
        converted::<S, D>(s.controls.elevation),
        s.controls.desired_flight_mode == FlightMode::AltiAtti,
        delta_time,
    )
}

/// The force wanted of every motor.
pub open spec fn forces<S: Signed, D: Real + From<S>>(
    c: Controls<S>,
    corrections: Corrections<D>,
) -> Seq<Vector3<D>> {
    Seq::new(4, |i: int| local_force(c, corrections, i)->0)
}

/// The numbers are within what can be computed with.
pub open spec fn step_defined<S: Signed, D: Real + From<S>, M: Elementary<S, D>>(
    s: BlimpInnerState<S, D>,
    pids: BlimpPids<D>,
    delta_time: D,
) -> bool {
    &&& lights::<S>(s.controls.nav_lights) is Some
    &&& match s.controls.desired_flight_mode {
        FlightMode::Manual => manual_actions::<S, D>(s.controls, 4) is Some,
        _ => match steadied(s, pids, delta_time) {
            Some((_, corrections)) => forall|i: int|
                0 <= i < 4 ==> (#[trigger] local_force(s.controls, corrections, i) matches Some(
                    force,
                ) && thrust_defined::<S, D, M>(force, i)),
            None => false,
        },
    }
}

/// `post` is what becomes of the regulators in a step, and `actions` is what is
/// done about the motors.
pub open spec fn flown<S: Signed, D: Real + From<S>, M: Elementary<S, D>>(
    s: BlimpInnerState<S, D>,
    pids: BlimpPids<D>,
    delta_time: D,
    post: BlimpPids<D>,
    actions: Seq<BlimpAction<S, D>>,
) -> bool {
    match s.controls.desired_flight_mode {
        FlightMode::Manual => {
            &&& post == pids
            &&& Some(actions) == manual_actions::<S, D>(s.controls, 4)
        },
        _ => steadied(s, pids, delta_time) matches Some((steady, corrections)) && {
            &&& post == steady
            &&& thrusts::<S, D, M>(forces(s.controls, corrections), actions)
        },
    }
}

/// The navigation lights: blinking when they are on.
pub open spec fn lights<S: Signed>(on: bool) -> Option<S> {
    if on {
        over(small(1), small(2))
    } else {
        small(-1)
    }
}

/// The report to the ground. It names the values that are held, where they are.
pub open spec fn report<S, D>(s: BlimpInnerState<S, D>, pids: BlimpPids<D>) -> BlimpState<D> {
    BlimpState {
        flight_mode: s.curr_flight_mode,
        altitude: s.altitude,
        desired_altitude: if s.curr_flight_mode == FlightMode::AltiAtti {
            Some(pids.altitude_pid.setpoint)
        } else {
            None
        },
        heading: s.heading,
        desired_heading: if s.curr_flight_mode == FlightMode::Manual {
            None
        } else {
            Some(pids.attitude_pid.setpoint)
        },
        pitch: s.pitch_roll.0,
        roll: s.pitch_roll.1,
    }
}

/// What every step ends with: the navigation lights, and the report.
pub open spec fn closing<S: Signed, D>(s: BlimpInnerState<S, D>, pids: BlimpPids<D>) -> Seq<
    BlimpAction<S, D>,
> {
    seq![
        BlimpAction::NavLights(lights::<S>(s.controls.nav_lights)->0),
        BlimpAction::SendMsg(Box::new(MessageB2G::BlimpState(report(s, pids)))),
    ]
}

/// The deliveries that performing `action` makes: the action itself, and a message
/// to the ground if it is one of those that move something.
pub open spec fn deliveries<S, D>(action: BlimpAction<S, D>) -> Seq<BlimpAction<S, D>> {
    if action is SetMotor || action is SetServo {
        seq![action, BlimpAction::SendMsg(Box::new(MessageB2G::ForwardAction(action)))]
    } else {
        seq![action]
    }
}

impl<S: Signed + Copy, D: Real + From<S>, M: Elementary<S, D>> BlimpMainAlgo<S, D, M> {
    /// A controller that knows nothing yet, for a pilot who has not touched the
    /// controls.
    pub fn new() -> (algo: Self)
        requires
            lawful_signed::<S>(),
            lawful_real::<D>(),
            fresh_pids::<D>() is Some,
        ensures
            algo.inner_state.curr_flight_mode == FlightMode::Manual,
            untouched(algo.inner_state.controls),
            algo.inner_state.altitude == zero::<D>(),
            algo.inner_state.gps_location == None::<(D, D)>,
            algo.inner_state.acceleration == None::<(D, D, D)>,
            algo.inner_state.heading == zero::<D>(),
            algo.inner_state.pitch_roll == (zero::<D>(), zero::<D>()),
            Some(algo.pids) == fresh_pids::<D>(),
    {
        let none = S::from(0i8);
        let unknown = D::from(0i8);
        let half = pi::<D>();
        let algo = BlimpMainAlgo {
            inner_state: BlimpInnerState {
                curr_flight_mode: FlightMode::Manual,
                controls: Controls {
                    throttle_main: none,
                    throttle_split: [none, none, none, none],
                    sideways: none,
                    elevation: none,
                    pitch: none,
                    roll: none,
                    yaw: none,
                    desired_flight_mode: FlightMode::Manual,
                    motors_toggles: [true, true, true, true],
                    motors_reverse: [false, false, false, false],
                    nav_lights: false,
                },
                altitude: unknown,
                gps_location: None,
                acceleration: None,
                heading: unknown,
                pitch_roll: (unknown, unknown),
            },
            pids: BlimpPids {
                attitude_pid: make_pid(Some(half)),
                altitude_pid: make_pid(None),
                pitch_pid: make_pid(Some(half)),
                roll_pid: make_pid(Some(half)),
            },
            math: PhantomData,
        };
        algo
    }

    /// Flies for one control step, `delta_time` after the last one, and gives what
    /// is to be done, in that order.
    pub fn step(&mut self, delta_time: D) -> (actions: Vec<BlimpAction<S, D>>)
        requires
            lawful_signed::<S>(),
            lawful_real::<D>(),
            converts::<S, D>(),
            step_defined::<S, D, M>(old(self).inner_state, old(self).pids, delta_time),
        ensures
            final(self).inner_state == (BlimpInnerState {
                curr_flight_mode: old(self).inner_state.controls.desired_flight_mode,
                ..old(self).inner_state
            }),
            exists|moves: Seq<BlimpAction<S, D>>|
                {
                    &&& #[trigger] flown::<S, D, M>(
                        old(self).inner_state,
                        old(self).pids,
                        delta_time,
                        final(self).pids,
                        moves,
                    )
                    &&& actions@ == moves + closing(final(self).inner_state, final(self).pids)
                },
    {
        let mode = self.inner_state.controls.desired_flight_mode;
        capture(
            &mut self.pids,
            self.inner_state.curr_flight_mode,
            mode,
            self.inner_state.heading,
            self.inner_state.altitude,
        );
        self.inner_state.curr_flight_mode = mode;

        let controls = self.inner_state.controls;
        let mut actions: Vec<BlimpAction<S, D>> = match mode {
            FlightMode::Manual => manual(&controls),
            _ => {
                let corrections = regulate(
                    &mut self.pids,
                    Measurements {
                        altitude: self.inner_state.altitude,
                        heading: self.inner_state.heading,
                        pitch: self.inner_state.pitch_roll.0,
                        roll: self.inner_state.pitch_roll.1,
                    },
                    D::from(controls.yaw),
                    D::from(controls.elevation),
                    mode == FlightMode::AltiAtti,
                    delta_time,
                );
                Self::thrust(&controls, corrections)
            },
        };
        let ghost moves = actions@;

        let nav_lights = if controls.nav_lights {
            S::from(1i8) / S::from(2i8)
        } else {
            S::from(-1i8)
        };
        actions.push(BlimpAction::NavLights(nav_lights));

        let state = BlimpState {
            flight_mode: mode,
            altitude: self.inner_state.altitude,
            desired_altitude: if mode == FlightMode::AltiAtti {
                Some(self.pids.altitude_pid.setpoint)
            } else {
                None
            },
            heading: self.inner_state.heading,
            desired_heading: if mode == FlightMode::Atti || mode == FlightMode::AltiAtti {
                Some(self.pids.attitude_pid.setpoint)
            } else {
                None
            },
            pitch: self.inner_state.pitch_roll.0,
            roll: self.inner_state.pitch_roll.1,
        };
        actions.push(BlimpAction::SendMsg(Box::new(MessageB2G::BlimpState(state))));
        assert(flown::<S, D, M>(
            old(self).inner_state,
            old(self).pids,
            delta_time,
            self.pids,
            moves,
        ));
        assert(actions@ =~= moves + closing(self.inner_state, self.pids));
        actions
    }

    /// Turns the motors towards the forces that the controls and the regulators
    /// want of them.
    fn thrust(controls: &Controls<S>, corrections: Corrections<D>) -> (actions: Vec<
        BlimpAction<S, D>,
    >)
        requires
            lawful_real::<D>(),
            converts::<S, D>(),
            forall|i: int|
                0 <= i < 4 ==> (#[trigger] local_force(*controls, corrections, i) matches Some(
                    force,
                ) && thrust_defined::<S, D, M>(force, i)),
        ensures
            thrusts::<S, D, M>(forces(*controls, corrections), actions@),
    {
        assert(local_force(*controls, corrections, 0) is Some);
        let mdfv = compute_main_force(controls, corrections);
        let mut lrfvs: Vec<Vector3<D>> = Vec::new();
        let mut i: u8 = 0;
        while i < 4
            invariant
                i <= 4,
                lawful_real::<D>(),
                converts::<S, D>(),
                Some(mdfv) == main_force(*controls, corrections),
                forall|k: int|
                    0 <= k < 4 ==> #[trigger] local_force(*controls, corrections, k) is Some,
                lrfvs@.len() == i,
                forall|k: int|
                    0 <= k < i ==> Some(#[trigger] lrfvs@[k]) == rotating_force(
                        *controls,
                        corrections,
                        k,
                    ),
            decreases 4 - i,
        {
            assert(local_force(*controls, corrections, i as int) is Some);
            lrfvs.push(compute_rotating_force(controls, corrections, i));
            i = i + 1;
        }
        assert forall|k: int| #![trigger lrfvs@[k]] 0 <= k < 4 implies vector_sum(lrfvs@[k], mdfv)
            == local_force(*controls, corrections, k) by {}
        assert(lrfvs@.map_values(|lrfv: Vector3<D>| vector_sum(lrfv, mdfv)->0) =~= forces(
            *controls,
            corrections,
        ));
        vectored_thrust::<S, D, M>(mdfv, lrfvs.as_slice())
    }

    /// Gives the deliveries that performing `action` takes, in that order.
    pub fn perform_action(action: BlimpAction<S, D>) -> (delivered: Vec<BlimpAction<S, D>>)
        ensures
            delivered@ == deliveries(action),
    {
        let mut delivered: Vec<BlimpAction<S, D>> = Vec::new();
        delivered.push(action.clone());
        if matches!(action, BlimpAction::SetMotor { .. } | BlimpAction::SetServo { .. }) {
            delivered.push(BlimpAction::SendMsg(Box::new(MessageB2G::ForwardAction(action))));
        }
        delivered
    }
}

} // verus!
