//! What the flight controller takes in and gives out. `S` is the narrow number
//! type, in which pilots steer and actuators are set; `D` is the wide one, in
//! which sensors measure and the controller computes.
use vstd::prelude::*;

verus! {

/// The pilot's controls.
#[derive(Copy, Debug, PartialEq)]
pub struct Controls<S> {
    /// Generally influences speed.
    pub throttle_main: S,
    /// Allows you to steer motors individually.
    pub throttle_split: [S; 4],
    /// Left/right linear movement.
    pub sideways: S,
    /// Up-down motion.
    pub elevation: S,
    /// Rotate forward-backward.
    pub pitch: S,
    /// Roll left/right.
    pub roll: S,
    /// Rotate left/right - change heading.
    pub yaw: S,
    pub desired_flight_mode: FlightMode,
    pub motors_toggles: [bool; 4],
    pub motors_reverse: [bool; 4],
    pub nav_lights: bool,
}

impl<S: Copy> Clone for Controls<S> {
    fn clone(&self) -> (copy: Self)
        ensures
            copy == *self,
    {
        *self
    }
}

/// What the blimp is told to do.
#[derive(Debug)]
pub enum BlimpAction<S, D> {
    /// Even numbers are up-down servos. Odd numbers are left-right ones.
    /// Servos corresponding to given motor i are 2i and 2i+1.
    SetServo { servo: u8, location: S },
    /// Motors layout, seen from above with the front at the top:
    /// 0 1
    /// 2 3
    SetMotor { motor: u8, speed: S },
    SendMsg(Box<MessageB2G<S, D>>),
    /// Positive number is blink frequency; zero is solid light; negative is off.
    NavLights(S),
}

impl<S: Copy, D: Copy> Clone for BlimpAction<S, D> {
    fn clone(&self) -> (copy: Self)
        ensures
            copy == *self,
        decreases self,
    {
        match self {
            BlimpAction::SetServo { servo, location } => BlimpAction::SetServo {
                servo: *servo,
                location: *location,
            },
            BlimpAction::SetMotor { motor, speed } => BlimpAction::SetMotor {
                motor: *motor,
                speed: *speed,
            },
            BlimpAction::SendMsg(msg) => BlimpAction::SendMsg(
                Box::new(
                    match &**msg {
                        MessageB2G::Ping(id) => MessageB2G::Ping(*id),
                        MessageB2G::Pong(id) => MessageB2G::Pong(*id),
                        MessageB2G::ForwardAction(action) => MessageB2G::ForwardAction(
                            action.clone(),
                        ),
                        MessageB2G::ForwardEvent(ev) => MessageB2G::ForwardEvent(*ev),
                        MessageB2G::BlimpState(state) => MessageB2G::BlimpState(*state),
                    },
                ),
            ),
            BlimpAction::NavLights(lights) => BlimpAction::NavLights(*lights),
        }
    }
}

/// The quantity that a sensor measures.
#[derive(Clone, Copy, Debug)]
pub enum SensorType {
    Barometer,
    MagnetometerHeading,
    AccelerometerX,
    AccelerometerY,
    AccelerometerZ,
    GyroscopeX,
    GyroscopeY,
    GyroscopeZ,
    GPSLatitude,
    GPSLongitude,
    GPSAltitude,
}

/// What happens to the blimp.
#[derive(Copy, Debug)]
pub enum BlimpEvent<S, D> {
    Control(Controls<S>),
    GetMsg(MessageG2B<S>),
    SensorDataF64(SensorType, D),
}

impl<S: Copy, D: Copy> Clone for BlimpEvent<S, D> {
    fn clone(&self) -> (copy: Self)
        ensures
            copy == *self,
    {
        *self
    }
}

/// How the controls are turned into motion.
#[derive(Clone, Copy, Debug, PartialEq, Eq, Structural)]
pub enum FlightMode {
    /// Throttle -> motors speed; Pitch -> motors pitch; Roll -> motors yaw.
    Manual,
    /// Stabilize heading, control thrust vector.
    Atti,
    /// Like Atti, but also stabilize altitude.
    AltiAtti,
}

/// The report that goes to the ground after every control step.
#[derive(Copy, Debug, PartialEq)]
pub struct BlimpState<D> {
    pub flight_mode: FlightMode,
    pub altitude: D,
    pub desired_altitude: Option<D>,
    pub heading: D,
    pub desired_heading: Option<D>,
    pub pitch: D,
    pub roll: D,
}

impl<D: Copy> Clone for BlimpState<D> {
    fn clone(&self) -> (copy: Self)
        ensures
            copy == *self,
    {
        *self
    }
}

/// A message from the ground to the blimp.
#[derive(Copy, Debug)]
pub enum MessageG2B<S> {
    Ping(u32),
    Pong(u32),
    Control(Controls<S>),
}

impl<S: Copy> Clone for MessageG2B<S> {
    fn clone(&self) -> (copy: Self)
        ensures
            copy == *self,
    {
        *self
    }
}

/// A message from the blimp to the ground.
#[derive(Debug)]
pub enum MessageB2G<S, D> {
    Ping(u32),
    Pong(u32),
    ForwardAction(BlimpAction<S, D>),
    ForwardEvent(BlimpEvent<S, D>),
    BlimpState(BlimpState<D>),
}

impl<S: Copy, D: Copy> Clone for MessageB2G<S, D> {
    fn clone(&self) -> (copy: Self)
        ensures
            copy == *self,
    {
        match self {
            MessageB2G::Ping(id) => MessageB2G::Ping(*id),
            MessageB2G::Pong(id) => MessageB2G::Pong(*id),
            MessageB2G::ForwardAction(action) => MessageB2G::ForwardAction(action.clone()),
            MessageB2G::ForwardEvent(ev) => MessageB2G::ForwardEvent(*ev),
            MessageB2G::BlimpState(state) => MessageB2G::BlimpState(*state),
        }
    }
}

} // verus!
