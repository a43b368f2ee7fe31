//! Stabilised flight: regulators hold the heading and keep the blimp level, and
//! its altitude too where that is wanted; their outputs and the controls make up
//! the forces wanted of the motors.
use crate::layout::{front, left, sign};
use crate::messages::{Controls, FlightMode};
use crate::number::{
    converted, converts, lawful_real, lawful_signed, plus, quotient, ratio, small, times, Number,
    Real, Signed,
};
use crate::pid::{updated, PidRegulator};
use crate::vector::{vector, vector_sum, Vector3};
use vstd::prelude::*;

verus! {

/// The regulators of the flight controller.
pub struct BlimpPids<D> {
    pub attitude_pid: PidRegulator<D>,
    pub altitude_pid: PidRegulator<D>,
    pub pitch_pid: PidRegulator<D>,
    pub roll_pid: PidRegulator<D>,
}

/// What the regulators are fed with.
#[derive(Copy, Debug, PartialEq)]
pub struct Measurements<D> {
    pub altitude: D,
    pub heading: D,
    /// Positive with the nose up.
    pub pitch: D,
    /// Positive with the right side down.
    pub roll: D,
}

impl<D: Copy> Clone for Measurements<D> {
    fn clone(&self) -> (copy: Self)
        ensures
            copy == *self,
    {
        *self
    }
}

/// What the regulators put out; for the altitude, only where it is regulated.
#[derive(Copy, Debug, PartialEq)]
pub struct Corrections<D> {
    pub yaw: D,
    pub altitude: Option<D>,
    pub pitch: D,
    pub roll: D,
}

impl<D: Copy> Clone for Corrections<D> {
    fn clone(&self) -> (copy: Self)
        ensures
            copy == *self,
    {
        *self
    }
}

/// The regulators when the flight mode goes from `from` to `to`: those that hold a
/// value in the new mode start out from the present one.
pub open spec fn captured<D>(
    pids: BlimpPids<D>,
    from: FlightMode,
    to: FlightMode,
    heading: D,
    altitude: D,
) -> BlimpPids<D> {
    let attitude_pid = PidRegulator { setpoint: heading, ..pids.attitude_pid };
    let altitude_pid = PidRegulator { setpoint: altitude, ..pids.altitude_pid };
    if from == to {
        pids
    } else {
        match to {
            FlightMode::Manual => pids,
            FlightMode::Atti => BlimpPids { attitude_pid, ..pids },
            FlightMode::AltiAtti => BlimpPids { attitude_pid, altitude_pid, ..pids },
        }
    }
}

/// Lets the regulators that hold a value in mode `to` start out from the present
/// one, if that mode is new.
pub fn capture<D: Copy>(
    pids: &mut BlimpPids<D>,
    from: FlightMode,
    to: FlightMode,
    heading: D,
    altitude: D,
)
    ensures
        *final(pids) == captured(*old(pids), from, to, heading, altitude),
{
    if from != to {
        match to {
            FlightMode::Manual => {},
            FlightMode::Atti => {
                pids.attitude_pid.setpoint = heading;
            },
            FlightMode::AltiAtti => {
                pids.attitude_pid.setpoint = heading;
                pids.altitude_pid.setpoint = altitude;
            },
        }
    }
}

/// The regulator with its setpoint moved by `n / d` times `rate` per unit of time.
pub open spec fn moved<D: Real>(
    pid: PidRegulator<D>,
    n: int,
    d: int,
    rate: D,
    delta_time: D,
) -> Option<PidRegulator<D>> {
    match plus(
        Some(pid.setpoint),
        times(times(quotient(n, d), Some(rate)), Some(delta_time)),
    ) {
        Some(setpoint) => Some(PidRegulator { setpoint, ..pid }),
        None => None,
    }
}

/// The update of a regulator that can be computed.
pub open spec fn then_updated<D: Number>(
    pid: Option<PidRegulator<D>>,
    current: D,
    delta_time: D,
) -> Option<(PidRegulator<D>, D)> {
    match pid {
        Some(p) => updated(p, current, delta_time),
        None => None,
    }
}

/// The regulator that drives its value to zero.
pub open spec fn levelling<D: Signed>(pid: PidRegulator<D>) -> Option<PidRegulator<D>> {
    Some(PidRegulator { setpoint: small::<D>(0)->0, ..pid })
}

/// What becomes of the regulators in a control step, and what they put out. The
/// yaw moves the heading that is held, and with `altitude_held` the elevation
/// moves the altitude that is held; pitch and roll are driven to zero.
pub open spec fn regulated<D: Real>(
    pids: BlimpPids<D>,
    m: Measurements<D>,
    yaw: D,
    elevation: D,
    altitude_held: bool,
    delta_time: D,
) -> Option<(BlimpPids<D>, Corrections<D>)> {
    let attitude = then_updated(
        moved(pids.attitude_pid, 1, 4, yaw, delta_time),
        m.heading,
        delta_time,
    );
    let altitude = then_updated(
        moved(pids.altitude_pid, 1, 2, elevation, delta_time),
        m.altitude,
        delta_time,
    );
    let pitch = then_updated(levelling(pids.pitch_pid), m.pitch, delta_time);
    let roll = then_updated(levelling(pids.roll_pid), m.roll, delta_time);
    match (attitude, pitch, roll) {
        (Some(attitude), Some(pitch), Some(roll)) => {
            let held = BlimpPids {
                attitude_pid: attitude.0,
                altitude_pid: pids.altitude_pid,
                pitch_pid: pitch.0,
                roll_pid: roll.0,
            };
            let corrections = Corrections {
                yaw: attitude.1,
                altitude: None,
                pitch: pitch.1,
                roll: roll.1,
            };
            if !altitude_held {
                Some((held, corrections))
            } else {
                match altitude {
                    Some(altitude) => Some(
                        (
                            BlimpPids { altitude_pid: altitude.0, ..held },
                            Corrections { altitude: Some(altitude.1), ..corrections },
                        ),
                    ),
                    None => None,
                }
            }
        },
        _ => None,
    }
}

/// Runs the regulators for one control step.
pub fn regulate<D: Real>(
    pids: &mut BlimpPids<D>,
    m: Measurements<D>,
    yaw: D,
    elevation: D,
    altitude_held: bool,
    delta_time: D,
) -> (corrections: Corrections<D>)
    requires
        lawful_real::<D>(),
        regulated(*old(pids), m, yaw, elevation, altitude_held, delta_time) is Some,
    ensures
        regulated(*old(pids), m, yaw, elevation, altitude_held, delta_time) == Some(
            (*final(pids), corrections),
        ),
{
    pids.attitude_pid.setpoint = pids.attitude_pid.setpoint + ratio::<D>(1, 4) * yaw * delta_time;
    let yaw_result = pids.attitude_pid.update(m.heading, delta_time);

    let altitude_result = if altitude_held {
        pids.altitude_pid.setpoint =
            pids.altitude_pid.setpoint + ratio::<D>(1, 2) * elevation * delta_time;
        Some(pids.altitude_pid.update(m.altitude, delta_time))
    } else {
        None
    };

    pids.pitch_pid.setpoint = D::from(0i8);
    let pitch_result = pids.pitch_pid.update(m.pitch, delta_time);

    pids.roll_pid.setpoint = D::from(0i8);
    let roll_result = pids.roll_pid.update(m.roll, delta_time);

    Corrections {
        yaw: yaw_result,
        altitude: altitude_result,
        pitch: pitch_result,
        roll: roll_result,
    }
}

/// The main desired force vector, common to all motors: the sideways control to
/// the right, the throttle forward, and upward the correction of the altitude, or
/// the elevation where the altitude is not held.
pub open spec fn main_force<S: Signed, D: Real + From<S>>(
    c: Controls<S>,
    corrections: Corrections<D>,
) -> Option<Vector3<D>> {
    let up = match corrections.altitude {
        Some(altitude) => altitude,
        None => converted::<S, D>(c.elevation),
    };
    vector(
        plus(small(0), Some(converted::<S, D>(c.sideways))),
        plus(small(0), Some(converted::<S, D>(c.throttle_main))),
        plus(small(0), Some(up)),
    )
}

/// Computes `main_force`.
pub fn compute_main_force<S: Signed + Copy, D: Real + From<S>>(
    controls: &Controls<S>,
    corrections: Corrections<D>,
) -> (mdfv: Vector3<D>)
    requires
        lawful_signed::<D>(),
        converts::<S, D>(),
        main_force(*controls, corrections) is Some,
    ensures
        Some(mdfv) == main_force(*controls, corrections),
{
    let zero = D::from(0i8);
    let up = match corrections.altitude {
        Some(altitude) => altitude,
        None => D::from(controls.elevation),
    };
    Vector3 {
        x: zero + D::from(controls.sideways),
        y: zero + D::from(controls.throttle_main),
        z: zero + up,
    }
}

/// The local rotating force vector of motor `i`.
///
/// Axes are those of the blimp: `x` to the right, `y` forward, `z` up. A pitch is
/// positive with the nose up, and a roll with the right side down. A correction is
/// what a regulator puts out, and points against what is measured: that of the pitch
/// is positive with the nose down, that of the roll with the left side down, and that
/// of the heading where the blimp has to turn clockwise.
///
/// - A positive correction of the pitch adds to the upward push in front and takes
///   away from it in the back. In terms of the tilt: nose up takes away in front and
///   adds in the back.
/// - A positive correction of the roll adds to the upward push on the left and takes
///   away from it on the right. In terms of the tilt: right side down takes away on
///   the left and adds on the right.
/// - A positive correction of the heading adds the motor's place relative to the
///   centre, turned clockwise: the motors in front push to the right and those in the
///   back to the left, those on the left forward and those on the right backward. The
///   yaw control pushes the left forward and the right backward as well.
pub open spec fn rotating_force<S: Signed, D: Real + From<S>>(
    c: Controls<S>,
    corrections: Corrections<D>,
    i: int,
) -> Option<Vector3<D>> {
    vector(
        plus(small(0), times(Some(corrections.yaw), front(i))),
        plus(
            plus(small(0), times(Some(converted::<S, D>(c.yaw)), left(i))),
            times(Some(corrections.yaw), left(i)),
        ),
        plus(
            plus(small(0), times(Some(corrections.pitch), front(i))),
            times(Some(corrections.roll), left(i)),
        ),
    )
}

/// Computes `rotating_force`.
pub fn compute_rotating_force<S: Signed + Copy, D: Real + From<S>>(
    controls: &Controls<S>,
    corrections: Corrections<D>,
    i: u8,
) -> (lrfv: Vector3<D>)
    requires
        lawful_signed::<D>(),
        converts::<S, D>(),
        rotating_force(*controls, corrections, i as int) is Some,
    ensures
        Some(lrfv) == rotating_force(*controls, corrections, i as int),
{
    let zero = D::from(0i8);
    let left = sign::<D>(i % 2 == 0);
    let front = sign::<D>(i < 2);
    Vector3 {
        x: zero + corrections.yaw * front,
        y: zero + D::from(controls.yaw) * left + corrections.yaw * left,
        z: zero + corrections.pitch * front + corrections.roll * left,
    }
}

/// The force wanted of motor `i`: its own and the common one.
pub open spec fn local_force<S: Signed, D: Real + From<S>>(
    c: Controls<S>,
    corrections: Corrections<D>,
    i: int,
) -> Option<Vector3<D>> {
    match (rotating_force(c, corrections, i), main_force(c, corrections)) {
        (Some(lrfv), Some(mdfv)) => vector_sum(lrfv, mdfv),
        _ => None,
    }
}

} // verus!
