//! Vectored thrust: every motor is turned towards the force wanted of it.
use crate::elementary::Elementary;
use crate::layout::{right, sign};
use crate::messages::BlimpAction;
use crate::number::{half_turn, lawful_real, over, pi, plus, small, times, whole, Real};
use crate::vector::{vector_sum, Vector3};
use vstd::prelude::*;

verus! {

/// What the elementary functions return on the way from a force to the settings
/// of a motor and its servos.
pub struct Readings<S, D> {
    /// The squares of the force's components.
    pub x2: D,
    pub y2: D,
    pub z2: D,
    /// The length of the force's forward and upward part.
    pub yz: D,
    /// The length of the force.
    pub magnitude: D,
    /// The angle of the force above the forward direction.
    pub steepness: D,
    /// The angle of the force from the rightward direction.
    pub bearing: D,
    pub setting: Setting<S>,
}

/// The settings of a motor: its speed, and where its servos are, in degrees.
#[derive(Copy, Debug, PartialEq)]
pub struct Setting<S> {
    pub up_down: S,
    pub sideways: S,
    pub speed: S,
}

impl<S: Copy> Clone for Setting<S> {
    fn clone(&self) -> (copy: Self)
        ensures
            copy == *self,
    {
        *self
    }
}

/// An angle in degrees, given in radians.
pub open spec fn degrees<D: Real>(radians: Option<D>) -> Option<D> {
    over(times(radians, whole(180)), half_turn())
}

/// Computes `degrees`.
pub fn to_degrees<D: Real>(radians: D) -> (angle: D)
    requires
        lawful_real::<D>(),
        degrees(Some(radians)) is Some,
    ensures
        Some(angle) == degrees(Some(radians)),
{
    radians * D::from(180i32) / pi()
}

/// The first three readings are the squares of the components of `force`.
pub open spec fn squares<S, D: Real, M: Elementary<S, D>>(
    force: Vector3<D>,
    r: Readings<S, D>,
) -> bool {
    let two = whole::<D>(2)->0;
    &&& call_ensures(M::powf, (force.x, two), r.x2)
    &&& call_ensures(M::powf, (force.y, two), r.y2)
    &&& call_ensures(M::powf, (force.z, two), r.z2)
}

/// The square of the length of the force's forward and upward part.
pub open spec fn yz_square<S, D: Real>(r: Readings<S, D>) -> Option<D> {
    plus(Some(r.y2), Some(r.z2))
}

/// The square of the length of the force.
pub open spec fn square<S, D: Real>(r: Readings<S, D>) -> Option<D> {
    plus(plus(Some(r.x2), Some(r.y2)), Some(r.z2))
}

/// The next two readings are the lengths that belong to these squares.
pub open spec fn lengths<S, D: Real, M: Elementary<S, D>>(r: Readings<S, D>) -> bool {
    &&& yz_square(r) matches Some(yz2) && call_ensures(M::sqrt, (yz2,), r.yz)
    &&& square(r) matches Some(square) && call_ensures(M::sqrt, (square,), r.magnitude)
}

/// The next two readings are the angles of `force`. The sideways servo measures
/// its angle on the side that is ahead of it, so that length counts negative.
pub open spec fn angles<S, D: Real, M: Elementary<S, D>>(
    force: Vector3<D>,
    r: Readings<S, D>,
) -> bool {
    &&& call_ensures(M::atan2, (force.z, force.y), r.steepness)
    &&& times(Some(r.yz), small(-1)) matches Some(ahead) && call_ensures(
        M::atan2,
        (ahead, force.x),
        r.bearing,
    )
}

/// Where the up-down servo of motor `i` has to be. Those on the left are mounted
/// the other way round.
pub open spec fn up_down_angle<S, D: Real>(i: int, r: Readings<S, D>) -> Option<D> {
    degrees(times(Some(r.steepness), right(i)))
}

/// Where the sideways servo has to be.
pub open spec fn sideways_angle<S, D: Real>(r: Readings<S, D>) -> Option<D> {
    degrees(Some(r.bearing))
}

/// The last readings are the settings of motor `i` that follow from the others.
pub open spec fn settings<S, D: Real, M: Elementary<S, D>>(i: int, r: Readings<S, D>) -> bool {
    &&& up_down_angle(i, r) matches Some(angle) && call_ensures(
        M::narrow,
        (angle,),
        r.setting.up_down,
    )
    &&& sideways_angle(r) matches Some(angle) && call_ensures(
        M::narrow,
        (angle,),
        r.setting.sideways,
    )
    &&& call_ensures(M::narrow, (r.magnitude,), r.setting.speed)
}

/// The readings lead from `force` to the settings of motor `i`.
pub open spec fn reads<S, D: Real, M: Elementary<S, D>>(
    force: Vector3<D>,
    i: int,
    r: Readings<S, D>,
) -> bool {
    &&& squares::<S, D, M>(force, r)
    &&& lengths::<S, D, M>(r)
    &&& angles::<S, D, M>(force, r)
    &&& settings::<S, D, M>(i, r)
}

/// Whatever the elementary functions return, the settings of motor `i` can be
/// computed from `force`.
pub open spec fn thrust_defined<S, D: Real, M: Elementary<S, D>>(
    force: Vector3<D>,
    i: int,
) -> bool {
    &&& forall|r: Readings<S, D>| #[trigger]
        squares::<S, D, M>(force, r) ==> {
            &&& yz_square(r) is Some
            &&& square(r) is Some
            &&& lengths::<S, D, M>(r) ==> {
                &&& times(Some(r.yz), small(-1)) is Some
                &&& angles::<S, D, M>(force, r) ==> {
                    &&& up_down_angle(i, r) is Some
                    &&& sideways_angle(r) is Some
                }
            }
        }
}

/// `setting` turns motor `i` towards `force`, and runs it at the force's length.
pub open spec fn turned<S, D: Real, M: Elementary<S, D>>(
    force: Vector3<D>,
    i: int,
    setting: Setting<S>,
) -> bool {
    exists|r: Readings<S, D>| #[trigger] reads::<S, D, M>(force, i, r) && r.setting == setting
}

/// Computes the settings that turn motor `i` towards `force`.
pub fn turn<S, D: Real, M: Elementary<S, D>>(force: Vector3<D>, i: u8) -> (setting: Setting<S>)
    requires
        lawful_real::<D>(),
        thrust_defined::<S, D, M>(force, i as int),
    ensures
        turned::<S, D, M>(force, i as int, setting),
{
    let two = D::from(2i32);
    let x2 = M::powf(force.x, two);
    let y2 = M::powf(force.y, two);
    let z2 = M::powf(force.z, two);
    let ghost some = arbitrary::<Readings<S, D>>();
    assert(squares::<S, D, M>(force, Readings { x2, y2, z2, ..some }));
    let yz = M::sqrt(y2 + z2);
    let magnitude = M::sqrt(x2 + y2 + z2);
    assert(squares::<S, D, M>(force, Readings { x2, y2, z2, yz, magnitude, ..some }));
    let steepness = M::atan2(force.z, force.y);
    let bearing = M::atan2(yz * D::from(-1i8), force.x);
    assert(squares::<S, D, M>(
        force,
        Readings { x2, y2, z2, yz, magnitude, steepness, bearing, ..some },
    ));
    let up_down = M::narrow(to_degrees(steepness * sign(i % 2 != 0)));
    let sideways = M::narrow(to_degrees(bearing));
    let speed = M::narrow(magnitude);
    let setting = Setting { up_down, sideways, speed };
    assert(reads::<S, D, M>(
        force,
        i as int,
        Readings { x2, y2, z2, yz, magnitude, steepness, bearing, setting },
    ));
    setting
}

/// The actions that bring motor `i` to `setting`.
pub open spec fn setting_actions<S, D>(i: int, setting: Setting<S>) -> Seq<BlimpAction<S, D>> {
    seq![
        BlimpAction::SetServo { servo: (2 * i) as u8, location: setting.up_down },
        BlimpAction::SetServo { servo: (2 * i + 1) as u8, location: setting.sideways },
        BlimpAction::SetMotor { motor: i as u8, speed: setting.speed },
    ]
}

/// `actions` brings every motor to a setting that turns it towards its force, one
/// motor after the other.
pub open spec fn thrusts<S, D: Real, M: Elementary<S, D>>(
    forces: Seq<Vector3<D>>,
    actions: Seq<BlimpAction<S, D>>,
) -> bool {
    exists|settings: Seq<Setting<S>>|
        {
            &&& settings.len() == forces.len()
            &&& forall|i: int|
                0 <= i < forces.len() ==> turned::<S, D, M>(forces[i], i, #[trigger] settings[i])
            &&& actions == #[trigger] all_setting_actions::<S, D>(settings)
        }
}

/// The actions that bring the motors to their settings, in the motors' order.
pub open spec fn all_setting_actions<S, D>(settings: Seq<Setting<S>>) -> Seq<BlimpAction<S, D>>
    decreases settings.len(),
{
    if settings.len() == 0 {
        seq![]
    } else {
        all_setting_actions::<S, D>(settings.drop_last()) + setting_actions::<S, D>(
            settings.len() - 1,
            settings.last(),
        )
    }
}

/// The sums of the main desired force and of the local rotating forces.
pub open spec fn sums<D: Real>(main: Vector3<D>, rotating: Seq<Vector3<D>>) -> Seq<Vector3<D>> {
    rotating.map_values(|own: Vector3<D>| vector_sum(own, main)->0)
}

/// Turns every motor towards the force wanted of it. `mdfv` is the main desired
/// force vector, and `lrfvs` are the local rotating force vectors; the local force
/// vector of a motor is the sum of the two.
pub fn vectored_thrust<S, D: Real, M: Elementary<S, D>>(
    mdfv: Vector3<D>,
    lrfvs: &[Vector3<D>],
) -> (actions: Vec<BlimpAction<S, D>>)
    requires
        lawful_real::<D>(),
        lrfvs@.len() <= 128,
        forall|i: int|
            #![trigger lrfvs@[i]]
            0 <= i < lrfvs@.len() ==> (vector_sum(lrfvs@[i], mdfv) matches Some(force)
                && thrust_defined::<S, D, M>(force, i)),
    ensures
        thrusts::<S, D, M>(sums(mdfv, lrfvs@), actions@),
{
    let ghost forces = sums(mdfv, lrfvs@);
    let ghost mut settings: Seq<Setting<S>> = seq![];
    let mut actions: Vec<BlimpAction<S, D>> = Vec::new();
    let mut i: usize = 0;
    while i < lrfvs.len()
        invariant
            i <= lrfvs@.len() <= 128,
            lawful_real::<D>(),
            forces == sums(mdfv, lrfvs@),
            forall|i: int|
                #![trigger lrfvs@[i]]
                0 <= i < lrfvs@.len() ==> (vector_sum(lrfvs@[i], mdfv) matches Some(force)
                    && thrust_defined::<S, D, M>(force, i)),
            settings.len() == i,
            forall|k: int| 0 <= k < i ==> turned::<S, D, M>(forces[k], k, #[trigger] settings[k]),
            actions@ == all_setting_actions::<S, D>(settings),
        decreases lrfvs@.len() - i,
    {
        let ghost before = actions@;
        let motor: u8 = i as u8;
        let force = lrfvs[i].plus(mdfv);
        let setting = turn::<S, D, M>(force, motor);
        actions.push(BlimpAction::SetServo { servo: 2 * motor, location: setting.up_down });
        actions.push(BlimpAction::SetServo { servo: 2 * motor + 1, location: setting.sideways });
        actions.push(BlimpAction::SetMotor { motor, speed: setting.speed });
        proof {
            let longer = settings.push(setting);
            assert(longer.drop_last() == settings);
            assert(actions@ =~= before + setting_actions::<S, D>(i as int, setting));
            settings = longer;
        }
        i = i + 1;
    }
    actions
}

} // verus!
