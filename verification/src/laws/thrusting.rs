//! Laws of vectored thrust: the settings of a motor give back the force wanted of it.
use crate::elementary::Elementary;
use crate::laws::flight::lemma_setting_positions;
use crate::laws::reals::{
    distance, finds_directions, law_half_turn_is_exact, lemma_sides, narrows, squares_numbers,
    takes_roots, Functions, Measure,
};
use crate::layout::right;
use crate::messages::BlimpAction;
use crate::number::{half_turn, small, times, whole, Number, Real};
use crate::thrust::{
    all_setting_actions, degrees, reads, sums, thrusts, turned, vectored_thrust, Readings, Setting,
};
use crate::vector::{vector_sum, Vector3};
use vstd::prelude::*;

verus! {

/// `actions` holds, for motor `i`, first the location of its up-down servo, which has
/// number `2 * i`, then that of its sideways servo, which has the next number, and
/// then the motor's speed.
pub open spec fn sets_motor<S, D>(
    actions: Seq<BlimpAction<S, D>>,
    i: int,
    up_down: S,
    sideways: S,
    speed: S,
) -> bool {
    &&& actions[3 * i] matches BlimpAction::SetServo { servo, location } && servo == 2 * i
        && location == up_down
    &&& actions[3 * i + 1] matches BlimpAction::SetServo { servo, location } && servo == 2 * i + 1
        && location == sideways
    &&& actions[3 * i + 2] matches BlimpAction::SetMotor { motor, speed: v } && motor == i && v
        == speed
}

/// The motors are set one after the other, each with its two servos, and nothing else
/// is done. Gives what motor `i` is set to.
pub proof fn law_every_motor_is_set<S, D: Real, M: Elementary<S, D>>(
    forces: Seq<Vector3<D>>,
    actions: Seq<BlimpAction<S, D>>,
    i: int,
) -> (setting: Setting<S>)
    requires
        forces.len() <= 128,
        thrusts::<S, D, M>(forces, actions),
        0 <= i < forces.len(),
    ensures
        actions.len() == 3 * forces.len(),
        sets_motor(actions, i, setting.up_down, setting.sideways, setting.speed),
        turned::<S, D, M>(forces[i], i, setting),
{
    let settings = choose|settings: Seq<Setting<S>>|
        {
            &&& settings.len() == forces.len()
            &&& forall|i: int|
                0 <= i < forces.len() ==> turned::<S, D, M>(forces[i], i, #[trigger] settings[i])
            &&& actions == #[trigger] all_setting_actions::<S, D>(settings)
        };
    lemma_setting_positions::<S, D>(settings, i);
    let own = actions.subrange(3 * i, 3 * i + 3);
    assert(own[0] == actions[3 * i]);
    assert(own[1] == actions[3 * i + 1]);
    assert(own[2] == actions[3 * i + 2]);
    settings[i]
}

/// Squares are not negative.
proof fn lemma_square(a: real)
    ensures
        a * a >= 0 as real,
        a * a == 0 as real ==> a == 0 as real,
{
    assert(a * a >= 0 as real && (a * a == 0 as real ==> a == 0 as real)) by (nonlinear_arith);
}

/// A motor that is turned towards a force runs at the force's length, whatever direction
/// that has: the speed is not negative, and its square is the sum of the squares of the
/// force's components. It is zero where there is no force, and only there.
pub proof fn law_turned_motor_runs_at_the_length<S: Number, D: Real, M: Elementary<S, D>>(
    n: Measure<S>,
    w: Measure<D>,
    force: Vector3<D>,
    i: int,
    setting: Setting<S>,
)
    requires
        w.exact_real(),
        takes_roots::<S, D, M>(w),
        squares_numbers::<S, D, M>(w),
        narrows::<S, D, M>(n, w),
        turned::<S, D, M>(force, i, setting),
    ensures
        ({
            let length = n.of(setting.speed);
            let x = w.of(force.x);
            let y = w.of(force.y);
            let z = w.of(force.z);
            &&& length >= 0 as real
            &&& length * length == x * x + y * y + z * z
            &&& length == 0 as real <==> x == 0 as real && y == 0 as real && z == 0 as real
        }),
{
    let r = choose|r: Readings<S, D>| #[trigger]
        reads::<S, D, M>(force, i, r) && r.setting == setting;
    assert(w.of(whole::<D>(2)->0) == 2 as real);
    lemma_square(w.of(force.x));
    lemma_square(w.of(force.y));
    lemma_square(w.of(force.z));
    lemma_square(n.of(setting.speed));
}

/// In vectored thrust every motor runs at the length of the force wanted of it.
pub proof fn law_speed_is_the_length_of_the_force<S: Number, D: Real, M: Elementary<S, D>>(
    n: Measure<S>,
    w: Measure<D>,
    forces: Seq<Vector3<D>>,
    actions: Seq<BlimpAction<S, D>>,
    i: int,
)
    requires
        w.exact_real(),
        takes_roots::<S, D, M>(w),
        squares_numbers::<S, D, M>(w),
        narrows::<S, D, M>(n, w),
        forces.len() <= 128,
        thrusts::<S, D, M>(forces, actions),
        0 <= i < forces.len(),
    ensures
        actions[3 * i + 2] matches BlimpAction::SetMotor { motor, speed } && {
            let force = forces[i];
            &&& motor == i
            &&& n.of(speed) >= 0 as real
            &&& n.of(speed) * n.of(speed) == w.of(force.x) * w.of(force.x) + w.of(force.y) * w.of(
                force.y,
            ) + w.of(force.z) * w.of(force.z)
            &&& n.of(speed) == 0 as real <==> w.of(force.x) == 0 as real && w.of(force.y)
                == 0 as real && w.of(force.z) == 0 as real
        },
{
    let setting = law_every_motor_is_set::<S, D, M>(forces, actions, i);
    law_turned_motor_runs_at_the_length::<S, D, M>(n, w, forces[i], i, setting);
}

/// What `degrees` gives, turned back into radians, is what there was.
pub proof fn law_degrees_turn_back<D: Real>(w: Measure<D>, radians: D)
    requires
        w.exact_real(),
        w.divides(),
        degrees(Some(radians)) is Some,
        half_turn::<D>() is Some,
    ensures
        w.of(degrees(Some(radians))->0) * (884279719003555 as real / 281474976710656 as real)
            / 180 as real == w.of(radians),
{
    law_half_turn_is_exact(w);
    let h: real = w.of(half_turn::<D>()->0);
    let a: real = w.of(radians);
    let g: real = w.of(degrees(Some(radians))->0);
    let k: real = w.of(whole::<D>(180)->0);
    assert(k == 180 as real);
    assert(g == a * k / h);
    assert(h == 884279719003555 as real / 281474976710656 as real) by (nonlinear_arith)
        requires
            h * 281474976710656 as real == 884279719003555 as real,
    ;
    assert(g * h / 180 as real == a) by (nonlinear_arith)
        requires
            g == a * k / h,
            k == 180 as real,
            h > 0 as real,
    ;
}

/// The settings of a motor give back the force wanted of it. With the speed as the
/// length, the sideways servo's angle `b` as the one between the force and the
/// rightward direction, counted backwards, and the up-down servo's angle `t`, counted
/// the other way on the left, as the one of the rest above the forward direction:
/// `speed * cos(b)` is the rightward part of the force, `-speed * sin(b) * cos(t)` the
/// forward part, and `-speed * sin(b) * sin(t)` the upward part. The angles are in
/// degrees, and at most half a turn either way; where there is nothing to turn to,
/// they are zero.
pub proof fn law_turned_motor_gives_back_the_force<S: Number, D: Real, M: Elementary<S, D>>(
    n: Measure<S>,
    w: Measure<D>,
    f: Functions,
    force: Vector3<D>,
    i: int,
    setting: Setting<S>,
)
    requires
        w.exact_real(),
        w.divides(),
        takes_roots::<S, D, M>(w),
        squares_numbers::<S, D, M>(w),
        finds_directions::<S, D, M>(w, f),
        narrows::<S, D, M>(n, w),
        turned::<S, D, M>(force, i, setting),
    ensures
        ({
            let half = 884279719003555 as real / 281474976710656 as real;
            let length = n.of(setting.speed);
            let b = n.of(setting.sideways) * half / 180 as real;
            let t = (if i % 2 == 0 { -n.of(setting.up_down) } else { n.of(setting.up_down) }) * half
                / 180 as real;
            &&& length >= 0 as real
            &&& length * (f.cos)(b) == w.of(force.x)
            &&& length * (f.sin)(b) <= 0 as real
            &&& -(length * (f.sin)(b)) * (f.cos)(t) == w.of(force.y)
            &&& -(length * (f.sin)(b)) * (f.sin)(t) == w.of(force.z)
            &&& -f.pi <= b <= f.pi
            &&& -f.pi <= t <= f.pi
            &&& length == 0 as real ==> b == 0 as real
            &&& w.of(force.y) == 0 as real && w.of(force.z) == 0 as real ==> t == 0 as real
        }),
{
    law_turned_motor_runs_at_the_length::<S, D, M>(n, w, force, i, setting);
    let r = choose|r: Readings<S, D>| #[trigger]
        reads::<S, D, M>(force, i, r) && r.setting == setting;
    let x: real = w.of(force.x);
    let y: real = w.of(force.y);
    let z: real = w.of(force.z);
    let yz: real = w.of(r.yz);
    let length: real = w.of(r.magnitude);
    assert(w.of(whole::<D>(2)->0) == 2 as real);
    lemma_square(x);
    lemma_square(y);
    lemma_square(z);
    lemma_sides(w);
    assert(distance(yz, y, z));
    let ahead = times(Some(r.yz), small(-1));
    let back: real = w.of(ahead->0);
    assert(back == -yz);
    assert(back * back == yz * yz) by (nonlinear_arith)
        requires
            back == -yz,
    ;
    assert(distance(length, x, back));
    let steep: real = w.of(r.steepness);
    let bearing: real = w.of(r.bearing);
    let side = times(Some(r.steepness), right(i));
    law_degrees_turn_back(w, r.bearing);
    law_degrees_turn_back(w, side->0);
    let half: real = 884279719003555 as real / 281474976710656 as real;
    let u: real = n.of(setting.up_down);
    if i % 2 == 0 {
        assert((-u) * half / 180 as real == -(u * half / 180 as real)) by (nonlinear_arith);
    }
    lemma_square(length);
    let b: real = n.of(setting.sideways) * half / 180 as real;
    let t: real = (if i % 2 == 0 { -u } else { u }) * half / 180 as real;
    assert(b == bearing);
    assert(t == steep);
    assert(length == n.of(setting.speed));
    assert(length * (f.cos)(b) == x);
    assert(length * (f.sin)(b) == -yz);
    assert(yz * (f.cos)(t) == y);
    assert(yz * (f.sin)(t) == z);
    assert(-(length * (f.sin)(b)) == yz);
    if length == 0 as real {
        assert(y * y == 0 as real && z * z == 0 as real);
        lemma_square(yz);
    }
}

/// In vectored thrust the settings of every motor give back the force wanted of it.
pub proof fn law_settings_give_back_the_force<S: Number, D: Real, M: Elementary<S, D>>(
    n: Measure<S>,
    w: Measure<D>,
    f: Functions,
    forces: Seq<Vector3<D>>,
    actions: Seq<BlimpAction<S, D>>,
    i: int,
)
    requires
        w.exact_real(),
        w.divides(),
        takes_roots::<S, D, M>(w),
        squares_numbers::<S, D, M>(w),
        finds_directions::<S, D, M>(w, f),
        narrows::<S, D, M>(n, w),
        forces.len() <= 128,
        thrusts::<S, D, M>(forces, actions),
        0 <= i < forces.len(),
    ensures
        actions.len() == 3 * forces.len(),
        actions[3 * i] matches BlimpAction::SetServo { servo: first, location: up_down } && (
        actions[3 * i + 1] matches BlimpAction::SetServo { servo: second, location: sideways } && (
        actions[3 * i + 2] matches BlimpAction::SetMotor { motor, speed } && {
            let half = 884279719003555 as real / 281474976710656 as real;
            let length = n.of(speed);
            let b = n.of(sideways) * half / 180 as real;
            let t = (if i % 2 == 0 { -n.of(up_down) } else { n.of(up_down) }) * half / 180 as real;
            let force = forces[i];
            &&& first == 2 * i && second == 2 * i + 1 && motor == i
            &&& length >= 0 as real
            &&& length * (f.cos)(b) == w.of(force.x)
            &&& length * (f.sin)(b) <= 0 as real
            &&& -(length * (f.sin)(b)) * (f.cos)(t) == w.of(force.y)
            &&& -(length * (f.sin)(b)) * (f.sin)(t) == w.of(force.z)
            &&& -f.pi <= b <= f.pi
            &&& -f.pi <= t <= f.pi
            &&& length == 0 as real ==> b == 0 as real
            &&& w.of(force.y) == 0 as real && w.of(force.z) == 0 as real ==> t == 0 as real
        })),
{
    let setting = law_every_motor_is_set::<S, D, M>(forces, actions, i);
    law_turned_motor_gives_back_the_force::<S, D, M>(n, w, f, forces[i], i, setting);
}

/// The force wanted of a motor is the sum of the main desired force and its local
/// rotating force, component by component.
pub proof fn law_forces_are_added<D: Real>(
    w: Measure<D>,
    main: Vector3<D>,
    rotating: Seq<Vector3<D>>,
    i: int,
)
    requires
        w.exact(),
        0 <= i < rotating.len(),
        vector_sum(rotating[i], main) is Some,
    ensures
        sums(main, rotating).len() == rotating.len(),
        w.of(sums(main, rotating)[i].x) == w.of(rotating[i].x) + w.of(main.x),
        w.of(sums(main, rotating)[i].y) == w.of(rotating[i].y) + w.of(main.y),
        w.of(sums(main, rotating)[i].z) == w.of(rotating[i].z) + w.of(main.z),
{
}

/// What `vectored_thrust` returns sets every motor to the length of its force.
pub proof fn law_vectored_thrust_runs_every_motor<S: Number, D: Real, M: Elementary<S, D>>(
    n: Measure<S>,
    w: Measure<D>,
    main: Vector3<D>,
    rotating: &[Vector3<D>],
    actions: Vec<BlimpAction<S, D>>,
    i: int,
)
    requires
        w.exact_real(),
        takes_roots::<S, D, M>(w),
        squares_numbers::<S, D, M>(w),
        narrows::<S, D, M>(n, w),
        rotating@.len() <= 128,
        0 <= i < rotating@.len(),
        vector_sum(rotating@[i], main) is Some,
        call_ensures(vectored_thrust::<S, D, M>, (main, rotating), actions),
    ensures
        actions@.len() == 3 * rotating@.len(),
        actions@[3 * i + 2] matches BlimpAction::SetMotor { motor, speed } && {
            let x = w.of(rotating@[i].x) + w.of(main.x);
            let y = w.of(rotating@[i].y) + w.of(main.y);
            let z = w.of(rotating@[i].z) + w.of(main.z);
            &&& motor == i
            &&& n.of(speed) >= 0 as real
            &&& n.of(speed) * n.of(speed) == x * x + y * y + z * z
        },
{
    let forces = sums(main, rotating@);
    law_forces_are_added(w, main, rotating@, i);
    let setting = law_every_motor_is_set::<S, D, M>(forces, actions@, i);
    law_turned_motor_runs_at_the_length::<S, D, M>(n, w, forces[i], i, setting);
}

} // verus!
