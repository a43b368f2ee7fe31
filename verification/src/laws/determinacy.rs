//! Laws of what the outcome depends on, where the elementary functions are functions
//! of their arguments.
use crate::attitude::BlimpPids;
use crate::elementary::Elementary;
use crate::messages::{BlimpAction, BlimpEvent, FlightMode};
use crate::number::{Real, Signed};
use crate::obsw_algo::{event_learnt, flown, forces, steadied, BlimpInnerState};
use crate::thrust::{all_setting_actions, reads, sums, thrusts, turned, Readings, Setting};
use crate::vector::{vector_sum, Vector3};
use vstd::prelude::*;

verus! {

/// The elementary functions return the same value whenever they are given the same
/// arguments.
pub open spec fn single_valued<S, D, M: Elementary<S, D>>() -> bool {
    &&& forall|x: D, a: D, b: D| #[trigger]
        call_ensures(M::ln, (x,), a) && #[trigger] call_ensures(M::ln, (x,), b) ==> a == b
    &&& forall|x: D, a: D, b: D| #[trigger]
        call_ensures(M::sqrt, (x,), a) && #[trigger] call_ensures(M::sqrt, (x,), b) ==> a == b
    &&& forall|x: D, y: D, a: D, b: D| #[trigger]
        call_ensures(M::powf, (x, y), a) && #[trigger] call_ensures(M::powf, (x, y), b) ==> a == b
    &&& forall|x: D, a: D, b: D| #[trigger]
        call_ensures(M::asin, (x,), a) && #[trigger] call_ensures(M::asin, (x,), b) ==> a == b
    &&& forall|x: D, y: D, a: D, b: D| #[trigger]
        call_ensures(M::atan2, (x, y), a) && #[trigger] call_ensures(M::atan2, (x, y), b) ==> a
            == b
    &&& forall|x: D, a: S, b: S| #[trigger]
        call_ensures(M::narrow, (x,), a) && #[trigger] call_ensures(M::narrow, (x,), b) ==> a == b
}

/// One force leads to one setting of a motor.
proof fn lemma_one_setting<S, D: Real, M: Elementary<S, D>>(
    force: Vector3<D>,
    i: int,
    a: Setting<S>,
    b: Setting<S>,
)
    requires
        single_valued::<S, D, M>(),
        turned::<S, D, M>(force, i, a),
        turned::<S, D, M>(force, i, b),
    ensures
        a == b,
{
    let r = choose|r: Readings<S, D>| #[trigger]
        reads::<S, D, M>(force, i, r) && r.setting == a;
    let q = choose|q: Readings<S, D>| #[trigger]
        reads::<S, D, M>(force, i, q) && q.setting == b;
    assert(r.x2 == q.x2 && r.y2 == q.y2 && r.z2 == q.z2);
    assert(r.yz == q.yz && r.magnitude == q.magnitude);
    assert(r.steepness == q.steepness && r.bearing == q.bearing);
    assert(r.setting.up_down == q.setting.up_down);
    assert(r.setting.sideways == q.setting.sideways);
    assert(r.setting.speed == q.setting.speed);
}

/// The same forces lead to the same actions.
proof fn lemma_one_list_of_actions<S, D: Real, M: Elementary<S, D>>(
    forces: Seq<Vector3<D>>,
    a: Seq<BlimpAction<S, D>>,
    b: Seq<BlimpAction<S, D>>,
)
    requires
        single_valued::<S, D, M>(),
        thrusts::<S, D, M>(forces, a),
        thrusts::<S, D, M>(forces, b),
    ensures
        a == b,
{
    let first = choose|settings: Seq<Setting<S>>|
        {
            &&& settings.len() == forces.len()
            &&& forall|i: int|
                0 <= i < forces.len() ==> turned::<S, D, M>(forces[i], i, #[trigger] settings[i])
            &&& a == #[trigger] all_setting_actions::<S, D>(settings)
        };
    let second = choose|settings: Seq<Setting<S>>|
        {
            &&& settings.len() == forces.len()
            &&& forall|i: int|
                0 <= i < forces.len() ==> turned::<S, D, M>(forces[i], i, #[trigger] settings[i])
            &&& b == #[trigger] all_setting_actions::<S, D>(settings)
        };
    assert forall|i: int| 0 <= i < forces.len() implies first[i] == second[i] by {
        lemma_one_setting::<S, D, M>(forces[i], i, first[i], second[i]);
    }
    assert(first =~= second);
}

/// How the force wanted of a motor is split into the main desired force and the
/// local rotating force does not matter: where the sums are the same, the same
/// actions may follow, whatever the elementary functions are. Where these are
/// functions of their arguments, the same actions do follow.
pub proof fn law_only_the_sums_matter<S, D: Real, M: Elementary<S, D>>(
    main_a: Vector3<D>,
    rotating_a: Seq<Vector3<D>>,
    a: Seq<BlimpAction<S, D>>,
    main_b: Vector3<D>,
    rotating_b: Seq<Vector3<D>>,
    b: Seq<BlimpAction<S, D>>,
)
    requires
        rotating_a.len() == rotating_b.len(),
        forall|i: int|
            #![trigger rotating_a[i]]
            #![trigger rotating_b[i]]
            0 <= i < rotating_a.len() ==> vector_sum(rotating_a[i], main_a) == vector_sum(
                rotating_b[i],
                main_b,
            ),
    ensures
        thrusts::<S, D, M>(sums(main_a, rotating_a), a) <==> thrusts::<S, D, M>(
            sums(main_b, rotating_b),
            a,
        ),
        single_valued::<S, D, M>() && thrusts::<S, D, M>(sums(main_a, rotating_a), a)
            && thrusts::<S, D, M>(sums(main_b, rotating_b), b) ==> a == b,
{
    let forces = sums(main_a, rotating_a);
    assert(forces =~= sums(main_b, rotating_b));
    if single_valued::<S, D, M>() && thrusts::<S, D, M>(forces, a) && thrusts::<S, D, M>(
        forces,
        b,
    ) {
        lemma_one_list_of_actions::<S, D, M>(forces, a, b);
    }
}

/// What a control step does, and what becomes of the regulators, follows from what
/// the controller knows, from its regulators and from the time since the last step.
pub proof fn law_step_is_determined<S: Signed, D: Real + From<S>, M: Elementary<S, D>>(
    s: BlimpInnerState<S, D>,
    pids: BlimpPids<D>,
    delta_time: D,
    post_a: BlimpPids<D>,
    a: Seq<BlimpAction<S, D>>,
    post_b: BlimpPids<D>,
    b: Seq<BlimpAction<S, D>>,
)
    requires
        single_valued::<S, D, M>(),
        flown::<S, D, M>(s, pids, delta_time, post_a, a),
        flown::<S, D, M>(s, pids, delta_time, post_b, b),
    ensures
        post_a == post_b,
        a == b,
{
    if s.controls.desired_flight_mode != FlightMode::Manual {
        let (_, corrections) = steadied(s, pids, delta_time)->0;
        lemma_one_list_of_actions::<S, D, M>(forces(s.controls, corrections), a, b);
    }
}

/// What the controller knows after an event follows from what it knew before, and
/// from the event.
pub proof fn law_event_is_determined<S, D: Real, M: Elementary<S, D>>(
    pre: BlimpInnerState<S, D>,
    ev: BlimpEvent<S, D>,
    post_a: BlimpInnerState<S, D>,
    post_b: BlimpInnerState<S, D>,
)
    requires
        single_valued::<S, D, M>(),
        event_learnt::<S, D, M>(pre, ev, post_a),
        event_learnt::<S, D, M>(pre, ev, post_b),
    ensures
        post_a == post_b,
{
}

} // verus!
