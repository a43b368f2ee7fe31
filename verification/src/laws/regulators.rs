//! Laws of the regulators, for every number type that can be read as integers.
use crate::laws::integers::{left_over, truncated, Reading};
use crate::number::Number;
use crate::pid::{deviation, integrated, updated, PidRegulator};
use vstd::arithmetic::div_mod::lemma_fundamental_div_mod;
use vstd::prelude::*;

verus! {

/// `a` and `b` are the same place on a circle of circumference `2 * half`.
pub open spec fn same_place(a: int, b: int, half: int) -> bool {
    exists|turns: int| a - b == #[trigger] (turns * (2 * half))
}

/// The absolute value.
pub open spec fn size(a: int) -> int {
    if a < 0 {
        -a
    } else {
        a
    }
}

/// `raw` without whole turns of a circle, brought into half a turn to either side of
/// zero.
pub open spec fn unwound(raw: int, half: int) -> int {
    let rest = left_over(raw, 2 * half);
    if rest > half {
        rest - 2 * half
    } else if rest < -half {
        rest + 2 * half
    } else {
        rest
    }
}

/// Read as integers, the deviation is the difference, unwound on a circle.
pub proof fn lemma_deviation<T: Number>(
    r: Reading<T>,
    setpoint: T,
    current: T,
    circular: Option<T>,
)
    requires
        r.exact(),
        deviation(setpoint, current, circular) is Some,
    ensures
        r.of(deviation(setpoint, current, circular)->0) == (match circular {
            Some(half) => unwound(r.of(setpoint) - r.of(current), r.of(half)),
            None => r.of(setpoint) - r.of(current),
        }),
{
}

/// What is unwound is the same place, at most half a turn away, and nearest.
proof fn lemma_unwound(raw: int, half: int)
    requires
        half > 0,
    ensures
        same_place(raw, unwound(raw, half), half),
        -half <= unwound(raw, half) <= half,
        forall|other: int| #[trigger]
            same_place(raw, other, half) ==> size(unwound(raw, half)) <= size(other),
{
    let c: int = 2 * half;
    let d: int = unwound(raw, half);
    let q: int = truncated(raw, c);
    let rest: int = left_over(raw, c);
    if raw >= 0 {
        lemma_fundamental_div_mod(raw, c);
        assert(c * (raw / c) == (raw / c) * c) by (nonlinear_arith);
    } else {
        lemma_fundamental_div_mod(-raw, c);
        assert(c * ((-raw) / c) == -(-((-raw) / c) * c)) by (nonlinear_arith);
    }
    assert(raw - rest == q * c);
    let turns: int = if rest > half {
        q + 1
    } else if rest < -half {
        q - 1
    } else {
        q
    };
    assert((q + 1) * c == q * c + c) by (nonlinear_arith);
    assert((q - 1) * c == q * c - c) by (nonlinear_arith);
    assert(raw - d == turns * c);
    assert forall|other: int| #[trigger] same_place(raw, other, half) implies size(d) <= size(
        other,
    ) by {
        let t: int = choose|t: int| raw - other == #[trigger] (t * (2 * half));
        let k: int = turns - t;
        assert(turns * c - t * c == k * c) by (nonlinear_arith)
            requires
                k == turns - t,
        ;
        assert(other - d == k * c);
        lemma_turns(k, c);
    }
}

/// Turns that are not none span at least the circumference.
proof fn lemma_turns(k: int, c: int)
    requires
        c > 0,
    ensures
        k > 0 ==> k * c >= c,
        k < 0 ==> k * c <= -c,
        k == 0 ==> k * c == 0,
{
    assert((k > 0 ==> k * c >= c) && (k < 0 ==> k * c <= -c) && (k == 0 ==> k * c == 0))
        by (nonlinear_arith)
        requires
            c > 0,
    ;
}

/// On a circle, the deviation is a way from the measured value to the setpoint, it
/// is at most half the circumference, and no way between the two is shorter. Where both
/// ways around are equally long, it is the one that the difference has the sign of.
pub proof fn law_deviation_is_the_shorter_arc<T: Number>(
    r: Reading<T>,
    setpoint: T,
    current: T,
    half: T,
)
    requires
        r.exact(),
        r.of(half) > 0,
        deviation(setpoint, current, Some(half)) is Some,
    ensures
        ({
            let raw = r.of(setpoint) - r.of(current);
            let d = r.of(deviation(setpoint, current, Some(half))->0);
            &&& same_place(raw, d, r.of(half))
            &&& -r.of(half) <= d <= r.of(half)
            &&& d == r.of(half) ==> raw > 0
            &&& d == -r.of(half) ==> raw < 0
            &&& forall|other: int| #[trigger]
                same_place(raw, other, r.of(half)) ==> size(d) <= size(other)
        }),
{
    lemma_deviation(r, setpoint, current, Some(half));
    lemma_unwound(r.of(setpoint) - r.of(current), r.of(half));
}

/// Without a circle, the deviation is the difference of setpoint and measured value. With
/// one, it is what the difference leaves over when whole turns are taken away, less one
/// more turn where it is beyond half a turn, and more one where it is beyond half a turn
/// the other way. A circle has a size.
pub proof fn law_deviation_takes_away_whole_turns<T: Number>(
    r: Reading<T>,
    setpoint: T,
    current: T,
    circular: Option<T>,
)
    requires
        r.exact(),
        deviation(setpoint, current, circular) is Some,
    ensures
        ({
            let raw = r.of(setpoint) - r.of(current);
            let d = r.of(deviation(setpoint, current, circular)->0);
            match circular {
                None => d == raw,
                Some(half) => {
                    let h = r.of(half);
                    let rest = left_over(raw, 2 * h);
                    &&& h != 0
                    &&& rest > h ==> d == rest - 2 * h
                    &&& rest <= h && rest < -h ==> d == rest + 2 * h
                    &&& rest <= h && rest >= -h ==> d == rest
                },
            }
        }),
{
}

/// An update leaves setpoint, gains and circle as they are, and remembers the
/// deviation that it saw.
pub proof fn law_update_keeps_the_settings<T: Number>(
    pid: PidRegulator<T>,
    current: T,
    delta_time: T,
)
    requires
        updated(pid, current, delta_time) is Some,
    ensures
        ({
            let (post, _) = updated(pid, current, delta_time)->0;
            let dev = deviation(pid.setpoint, current, pid.circular);
            &&& post.setpoint == pid.setpoint
            &&& post.k_p == pid.k_p
            &&& post.k_i == pid.k_i
            &&& post.k_d == pid.k_d
            &&& post.circular == pid.circular
            &&& dev == Some(post.previous_deviation)
            &&& integrated(pid.deviation_integral, dev, delta_time) == Some(
                post.deviation_integral,
            )
        }),
{
}

/// The output is the sum of the three terms, where the last is rounded towards zero,
/// and the integral grows by the deviation times how long it lasted.
pub proof fn law_output_is_the_sum_of_three_terms<T: Number>(
    r: Reading<T>,
    pid: PidRegulator<T>,
    current: T,
    delta_time: T,
)
    requires
        r.exact(),
        updated(pid, current, delta_time) is Some,
    ensures
        ({
            let (post, o) = updated(pid, current, delta_time)->0;
            let d = r.of(deviation(pid.setpoint, current, pid.circular)->0);
            let sum = r.of(pid.deviation_integral) + d * r.of(delta_time);
            let growth = d - r.of(pid.previous_deviation);
            &&& r.of(delta_time) != 0
            &&& r.of(post.deviation_integral) == sum
            &&& r.of(o) == d * r.of(pid.k_p) + sum * r.of(pid.k_i) + truncated(
                growth * r.of(pid.k_d),
                r.of(delta_time),
            )
        }),
{
}

/// Turning the measured value around the circle any number of times, either way,
/// changes nothing of an update, save where the two ways to the setpoint are equally
/// long.
pub proof fn law_full_turns_do_not_matter<T: Number>(
    r: Reading<T>,
    pid: PidRegulator<T>,
    current: T,
    turned: T,
    half: T,
    turns: int,
    delta_time: T,
)
    requires
        r.exact(),
        pid.circular == Some(half),
        r.of(half) > 0,
        r.of(turned) == r.of(current) + turns * (2 * r.of(half)),
        !same_place(r.of(pid.setpoint) - r.of(current), r.of(half), r.of(half)),
        deviation(pid.setpoint, current, Some(half)) is Some,
        deviation(pid.setpoint, turned, Some(half)) is Some,
    ensures
        deviation(pid.setpoint, turned, Some(half)) == deviation(
            pid.setpoint,
            current,
            Some(half),
        ),
        updated(pid, turned, delta_time) == updated(pid, current, delta_time),
{
    let h: int = r.of(half);
    let c: int = 2 * h;
    let raw: int = r.of(pid.setpoint) - r.of(current);
    let far: int = r.of(pid.setpoint) - r.of(turned);
    let d: int = r.of(deviation(pid.setpoint, current, Some(half))->0);
    let e: int = r.of(deviation(pid.setpoint, turned, Some(half))->0);
    law_deviation_is_the_shorter_arc(r, pid.setpoint, current, half);
    law_deviation_is_the_shorter_arc(r, pid.setpoint, turned, half);
    let s: int = choose|s: int| raw - d == #[trigger] (s * (2 * h));
    let t: int = choose|t: int| far - e == #[trigger] (t * (2 * h));
    if d == -h {
        assert((s - 1) * c == s * c - c) by (nonlinear_arith);
        assert(raw - h == (s - 1) * (2 * h));
        assert(same_place(raw, h, h));
    }
    let k: int = s - t - turns;
    assert(s * c - t * c - turns * c == k * c) by (nonlinear_arith)
        requires
            k == s - t - turns,
    ;
    assert(e - d == k * c);
    lemma_turns(k, c);
}

// Series of updates.

/// The regulator after a series of measured values, each with the time since the
/// one before, and what it put out on the way.
pub open spec fn run<T: Number>(pid: PidRegulator<T>, samples: Seq<(T, T)>) -> Option<
    (PidRegulator<T>, Seq<T>),
>
    decreases samples.len(),
{
    if samples.len() == 0 {
        Some((pid, seq![]))
    } else {
        match run(pid, samples.drop_last()) {
            Some((before, outputs)) => match updated(
                before,
                samples.last().0,
                samples.last().1,
            ) {
                Some((after, o)) => Some((after, outputs.push(o))),
                None => None,
            },
            None => None,
        }
    }
}

/// The deviations of a series of measured values, each times how long it lasted,
/// added up.
pub open spec fn total<T: Number>(
    r: Reading<T>,
    setpoint: T,
    circular: Option<T>,
    samples: Seq<(T, T)>,
) -> int
    decreases samples.len(),
{
    if samples.len() == 0 {
        0
    } else {
        total(r, setpoint, circular, samples.drop_last()) + r.of(
            deviation(setpoint, samples.last().0, circular)->0,
        ) * r.of(samples.last().1)
    }
}

/// The deviation that a regulator remembers after a series of measured values.
pub open spec fn remembered<T: Number>(pid: PidRegulator<T>, samples: Seq<(T, T)>) -> T {
    if samples.len() == 0 {
        pid.previous_deviation
    } else {
        deviation(pid.setpoint, samples.last().0, pid.circular)->0
    }
}

/// Over any series of updates the settings of a regulator stay as they are, and it
/// remembers the last deviation.
pub proof fn law_series_keeps_the_settings<T: Number>(
    pid: PidRegulator<T>,
    samples: Seq<(T, T)>,
)
    requires
        run(pid, samples) is Some,
    ensures
        ({
            let (post, outputs) = run(pid, samples)->0;
            &&& outputs.len() == samples.len()
            &&& post.setpoint == pid.setpoint
            &&& post.k_p == pid.k_p
            &&& post.k_i == pid.k_i
            &&& post.k_d == pid.k_d
            &&& post.circular == pid.circular
            &&& post.previous_deviation == remembered(pid, samples)
        }),
    decreases samples.len(),
{
    if samples.len() > 0 {
        law_series_keeps_the_settings(pid, samples.drop_last());
    }
}

/// Over any series of updates the integral grows by all deviations together, each
/// with the time it lasted.
pub proof fn law_integral_is_the_sum<T: Number>(
    r: Reading<T>,
    pid: PidRegulator<T>,
    samples: Seq<(T, T)>,
)
    requires
        r.exact(),
        run(pid, samples) is Some,
    ensures
        ({
            let (post, _) = run(pid, samples)->0;
            r.of(post.deviation_integral) == r.of(pid.deviation_integral) + total(
                r,
                pid.setpoint,
                pid.circular,
                samples,
            )
        }),
    decreases samples.len(),
{
    if samples.len() > 0 {
        law_integral_is_the_sum(r, pid, samples.drop_last());
        law_series_keeps_the_settings(pid, samples.drop_last());
    }
}

/// Each output in a series of updates is the deviation, the sum of all deviations so
/// far, each with the time it lasted, and the growth of the deviation per unit of
/// time, each with its gain.
pub proof fn law_outputs_of_a_series<T: Number>(
    r: Reading<T>,
    pid: PidRegulator<T>,
    samples: Seq<(T, T)>,
    j: int,
)
    requires
        r.exact(),
        run(pid, samples) is Some,
        0 <= j < samples.len(),
    ensures
        ({
            let (_, outputs) = run(pid, samples)->0;
            let deviates = deviation(pid.setpoint, samples[j].0, pid.circular);
            let d = r.of(deviates->0);
            let sum = r.of(pid.deviation_integral) + total(
                r,
                pid.setpoint,
                pid.circular,
                samples.take(j + 1),
            );
            let growth = d - r.of(remembered(pid, samples.take(j)));
            &&& outputs.len() == samples.len()
            &&& deviates is Some
            &&& r.of(samples[j].1) != 0
            &&& r.of(outputs[j]) == d * r.of(pid.k_p) + sum * r.of(pid.k_i) + truncated(
                growth * r.of(pid.k_d),
                r.of(samples[j].1),
            )
        }),
    decreases samples.len(),
{
    let shorter = samples.drop_last();
    law_series_keeps_the_settings(pid, samples);
    law_series_keeps_the_settings(pid, shorter);
    if j < shorter.len() {
        law_outputs_of_a_series(r, pid, shorter, j);
        assert(shorter.take(j + 1) == samples.take(j + 1));
        assert(shorter.take(j) == samples.take(j));
    } else {
        law_integral_is_the_sum(r, pid, shorter);
        assert(samples.take(j + 1) == samples);
        assert(samples.take(j) == shorter);
        let (before, _) = run(pid, shorter)->0;
        law_output_is_the_sum_of_three_terms(r, before, samples.last().0, samples.last().1);
    }
}

/// An update at the setpoint.
proof fn lemma_settled_update<T: Number>(r: Reading<T>, pid: PidRegulator<T>, delta_time: T)
    requires
        r.exact(),
        r.of(pid.deviation_integral) == 0,
        r.of(pid.previous_deviation) == 0,
        pid.circular matches Some(half) ==> r.of(half) > 0 && r.holds(2 * r.of(half)) && r.holds(
            -r.of(half),
        ),
        r.of(delta_time) != 0,
    ensures
        updated(pid, pid.setpoint, delta_time) matches Some((post, o)) && post == pid && r.of(o)
            == 0,
{
    let t: int = r.of(delta_time);
    assert(0int / t == 0) by (nonlinear_arith)
        requires
            t != 0,
    ;
    if let Some(half) = pid.circular {
        let c: int = 2 * r.of(half);
        assert(0int / c == 0 && 0int % c == 0) by (nonlinear_arith)
            requires
                c > 0,
        ;
    }
    let dev = deviation(pid.setpoint, pid.setpoint, pid.circular);
    assert(dev is Some);
    let d = dev->0;
    assert(r.of(d) == 0);
    assert(0 * t == 0 && 0 * r.of(pid.k_p) == 0 && 0 * r.of(pid.k_i) == 0 && 0 * r.of(pid.k_d)
        == 0);
    let sum = integrated(pid.deviation_integral, dev, delta_time);
    assert(sum is Some && r.of(sum->0) == 0);
}

/// As long as the measured value is at the setpoint, a regulator that has seen no
/// deviation puts out nothing and stays as it is, however often it is updated.
pub proof fn law_settled_regulator_rests<T: Number>(
    r: Reading<T>,
    pid: PidRegulator<T>,
    samples: Seq<(T, T)>,
)
    requires
        r.exact(),
        r.of(pid.deviation_integral) == 0,
        r.of(pid.previous_deviation) == 0,
        pid.circular matches Some(half) ==> r.of(half) > 0 && r.holds(2 * r.of(half)) && r.holds(
            -r.of(half),
        ),
        forall|j: int|
            0 <= j < samples.len() ==> (#[trigger] samples[j]).0 == pid.setpoint && r.of(
                samples[j].1,
            ) != 0,
    ensures
        run(pid, samples) matches Some((post, outputs)) && {
            &&& post == pid
            &&& outputs.len() == samples.len()
            &&& forall|j: int| 0 <= j < outputs.len() ==> r.of(#[trigger] outputs[j]) == 0
        },
    decreases samples.len(),
{
    if samples.len() > 0 {
        let shorter = samples.drop_last();
        assert forall|j: int| 0 <= j < shorter.len() implies (#[trigger] shorter[j]).0
            == pid.setpoint && r.of(shorter[j].1) != 0 by {
            assert(shorter[j] == samples[j]);
        }
        law_settled_regulator_rests(r, pid, shorter);
        assert(samples.last() == samples[samples.len() - 1]);
        lemma_settled_update(r, pid, samples.last().1);
    }
}

/// `b` is the regulator `a` with everything that has a direction turned round.
pub open spec fn mirrored<T: Number>(
    r: Reading<T>,
    a: PidRegulator<T>,
    b: PidRegulator<T>,
) -> bool {
    &&& r.of(b.setpoint) == -r.of(a.setpoint)
    &&& r.of(b.deviation_integral) == -r.of(a.deviation_integral)
    &&& r.of(b.previous_deviation) == -r.of(a.previous_deviation)
    &&& b.k_p == a.k_p
    &&& b.k_i == a.k_i
    &&& b.k_d == a.k_d
    &&& b.circular == a.circular
}

/// The opposite way around the circle, unwound.
proof fn lemma_unwound_turned_round(raw: int, half: int)
    requires
        half > 0,
    ensures
        unwound(-raw, half) == -unwound(raw, half),
{
    let c: int = 2 * half;
    assert(0int % c == 0) by (nonlinear_arith)
        requires
            c > 0,
    ;
}

/// The sum of the three terms, and the integral, of the opposite deviation.
proof fn lemma_sum_turned_round(
    d: int,
    integral: int,
    previous: int,
    k_p: int,
    k_i: int,
    k_d: int,
    t: int,
)
    requires
        t != 0,
    ensures
        (-d) * t == -(d * t),
        (-d) * k_p == -(d * k_p),
        (-integral + (-d) * t) * k_i == -((integral + d * t) * k_i),
        truncated((-d - (-previous)) * k_d, t) == -truncated((d - previous) * k_d, t),
{
    assert((-d) * t == -(d * t) && (-d) * k_p == -(d * k_p)) by (nonlinear_arith);
    assert((-(integral + d * t)) * k_i == -((integral + d * t) * k_i)) by (nonlinear_arith);
    assert((-(d - previous)) * k_d == -((d - previous) * k_d)) by (nonlinear_arith);
    assert(0int / t == 0) by (nonlinear_arith)
        requires
            t != 0,
    ;
}

/// An update of a regulator turned round, with its measured value turned round.
proof fn lemma_mirrored_update<T: Number>(
    r: Reading<T>,
    a: PidRegulator<T>,
    b: PidRegulator<T>,
    current: T,
    opposite: T,
    delta_time: T,
)
    requires
        r.exact(),
        mirrored(r, a, b),
        r.of(opposite) == -r.of(current),
        a.circular matches Some(half) ==> r.of(half) > 0,
        updated(a, current, delta_time) is Some,
        updated(b, opposite, delta_time) is Some,
    ensures
        ({
            let (post_a, o_a) = updated(a, current, delta_time)->0;
            let (post_b, o_b) = updated(b, opposite, delta_time)->0;
            &&& mirrored(r, post_a, post_b)
            &&& r.of(o_b) == -r.of(o_a)
        }),
{
    law_output_is_the_sum_of_three_terms(r, a, current, delta_time);
    law_output_is_the_sum_of_three_terms(r, b, opposite, delta_time);
    lemma_deviation(r, a.setpoint, current, a.circular);
    lemma_deviation(r, b.setpoint, opposite, b.circular);
    if let Some(half) = a.circular {
        lemma_unwound_turned_round(r.of(a.setpoint) - r.of(current), r.of(half));
    }
    lemma_sum_turned_round(
        r.of(deviation(a.setpoint, current, a.circular)->0),
        r.of(a.deviation_integral),
        r.of(a.previous_deviation),
        r.of(a.k_p),
        r.of(a.k_i),
        r.of(a.k_d),
        r.of(delta_time),
    );
}

/// Positive and negative deviations are treated alike, on a circle too: over any
/// series of updates, a regulator turned round that measures the opposite values
/// puts out the opposite each time, and stays turned round.
pub proof fn law_directions_are_treated_alike<T: Number>(
    r: Reading<T>,
    a: PidRegulator<T>,
    b: PidRegulator<T>,
    samples: Seq<(T, T)>,
    opposites: Seq<(T, T)>,
)
    requires
        r.exact(),
        mirrored(r, a, b),
        a.circular matches Some(half) ==> r.of(half) > 0,
        samples.len() == opposites.len(),
        forall|j: int|
            #![trigger opposites[j]]
            0 <= j < samples.len() ==> r.of(opposites[j].0) == -r.of(samples[j].0)
                && opposites[j].1 == samples[j].1,
        run(a, samples) is Some,
        run(b, opposites) is Some,
    ensures
        ({
            let (post_a, outputs_a) = run(a, samples)->0;
            let (post_b, outputs_b) = run(b, opposites)->0;
            &&& mirrored(r, post_a, post_b)
            &&& outputs_a.len() == samples.len()
            &&& outputs_b.len() == samples.len()
            &&& forall|j: int|
                0 <= j < samples.len() ==> r.of(#[trigger] outputs_b[j]) == -r.of(outputs_a[j])
        }),
    decreases samples.len(),
{
    law_series_keeps_the_settings(a, samples);
    law_series_keeps_the_settings(b, opposites);
    if samples.len() > 0 {
        let n: int = samples.len() - 1;
        let first = samples.drop_last();
        let second = opposites.drop_last();
        assert forall|j: int|
            #![trigger second[j]]
            0 <= j < first.len() implies r.of(second[j].0) == -r.of(first[j].0) && second[j].1
            == first[j].1 by {
            assert(second[j] == opposites[j]);
        }
        law_directions_are_treated_alike(r, a, b, first, second);
        law_series_keeps_the_settings(a, first);
        assert(opposites[n] == opposites.last());
        let (before_a, _) = run(a, first)->0;
        let (before_b, _) = run(b, second)->0;
        lemma_mirrored_update(
            r,
            before_a,
            before_b,
            samples.last().0,
            opposites.last().0,
            samples.last().1,
        );
    }
}

} // verus!
