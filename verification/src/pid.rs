//! The proportional-integral-derivative regulator.
use crate::number::{lawful, minus, modulo, over, plus, times, Number};
use vstd::prelude::*;
use vstd::std_specs::cmp::PartialOrdIs;

verus! {

/// A regulator that drives a measured value towards `setpoint`.
///
/// With `circular` set, values live on a circle whose half circumference it is,
/// and the regulator steers along the shorter arc.
pub struct PidRegulator<T> {
    pub setpoint: T,
    pub k_p: T,
    pub k_i: T,
    pub k_d: T,
    pub circular: Option<T>,
    pub deviation_integral: T,
    pub previous_deviation: T,
}

/// How far `current` is from `setpoint`: the difference, brought on a circle into
/// the half circumference to either side of zero. The difference of a number and
/// itself stands for zero.
pub open spec fn deviation<T: Number>(setpoint: T, current: T, circular: Option<T>) -> Option<T> {
    let raw = minus(Some(setpoint), Some(current));
    match circular {
        None => raw,
        Some(half) => {
            let circumference = plus(Some(half), Some(half));
            match modulo(raw, circumference) {
                None => None,
                Some(rest) => if rest.is_gt(&half) {
                    minus(Some(rest), circumference)
                } else {
                    match minus(minus(Some(half), Some(half)), Some(half)) {
                        None => None,
                        Some(low) => if rest.is_lt(&low) {
                            plus(Some(rest), circumference)
                        } else {
                            Some(rest)
                        },
                    }
                },
            }
        },
    }
}

/// The sum of all deviations, each weighted with the time it lasted, once
/// `deviation` has lasted for `delta_time`.
pub open spec fn integrated<T: Number>(integral: T, deviation: Option<T>, delta_time: T) -> Option<
    T,
> {
    plus(Some(integral), times(deviation, Some(delta_time)))
}

/// What the regulator puts out: the deviation, its integral and its rate of
/// change, each with its gain.
pub open spec fn output<T: Number>(
    pid: PidRegulator<T>,
    deviation: Option<T>,
    integral: Option<T>,
    delta_time: T,
) -> Option<T> {
    plus(
        plus(times(deviation, Some(pid.k_p)), times(integral, Some(pid.k_i))),
        over(
            times(minus(deviation, Some(pid.previous_deviation)), Some(pid.k_d)),
            Some(delta_time),
        ),
    )
}

/// The regulator after an update, and what the update puts out.
pub open spec fn updated<T: Number>(pid: PidRegulator<T>, current: T, delta_time: T) -> Option<
    (PidRegulator<T>, T),
> {
    let dev = deviation(pid.setpoint, current, pid.circular);
    let integral = integrated(pid.deviation_integral, dev, delta_time);
    match (dev, integral, output(pid, dev, integral, delta_time)) {
        (Some(d), Some(i), Some(o)) => Some(
            (PidRegulator { deviation_integral: i, previous_deviation: d, ..pid }, o),
        ),
        _ => None,
    }
}

impl<T: Number> PidRegulator<T> {
    /// A regulator that has seen no deviation yet: what it remembers is the number
    /// type's default, which is zero.
    pub fn new(setpoint: T, k_p: T, k_i: T, k_d: T, circular: Option<T>) -> (pid: Self)
        ensures
            pid.setpoint == setpoint,
            pid.k_p == k_p,
            pid.k_i == k_i,
            pid.k_d == k_d,
            pid.circular == circular,
            call_ensures(T::default, (), pid.deviation_integral),
            call_ensures(T::default, (), pid.previous_deviation),
    {
        PidRegulator {
            setpoint,
            k_p,
            k_i,
            k_d,
            circular,
            deviation_integral: T::default(),
            previous_deviation: T::default(),
        }
    }

    /// Takes in that the measured value is `current`, `delta_time` after the last
    /// update, and gives the corrective output.
    pub fn update(&mut self, current: T, delta_time: T) -> (o: T)
        requires
            lawful::<T>(),
            updated(*old(self), current, delta_time) is Some,
        ensures
            updated(*old(self), current, delta_time) == Some((*final(self), o)),
    {
        let mut current_deviation = self.setpoint.clone() - current;
        if let Some(circular) = &self.circular {
            let circumference = circular.clone() + circular.clone();
            current_deviation = current_deviation % circumference.clone();
            if current_deviation > circular.clone() {
                current_deviation = current_deviation - circumference;
            } else if current_deviation < circular.clone() - circular.clone() - circular.clone() {
                current_deviation = current_deviation + circumference;
            }
        }
        let prop = current_deviation.clone() * self.k_p.clone();

        self.deviation_integral =
            self.deviation_integral.clone() + current_deviation.clone() * delta_time.clone();
        let inte = self.deviation_integral.clone() * self.k_i.clone();

        let deri = (current_deviation.clone() - self.previous_deviation.clone()) * self.k_d.clone()
            / delta_time;
        self.previous_deviation = current_deviation;

        prop + inte + deri
    }
}

} // verus!
