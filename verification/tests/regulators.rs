use blimp_obsw::number::{clamp, pi, ratio};
use blimp_obsw::pid::PidRegulator;

#[test]
fn constants_are_the_nearest_doubles() {
    assert_eq!(pi::<f64>().to_bits(), std::f64::consts::PI.to_bits());
    assert_eq!(ratio::<f64>(292718, 10000).to_bits(), 29.2718f64.to_bits());
    assert_eq!(ratio::<f64>(28815, 100).to_bits(), 288.15f64.to_bits());
    assert_eq!(ratio::<f64>(15, 100).to_bits(), 0.15f64.to_bits());
    assert_eq!(pi::<i64>(), 3);
    assert_eq!(ratio::<i64>(-7, 2), -3);
}

#[test]
fn clamp_holds_numbers_between_the_bounds() {
    for x in [-3.0f32, -1.0, -0.25, 0.0, 0.5, 1.0, 8.0] {
        assert_eq!(clamp(x, -1.0, 1.0), x.clamp(-1.0, 1.0));
    }
    assert!(clamp(f32::NAN, -1.0, 1.0).is_nan());
    assert_eq!(clamp(5i32, -1, 1), 1);
}

#[test]
fn new_regulator_has_seen_no_deviation() {
    let pid = PidRegulator::new(4.0f64, 1.0, 0.15, 2.0, Some(3.0));
    assert_eq!(pid.setpoint, 4.0);
    assert_eq!((pid.k_p, pid.k_i, pid.k_d), (1.0, 0.15, 2.0));
    assert_eq!(pid.circular, Some(3.0));
    assert_eq!(pid.deviation_integral, 0.0);
    assert_eq!(pid.previous_deviation, 0.0);
}

#[test]
fn output_adds_up_the_three_terms() {
    let mut pid = PidRegulator::new(10i64, 3, 2, 5, None);
    assert_eq!(pid.update(4, 2), 3 * 6 + 2 * 12 + 5 * 6 / 2);
    assert_eq!(pid.deviation_integral, 12);
    assert_eq!(pid.previous_deviation, 6);
    assert_eq!(pid.update(9, 1), 3 * 1 + 2 * 13 + 5 * (1 - 6));

    let mut pid = PidRegulator::new(1.0f64, 1.0, 0.15, 2.0, None);
    let o = pid.update(0.25, 0.5);
    assert_eq!(o, 0.75 * 1.0 + (0.0 + 0.75 * 0.5) * 0.15 + (0.75 - 0.0) * 2.0 / 0.5);
}

#[test]
fn circular_regulator_takes_the_shorter_arc() {
    for (setpoint, current, expected) in [
        (170i64, -170, -20),
        (-170, 170, 20),
        (10, 20, -10),
        (725, 5, 0),
        (180, 0, 180),
        (0, 180, -180),
        (0, 181, 179),
        (900, 10, 170),
    ] {
        let mut pid = PidRegulator::new(setpoint, 1, 0, 0, Some(180));
        assert_eq!(pid.update(current, 1), expected);
    }
    let mut pid = PidRegulator::new(3.0f64, 1.0, 0.0, 0.0, Some(std::f64::consts::PI));
    let two_pi = std::f64::consts::PI + std::f64::consts::PI;
    assert_eq!(pid.update(-3.0, 1.0), 6.0 % two_pi - two_pi);
}

#[test]
fn full_turns_do_not_matter() {
    for current in -179i64..180 {
        for turns in [-3i64, -1, 1, 2, 1000] {
            let mut a = PidRegulator::new(0i64, 3, 2, 5, Some(180));
            let mut b = PidRegulator::new(0i64, 3, 2, 5, Some(180));
            assert_eq!(a.update(current, 2), b.update(current + 360 * turns, 2));
            assert_eq!(a.deviation_integral, b.deviation_integral);
            assert_eq!(a.previous_deviation, b.previous_deviation);
        }
    }
    // Where both ways are equally long, it matters from which side they are seen.
    let mut a = PidRegulator::new(0i64, 1, 0, 0, Some(180));
    let mut b = PidRegulator::new(0i64, 1, 0, 0, Some(180));
    assert_eq!(a.update(180, 1), -180);
    assert_eq!(b.update(-180, 1), 180);
}

#[test]
fn settled_regulator_rests() {
    let mut pid = PidRegulator::new(42i64, 3, 2, 5, Some(180));
    for time in [7i64, 1, 30, 2] {
        assert_eq!(pid.update(42, time), 0);
        assert_eq!(pid.deviation_integral, 0);
        assert_eq!(pid.previous_deviation, 0);
    }
}

#[test]
fn integral_is_the_sum_of_the_deviations() {
    let mut pid = PidRegulator::new(10i64, 1, 1, 1, None);
    for (current, time) in [(4, 2), (12, 3), (10, 9), (-5, 1)] {
        pid.update(current, time);
    }
    assert_eq!(pid.deviation_integral, 6 * 2 - 2 * 3 + 0 * 9 + 15 * 1);
    assert_eq!(pid.previous_deviation, 15);
    assert_eq!((pid.setpoint, pid.k_p, pid.k_i, pid.k_d), (10, 1, 1, 1));
}

#[test]
fn outputs_of_a_series_add_up() {
    let mut pid = PidRegulator::new(10i64, 3, 2, 5, None);
    let samples = [(4i64, 2i64), (12, 3), (10, 9)];
    let outputs = samples.map(|(current, time)| pid.update(current, time));
    assert_eq!(outputs, [
        3 * 6 + 2 * (6 * 2) + 5 * 6 / 2,
        3 * -2 + 2 * (6 * 2 - 2 * 3) - 5 * 8 / 3,
        3 * 0 + 2 * (6 * 2 - 2 * 3 + 0 * 9) + 5 * 2 / 9,
    ]);
}

#[test]
fn directions_are_treated_alike() {
    let mut a = PidRegulator::new(150i64, 3, 2, 5, Some(180));
    let mut b = PidRegulator::new(-150i64, 3, 2, 5, Some(180));
    for (current, time) in [(10i64, 2i64), (-170, 3), (-30, 7), (500, 4), (-331, 3)] {
        assert_eq!(b.update(-current, time), -a.update(current, time));
        assert_eq!(b.deviation_integral, -a.deviation_integral);
        assert_eq!(b.previous_deviation, -a.previous_deviation);
    }
}

#[test]
fn regulator_takes_unsigned_and_narrow_numbers() {
    let mut pid = PidRegulator::new(10u32, 3, 2, 5, None);
    assert_eq!((pid.deviation_integral, pid.previous_deviation), (0, 0));
    assert_eq!(pid.update(9, 2), 3 * 1 + 2 * (1 * 2) + 5 * 1 / 2);
    assert_eq!(pid.update(4, 1), 3 * 6 + 2 * (1 * 2 + 6 * 1) + 5 * 5 / 1);
    let mut pid = PidRegulator::new(-50i8, 1, 0, 0, Some(60));
    assert_eq!(pid.update(50, 1), 20);
    let mut pid = PidRegulator::new(170i16, 1, 0, 0, Some(180));
    assert_eq!(pid.update(-170, 1), -20);
}

#[test]
fn boundless_circle_is_no_circle() {
    let mut a = PidRegulator::new(3.5f64, 1.0, 0.15, 2.0, Some(f64::INFINITY));
    let mut b = PidRegulator::new(3.5f64, 1.0, 0.15, 2.0, None);
    for current in [-7.0f64, 2.0, 90.0] {
        assert_eq!(a.update(current, 0.5), b.update(current, 0.5));
    }
}
