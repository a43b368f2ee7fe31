use blimp_obsw::attitude::{compute_main_force, compute_rotating_force, Corrections};
use blimp_obsw::elementary::Elementary;
use blimp_obsw::messages::{
    BlimpAction, BlimpEvent, BlimpState, Controls, FlightMode, MessageB2G, MessageG2B, SensorType,
};
use blimp_obsw::obsw_algo::BlimpMainAlgo;
use blimp_obsw::obsw_interface::{BlimpAlgorithm, Reaction};
use blimp_obsw::pid::PidRegulator;
use blimp_obsw::thrust::vectored_thrust;
use blimp_obsw::vector::Vector3;

struct StdMath;

impl Elementary<f32, f64> for StdMath {
    fn ln(x: f64) -> f64 {
        x.ln()
    }

    fn sqrt(x: f64) -> f64 {
        x.sqrt()
    }

    fn powf(base: f64, exponent: f64) -> f64 {
        base.powf(exponent)
    }

    fn asin(x: f64) -> f64 {
        x.asin()
    }

    fn atan2(y: f64, x: f64) -> f64 {
        y.atan2(x)
    }

    fn narrow(x: f64) -> f32 {
        x as f32
    }
}

type Algo = BlimpMainAlgo<f32, f64, StdMath>;
type Action = BlimpAction<f32, f64>;
type Event = BlimpEvent<f32, f64>;

fn controls() -> Controls<f32> {
    Algo::new().inner_state.controls
}

fn learn(algo: &mut Algo, sensor: SensorType, value: f64) {
    let reactions = algo.handle_event(BlimpEvent::SensorDataF64(sensor, value));
    assert_eq!(reactions.len(), 1);
}

fn motor(action: &Action) -> (u8, f32) {
    match action {
        BlimpAction::SetMotor { motor, speed } => (*motor, *speed),
        other => panic!("{:?}", other),
    }
}

fn servo(action: &Action) -> (u8, f32) {
    match action {
        BlimpAction::SetServo { servo, location } => (*servo, *location),
        other => panic!("{:?}", other),
    }
}

fn state(action: &Action) -> BlimpState<f64> {
    match action {
        BlimpAction::SendMsg(msg) => match **msg {
            MessageB2G::BlimpState(state) => state,
            ref other => panic!("{:?}", other),
        },
        other => panic!("{:?}", other),
    }
}

#[test]
fn new_controller_knows_nothing() {
    let algo = Algo::new();
    let s = algo.inner_state;
    assert_eq!(s.curr_flight_mode, FlightMode::Manual);
    assert_eq!(s.controls.throttle_split, [0.0; 4]);
    assert_eq!(s.controls.motors_toggles, [true; 4]);
    assert_eq!(s.controls.motors_reverse, [false; 4]);
    assert_eq!(s.controls.desired_flight_mode, FlightMode::Manual);
    assert!(!s.controls.nav_lights);
    assert_eq!(s.altitude, 0.0);
    assert_eq!(s.gps_location, None);
    assert_eq!(s.acceleration, None);
    assert_eq!(s.heading, 0.0);
    assert_eq!(s.pitch_roll, (0.0, 0.0));
    for pid in [&algo.pids.attitude_pid, &algo.pids.pitch_pid, &algo.pids.roll_pid] {
        assert_eq!(pid.circular, Some(std::f64::consts::PI));
        assert_eq!((pid.setpoint, pid.k_p, pid.k_i, pid.k_d), (0.0, 1.0, 0.15, 2.0));
    }
    assert_eq!(algo.pids.altitude_pid.circular, None);
    assert_eq!(algo.pids.altitude_pid.k_i, 0.15);
}

#[test]
fn barometer_gives_the_altitude() {
    let mut algo = Algo::new();
    learn(&mut algo, SensorType::Barometer, 89874.6);
    let expected = (101325.0f64.ln() - 89874.6f64.ln()) * 29.2718 * 288.15;
    assert_eq!(algo.inner_state.altitude, expected);
    assert!((expected - 1011.0).abs() < 1.0);
    learn(&mut algo, SensorType::Barometer, 101325.0);
    assert_eq!(algo.inner_state.altitude, 0.0);
}

#[test]
fn magnetometer_gives_the_heading() {
    let mut algo = Algo::new();
    learn(&mut algo, SensorType::MagnetometerHeading, 1.25);
    assert_eq!(algo.inner_state.heading, 1.25);
}

#[test]
fn accelerometer_gives_pitch_and_roll() {
    let mut algo = Algo::new();
    learn(&mut algo, SensorType::AccelerometerX, 0.5);
    assert_eq!(algo.inner_state.acceleration, Some((0.5, 0.0, 0.0)));
    assert_eq!(algo.inner_state.pitch_roll, (0.0, 0.0));
    learn(&mut algo, SensorType::AccelerometerY, 1.5);
    assert_eq!(algo.inner_state.acceleration, Some((0.5, 1.5, 0.0)));
    assert_eq!(algo.inner_state.pitch_roll, (0.0, 0.0));
    learn(&mut algo, SensorType::AccelerometerZ, 9.0);
    assert_eq!(algo.inner_state.acceleration, Some((0.5, 1.5, 9.0)));
    let length = (0.5f64 * 0.5 + 1.5 * 1.5 + 9.0 * 9.0).sqrt();
    let expected = ((1.5f64 / length).asin(), (-0.5f64).atan2(9.0));
    assert_eq!(algo.inner_state.pitch_roll, expected);
}

#[test]
fn upside_down_without_side_acceleration_keeps_the_sign_of_zero() {
    let mut algo = Algo::new();
    learn(&mut algo, SensorType::AccelerometerZ, -9.0);
    assert_eq!(algo.inner_state.pitch_roll.1, (-0.0f64).atan2(-9.0));
    assert_eq!(algo.inner_state.pitch_roll.1, -std::f64::consts::PI);
}

#[test]
fn location_comes_in_either_order() {
    let mut algo = Algo::new();
    learn(&mut algo, SensorType::GPSLatitude, 52.2);
    assert_eq!(algo.inner_state.gps_location, Some((52.2, 0.0)));
    learn(&mut algo, SensorType::GPSLongitude, 21.0);
    assert_eq!(algo.inner_state.gps_location, Some((52.2, 21.0)));
    let mut algo = Algo::new();
    learn(&mut algo, SensorType::GPSLongitude, 21.0);
    assert_eq!(algo.inner_state.gps_location, Some((0.0, 21.0)));
    learn(&mut algo, SensorType::GPSLatitude, 52.2);
    assert_eq!(algo.inner_state.gps_location, Some((52.2, 21.0)));
}

#[test]
fn unused_sensors_teach_nothing() {
    let mut algo = Algo::new();
    let before = algo.inner_state;
    for sensor in [
        SensorType::GyroscopeX,
        SensorType::GyroscopeY,
        SensorType::GyroscopeZ,
        SensorType::GPSAltitude,
    ] {
        learn(&mut algo, sensor, 3.0);
        assert_eq!(algo.inner_state, before);
    }
}

#[test]
fn measurements_are_forwarded() {
    let mut algo = Algo::new();
    let reactions =
        algo.handle_event(BlimpEvent::SensorDataF64(SensorType::MagnetometerHeading, 0.5));
    assert_eq!(reactions.len(), 1);
    match &reactions[0] {
        Reaction::Perform(BlimpAction::SendMsg(msg)) => assert!(matches!(
            **msg,
            MessageB2G::ForwardEvent(BlimpEvent::SensorDataF64(
                SensorType::MagnetometerHeading,
                v
            )) if v == 0.5
        )),
        _ => panic!("not forwarded"),
    }
}

#[test]
fn ping_is_answered_and_pong_is_not() {
    let mut algo = Algo::new();
    let before = algo.inner_state;
    let reactions = algo.handle_event(BlimpEvent::GetMsg(MessageG2B::Ping(77)));
    assert_eq!(reactions.len(), 1);
    match &reactions[0] {
        Reaction::Perform(BlimpAction::SendMsg(msg)) => {
            assert!(matches!(**msg, MessageB2G::Pong(77)))
        }
        _ => panic!("not answered"),
    }
    assert!(algo.handle_event(BlimpEvent::GetMsg(MessageG2B::Pong(77))).is_empty());
    assert_eq!(algo.inner_state, before);
}

#[test]
fn controls_from_the_ground_are_scheduled() {
    let mut algo = Algo::new();
    let before = algo.inner_state;
    let wanted = Controls { throttle_main: 0.75, ..controls() };
    let reactions = algo.handle_event(BlimpEvent::GetMsg(MessageG2B::Control(wanted)));
    assert_eq!(algo.inner_state, before);
    assert_eq!(reactions.len(), 1);
    let next: Event = match reactions.into_iter().next() {
        Some(Reaction::Schedule(ev)) => ev,
        _ => panic!("not scheduled"),
    };
    assert!(algo.handle_event(next).is_empty());
    assert_eq!(algo.inner_state.controls, wanted);
}

#[test]
fn only_moving_actions_are_reported() {
    let delivered = Algo::perform_action(BlimpAction::SetMotor { motor: 3, speed: 0.5 });
    assert_eq!(delivered.len(), 2);
    assert_eq!(motor(&delivered[0]), (3, 0.5));
    match &delivered[1] {
        BlimpAction::SendMsg(msg) => match &**msg {
            MessageB2G::ForwardAction(action) => assert_eq!(motor(action), (3, 0.5)),
            other => panic!("{:?}", other),
        },
        other => panic!("{:?}", other),
    }
    let delivered = Algo::perform_action(BlimpAction::SetServo { servo: 6, location: -1.0 });
    assert_eq!(delivered.len(), 2);
    assert_eq!(servo(&delivered[0]), (6, -1.0));
    assert_eq!(Algo::perform_action(BlimpAction::NavLights(0.5)).len(), 1);
    let msg: Action = BlimpAction::SendMsg(Box::new(MessageB2G::Ping(1)));
    let delivered = Algo::perform_action(msg);
    assert_eq!(delivered.len(), 1);
    assert!(matches!(delivered[0], BlimpAction::SendMsg(_)));
}

#[test]
fn manual_flight_sets_motors_and_servos() {
    let mut algo = Algo::new();
    let c = Controls {
        throttle_main: 0.3,
        throttle_split: [0.1, 0.2, -0.1, 0.0],
        yaw: 0.25,
        elevation: 0.4,
        pitch: 0.1,
        roll: 0.05,
        motors_reverse: [false, false, true, false],
        nav_lights: true,
        ..controls()
    };
    algo.handle_event(BlimpEvent::Control(c));
    let actions = algo.step(0.1);
    assert_eq!(actions.len(), 14);
    for i in 0..4usize {
        let left = if i % 2 == 0 { 1.0f32 } else { -1.0 };
        let back = if i < 2 { -1.0f32 } else { 1.0 };
        let reverse = if c.motors_reverse[i] { -1.0f32 } else { 1.0 };
        let speed = (c.throttle_main + c.throttle_split[i]) * reverse + c.yaw * left;
        let down = c.elevation + c.pitch * back + c.roll * left;
        let aside = c.roll * -left + -1.0;
        assert_eq!(motor(&actions[3 * i]), (i as u8, speed));
        assert_eq!(
            servo(&actions[3 * i + 1]),
            (2 * i as u8, (down * left).clamp(-1.0, 1.0) * 90.0)
        );
        assert_eq!(
            servo(&actions[3 * i + 2]),
            (2 * i as u8 + 1, aside.clamp(-1.0, 1.0) * 90.0)
        );
    }
    assert!(matches!(actions[12], BlimpAction::NavLights(l) if l == 0.5));
    let report = state(&actions[13]);
    assert_eq!(report.flight_mode, FlightMode::Manual);
    assert_eq!(report.desired_heading, None);
    assert_eq!(report.desired_altitude, None);
}

#[test]
fn untouched_controls_rest() {
    let mut algo = Algo::new();
    let actions = algo.step(0.1);
    for i in 0..4usize {
        assert_eq!(motor(&actions[3 * i]), (i as u8, 0.0));
        assert_eq!(servo(&actions[3 * i + 1]), (2 * i as u8, 0.0));
        assert_eq!(servo(&actions[3 * i + 2]), (2 * i as u8 + 1, -90.0));
    }
    assert!(matches!(actions[12], BlimpAction::NavLights(l) if l == -1.0));
}

#[test]
fn sticks_turn_the_servos_as_documented() {
    let angles = |c: Controls<f32>| {
        let mut algo = Algo::new();
        algo.handle_event(BlimpEvent::Control(c));
        let actions = algo.step(0.1);
        // Downwards is positive on the left and negative on the right.
        [
            servo(&actions[1]).1,
            -servo(&actions[4]).1,
            servo(&actions[7]).1,
            -servo(&actions[10]).1,
        ]
    };
    assert_eq!(angles(Controls { elevation: 0.5, ..controls() }), [45.0, 45.0, 45.0, 45.0]);
    assert_eq!(angles(Controls { elevation: 5.0, ..controls() }), [90.0, 90.0, 90.0, 90.0]);
    assert_eq!(angles(Controls { pitch: 0.5, ..controls() }), [-45.0, -45.0, 45.0, 45.0]);
    assert_eq!(angles(Controls { roll: 0.5, ..controls() }), [45.0, -45.0, 45.0, -45.0]);
}

#[test]
fn throttle_applies_equally_and_yaw_does_not() {
    let speeds = |c: Controls<f32>| {
        let mut algo = Algo::new();
        algo.handle_event(BlimpEvent::Control(c));
        let actions = algo.step(0.1);
        [0, 3, 6, 9].map(|k| motor(&actions[k]).1)
    };
    assert_eq!(speeds(Controls { throttle_main: 0.5, ..controls() }), [0.5; 4]);
    assert_eq!(
        speeds(Controls { throttle_main: 0.5, yaw: 0.25, ..controls() }),
        [0.75, 0.25, 0.75, 0.25]
    );
}

#[test]
fn motors_off_are_left_alone() {
    let mut algo = Algo::new();
    let c = Controls { motors_toggles: [true, false, false, true], ..controls() };
    algo.handle_event(BlimpEvent::Control(c));
    let actions = algo.step(0.1);
    assert_eq!(actions.len(), 8);
    assert_eq!(motor(&actions[0]).0, 0);
    assert_eq!(servo(&actions[1]).0, 0);
    assert_eq!(servo(&actions[2]).0, 1);
    assert_eq!(motor(&actions[3]).0, 3);
    assert_eq!(servo(&actions[4]).0, 6);
    assert_eq!(servo(&actions[5]).0, 7);
}

fn settings(
    c: &Controls<f32>,
    yaw: f64,
    up: f64,
    pitch: f64,
    roll: f64,
    i: usize,
) -> (f32, f32, f32) {
    let left = if i % 2 == 0 { 1.0f64 } else { -1.0 };
    let front = if i < 2 { 1.0f64 } else { -1.0 };
    let x = (0.0 + yaw * front) + c.sideways as f64;
    let y = (0.0 + c.yaw as f64 * left + yaw * left) + c.throttle_main as f64;
    let z = (0.0 + pitch * front + roll * left) + up;
    let yz = (y.powf(2.0) + z.powf(2.0)).sqrt();
    let magnitude = (x.powf(2.0) + y.powf(2.0) + z.powf(2.0)).sqrt();
    let degrees = |a: f64| (a * 180.0 / std::f64::consts::PI) as f32;
    (degrees(z.atan2(y) * -left), degrees((yz * -1.0).atan2(x)), magnitude as f32)
}

#[test]
fn stabilised_flight_turns_the_motors_to_their_forces() {
    let mut algo = Algo::new();
    learn(&mut algo, SensorType::MagnetometerHeading, 0.7);
    learn(&mut algo, SensorType::AccelerometerX, 0.5);
    learn(&mut algo, SensorType::AccelerometerY, 1.5);
    learn(&mut algo, SensorType::AccelerometerZ, 9.0);
    let c = Controls {
        throttle_main: 0.5,
        sideways: 0.2,
        elevation: 0.1,
        yaw: 0.3,
        desired_flight_mode: FlightMode::Atti,
        motors_toggles: [false; 4],
        ..controls()
    };
    algo.handle_event(BlimpEvent::Control(c));
    let dt = 0.1f64;
    let actions = algo.step(dt);

    let half = Some(std::f64::consts::PI);
    let setpoint = 0.7 + 0.25 * c.yaw as f64 * dt;
    let mut attitude = PidRegulator::new(setpoint, 1.0, 0.15, 2.0, half);
    let yaw = attitude.update(0.7, dt);
    let (p, r) = algo.inner_state.pitch_roll;
    let pitch = PidRegulator::new(0.0, 1.0, 0.15, 2.0, half).update(p, dt);
    let roll = PidRegulator::new(0.0, 1.0, 0.15, 2.0, half).update(r, dt);

    assert_eq!(actions.len(), 14);
    for i in 0..4usize {
        let expected = settings(&c, yaw, c.elevation as f64, pitch, roll, i);
        assert_eq!(servo(&actions[3 * i]), (2 * i as u8, expected.0));
        assert_eq!(servo(&actions[3 * i + 1]), (2 * i as u8 + 1, expected.1));
        assert_eq!(motor(&actions[3 * i + 2]), (i as u8, expected.2));
    }
    let report = state(&actions[13]);
    assert_eq!(report.flight_mode, FlightMode::Atti);
    assert_eq!(report.desired_heading, Some(setpoint));
    assert_eq!(report.desired_altitude, None);
    assert_eq!((report.pitch, report.roll), (p, r));
    assert_eq!(algo.pids.altitude_pid.previous_deviation, 0.0);
    assert_eq!(algo.pids.altitude_pid.setpoint, 0.0);
}

#[test]
fn held_altitude_takes_the_place_of_the_elevation() {
    let mut algo = Algo::new();
    learn(&mut algo, SensorType::Barometer, 95000.0);
    let held = algo.inner_state.altitude;
    let c = Controls {
        elevation: 0.6,
        desired_flight_mode: FlightMode::AltiAtti,
        ..controls()
    };
    algo.handle_event(BlimpEvent::Control(c));
    let dt = 0.5f64;
    let actions = algo.step(dt);
    let setpoint = held + 0.5 * c.elevation as f64 * dt;
    let up = PidRegulator::new(setpoint, 1.0, 0.15, 2.0, None).update(held, dt);
    for i in 0..4usize {
        let expected = settings(&c, 0.0, up, 0.0, 0.0, i);
        assert_eq!(servo(&actions[3 * i]), (2 * i as u8, expected.0));
        assert_eq!(servo(&actions[3 * i + 1]), (2 * i as u8 + 1, expected.1));
        assert_eq!(motor(&actions[3 * i + 2]), (i as u8, expected.2));
    }
    let report = state(&actions[13]);
    assert_eq!(report.flight_mode, FlightMode::AltiAtti);
    assert_eq!(report.altitude, held);
    assert_eq!(report.desired_altitude, Some(setpoint));
    assert_eq!(report.desired_heading, Some(0.0));
}

#[test]
fn held_values_persist_until_the_mode_changes() {
    let mut algo = Algo::new();
    learn(&mut algo, SensorType::MagnetometerHeading, 0.5);
    let atti = Controls { yaw: 1.0, desired_flight_mode: FlightMode::Atti, ..controls() };
    algo.handle_event(BlimpEvent::Control(atti));
    algo.step(0.5);
    assert_eq!(algo.pids.attitude_pid.setpoint, 0.625);
    learn(&mut algo, SensorType::MagnetometerHeading, 0.75);
    algo.step(0.5);
    assert_eq!(algo.pids.attitude_pid.setpoint, 0.75);
    algo.handle_event(BlimpEvent::Control(Controls { yaw: 0.0, ..atti }));
    learn(&mut algo, SensorType::MagnetometerHeading, 2.0);
    algo.step(0.5);
    assert_eq!(algo.pids.attitude_pid.setpoint, 0.75);

    algo.handle_event(BlimpEvent::Control(controls()));
    algo.step(0.5);
    assert_eq!(algo.inner_state.curr_flight_mode, FlightMode::Manual);
    assert_eq!(algo.pids.attitude_pid.setpoint, 0.75);

    let alti = Controls { desired_flight_mode: FlightMode::AltiAtti, ..controls() };
    algo.handle_event(BlimpEvent::Control(alti));
    algo.step(0.5);
    assert_eq!(algo.pids.attitude_pid.setpoint, 2.0);
}

#[test]
fn manual_flight_leaves_the_regulators_alone() {
    let mut algo = Algo::new();
    learn(&mut algo, SensorType::AccelerometerY, 3.0);
    learn(&mut algo, SensorType::AccelerometerZ, 9.0);
    algo.step(0.5);
    assert_eq!(algo.pids.pitch_pid.deviation_integral, 0.0);
    assert_eq!(algo.pids.pitch_pid.previous_deviation, 0.0);
}

#[test]
fn tilt_and_heading_are_corrected() {
    let fly = |sensor: SensorType, value: f64| {
        let mut algo = Algo::new();
        let c = Controls { desired_flight_mode: FlightMode::Atti, ..controls() };
        algo.handle_event(BlimpEvent::Control(c));
        algo.step(0.5);
        learn(&mut algo, sensor, value);
        learn(&mut algo, SensorType::AccelerometerZ, 9.0);
        let actions = algo.step(0.5);
        [0, 3, 6, 9, 1, 4, 7, 10].map(|k| servo(&actions[k]).1)
    };
    // Upwards is negative on the left and positive on the right.
    let pitched = fly(SensorType::AccelerometerY, 1.0);
    assert!(pitched[0] > 0.0 && pitched[1] < 0.0, "{:?}", pitched);
    assert!(pitched[2] < 0.0 && pitched[3] > 0.0, "{:?}", pitched);
    let rolled = fly(SensorType::AccelerometerX, -1.0);
    assert!(rolled[0] > 0.0 && rolled[1] > 0.0, "{:?}", rolled);
    assert!(rolled[2] > 0.0 && rolled[3] > 0.0, "{:?}", rolled);
    // Turned clockwise of the held heading, the left pushes backward.
    let turned = fly(SensorType::MagnetometerHeading, 0.5);
    assert!(turned[0].abs() == 180.0 && turned[1].abs() == 0.0, "{:?}", turned);
    // The front pushes to the left and the back to the right, as strongly.
    assert_eq!(turned[4..], [-135.0, -135.0, -45.0, -45.0]);
}

#[test]
fn events_keep_the_mode_and_what_they_are_not_about() {
    let mut algo = Algo::new();
    let c = Controls { desired_flight_mode: FlightMode::Atti, ..controls() };
    algo.handle_event(BlimpEvent::Control(c));
    assert_eq!(algo.inner_state.curr_flight_mode, FlightMode::Manual);
    let before = algo.inner_state;
    learn(&mut algo, SensorType::MagnetometerHeading, 1.0);
    learn(&mut algo, SensorType::Barometer, 100000.0);
    let after = algo.inner_state;
    assert_eq!(after.controls, c);
    assert_eq!(after.curr_flight_mode, FlightMode::Manual);
    assert_eq!(after.acceleration, before.acceleration);
    assert_eq!(after.gps_location, before.gps_location);
    assert_eq!(after.pitch_roll, before.pitch_roll);
    assert_eq!(algo.pids.attitude_pid.setpoint, 0.0);
}

#[test]
fn regulators_stay_sound_over_many_steps() {
    let mut algo = Algo::new();
    let modes = [FlightMode::Atti, FlightMode::AltiAtti, FlightMode::Manual];
    for k in 0..30usize {
        let c = Controls {
            yaw: 0.1 * k as f32,
            elevation: -0.05 * k as f32,
            desired_flight_mode: modes[k % 7 % 3],
            ..controls()
        };
        algo.handle_event(BlimpEvent::Control(c));
        learn(&mut algo, SensorType::AccelerometerX, 0.3 * k as f64);
        learn(&mut algo, SensorType::AccelerometerZ, 9.0);
        algo.step(0.05);
        assert_eq!(algo.inner_state.curr_flight_mode, modes[k % 7 % 3]);
        assert_eq!(algo.pids.pitch_pid.setpoint, 0.0);
        assert_eq!(algo.pids.roll_pid.setpoint, 0.0);
        for pid in [&algo.pids.attitude_pid, &algo.pids.pitch_pid, &algo.pids.roll_pid] {
            assert_eq!(pid.circular, Some(std::f64::consts::PI));
            assert_eq!((pid.k_p, pid.k_i, pid.k_d), (1.0, 0.15, 2.0));
        }
        assert_eq!(algo.pids.altitude_pid.circular, None);
    }
}

#[test]
fn held_altitude_persists_and_is_sought() {
    let mut algo = Algo::new();
    let c = Controls {
        elevation: 1.0,
        desired_flight_mode: FlightMode::AltiAtti,
        ..controls()
    };
    algo.handle_event(BlimpEvent::Control(c));
    let actions = algo.step(0.5);
    assert_eq!(algo.pids.altitude_pid.setpoint, 0.25);
    // Below the altitude that is held, the servos on the left point straight up.
    assert_eq!(servo(&actions[0]), (0, -90.0));
    algo.step(0.5);
    assert_eq!(algo.pids.altitude_pid.setpoint, 0.5);
    algo.handle_event(BlimpEvent::Control(Controls { elevation: 0.0, ..c }));
    learn(&mut algo, SensorType::Barometer, 90000.0);
    let actions = algo.step(0.5);
    assert_eq!(algo.pids.altitude_pid.setpoint, 0.5);
    assert_eq!(servo(&actions[0]), (0, 90.0));
}

#[test]
fn roll_turns_one_side_only() {
    let angles = |c: Controls<f32>| {
        let mut algo = Algo::new();
        algo.handle_event(BlimpEvent::Control(c));
        let actions = algo.step(0.1);
        [2, 5, 8, 11].map(|k| servo(&actions[k]).1)
    };
    assert_eq!(angles(Controls { roll: 0.5, ..controls() }), [-90.0, -45.0, -90.0, -45.0]);
    assert_eq!(angles(Controls { roll: -0.5, ..controls() }), [-45.0, -90.0, -45.0, -90.0]);
    assert_eq!(angles(Controls { yaw: 0.5, ..controls() }), [-90.0; 4]);
}

#[test]
fn higher_pressure_means_lower_altitude() {
    let altitude = |pressure: f64| {
        let mut algo = Algo::new();
        learn(&mut algo, SensorType::Barometer, pressure);
        algo.inner_state.altitude
    };
    assert!(altitude(90000.0) > altitude(95000.0));
    assert!(altitude(95000.0) > 0.0);
    assert_eq!(altitude(101325.0), 0.0);
    assert!(altitude(103000.0) < 0.0);
}

#[test]
fn only_the_sums_of_the_forces_matter() {
    let at = |x: f64, y: f64, z: f64| Vector3 { x, y, z };
    let thrust = |main: Vector3<f64>, rotating: &[Vector3<f64>]| {
        let actions = vectored_thrust::<f32, f64, StdMath>(main, rotating);
        assert_eq!(actions.len(), 6);
        [
            servo(&actions[0]),
            servo(&actions[1]),
            motor(&actions[2]),
            servo(&actions[3]),
            servo(&actions[4]),
            motor(&actions[5]),
        ]
    };
    let a = thrust(at(1.0, 2.0, 2.0), &[at(0.0, 0.0, 0.0), at(-1.0, 1.0, -2.0)]);
    let b = thrust(at(0.0, 3.0, 0.0), &[at(1.0, -1.0, 2.0), at(0.0, 0.0, 0.0)]);
    assert_eq!(a, b);
    assert_eq!(a, [(0, -45.0), (1, a[1].1), (0, 3.0), (2, 0.0), (3, -90.0), (1, 3.0)]);
}

#[test]
fn same_knowledge_leads_to_the_same_step() {
    let fly = || {
        let mut algo = Algo::new();
        learn(&mut algo, SensorType::AccelerometerX, 0.5);
        learn(&mut algo, SensorType::AccelerometerZ, 9.0);
        let c = Controls { yaw: 0.5, desired_flight_mode: FlightMode::Atti, ..controls() };
        algo.handle_event(BlimpEvent::Control(c));
        let actions = algo.step(0.25);
        let settings = [0, 3, 6, 9].map(|k| (servo(&actions[k]), motor(&actions[k + 2])));
        (algo.inner_state, settings, state(&actions[13]))
    };
    assert_eq!(fly(), fly());
}

#[test]
fn rotating_forces_cancel_out() {
    let c: Controls<i32> = Controls {
        throttle_main: 7,
        throttle_split: [0; 4],
        sideways: -3,
        elevation: 2,
        pitch: 0,
        roll: 0,
        yaw: 5,
        desired_flight_mode: FlightMode::Atti,
        motors_toggles: [true; 4],
        motors_reverse: [false; 4],
        nav_lights: false,
    };
    let corrections = Corrections { yaw: 11i64, altitude: None, pitch: 13, roll: 17 };
    let main = compute_main_force::<i32, i64>(&c, corrections);
    assert_eq!((main.x, main.y, main.z), (-3, 7, 2));
    let held = Corrections { altitude: Some(40), ..corrections };
    assert_eq!(compute_main_force::<i32, i64>(&c, held).z, 40);
    let own = [0u8, 1, 2, 3].map(|i| compute_rotating_force::<i32, i64>(&c, corrections, i));
    assert_eq!(own.map(|f| (f.x, f.y, f.z)), [
        (11, 16, 30),
        (11, -16, -4),
        (-11, 16, 4),
        (-11, -16, -30),
    ]);
    let mut sum = main.plus(main).plus(main).plus(main);
    for f in own {
        sum = sum.plus(f);
    }
    assert_eq!((sum.x, sum.y, sum.z), (4 * main.x, 4 * main.y, 4 * main.z));
}
