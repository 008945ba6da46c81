use drone::flight::{
    elapsed_ticks, mode_for_select, Acquisition, DroneCommand, DroneCoreState, FlightSystem,
    ImuSample, IMU_FAILURE_THRESHOLD, RADIO_FULL_FAILURE_THRESHOLD,
    RADIO_TEMPORARY_FAILURE_THRESHOLD,
};
use drone::mixer::{duty, duty_cycles, full_manual, MIN_THROTTLE};
use drone::radio::{RadioCommand, RadioError};
use drone::vector3::Vector3;

fn sample(t: u64) -> ImuSample {
    ImuSample {
        acceleration: Vector3::new(0, 0, 1000),
        angular_velocity: Vector3::new(0, 0, 0),
        tilt: [0, 0],
        timestamp: t,
    }
}

fn command(mode_select: u8) -> RadioCommand {
    RadioCommand {
        z_throttle: 400,
        y_throttle: 0,
        x_throttle: 0,
        twist_throttle: 0,
        mode_select,
        aux: 0,
    }
}

fn acquisition() -> Acquisition {
    let state = DroneCoreState::new(sample(0), command(0));
    Acquisition::new(state, 20, 1000, 100, 10_000)
}

#[test]
fn mode_selection() {
    assert_eq!(mode_for_select(0), DroneCommand::FallOutOfTheSky);
    assert_eq!(mode_for_select(1), DroneCommand::NormalControl);
    assert_eq!(mode_for_select(2), DroneCommand::FullManual);
    assert_eq!(mode_for_select(7), DroneCommand::FallOutOfTheSky);
}

#[test]
fn boots_with_motors_cut() {
    let a = acquisition();
    assert_eq!(a.state.current_command, DroneCommand::FallOutOfTheSky);
}

#[test]
fn fresh_frame_selects_mode() {
    let mut a = acquisition();
    let s = a.step(Some(sample(1000)), Ok(command(1)));
    assert_eq!(s.current_command, DroneCommand::NormalControl);
    assert_eq!(s.failed_radio_count, 0);
    let s = a.step(Some(sample(2000)), Ok(command(2)));
    assert_eq!(s.current_command, DroneCommand::FullManual);
}

#[test]
fn pilot_demand_is_scaled() {
    let mut a = acquisition();
    let mut c = command(1);
    c.x_throttle = 1000;
    c.y_throttle = -500;
    c.twist_throttle = 250;
    c.aux = 42;
    let s = a.step(Some(sample(1000)), Ok(c));
    assert_eq!(s.desired_angle, [20_000, -10_000]);
    assert_eq!(s.desired_twist, 25_000);
    assert_eq!(s.aux, 42);
    assert_eq!(s.raw_command, c);
}

#[test]
fn radio_loss_lands_then_cuts() {
    let mut a = acquisition();
    a.step(Some(sample(1)), Ok(command(1)));
    let mut last = a.state;
    for i in 0..RADIO_TEMPORARY_FAILURE_THRESHOLD {
        last = a.step(Some(sample(2 + i as u64)), Err(RadioError::NoNewData));
        assert_eq!(last.current_command, DroneCommand::NormalControl);
    }
    last = a.step(Some(sample(500)), Err(RadioError::ChecksumError));
    assert_eq!(last.failed_radio_count, RADIO_TEMPORARY_FAILURE_THRESHOLD + 1);
    assert_eq!(last.current_command, DroneCommand::Land);
    while last.failed_radio_count <= RADIO_FULL_FAILURE_THRESHOLD {
        assert_eq!(last.current_command, DroneCommand::Land);
        last = a.step(None, Err(RadioError::ReadError(None)));
    }
    assert_eq!(last.current_command, DroneCommand::FallOutOfTheSky);
    for _ in 0..70_000 {
        last = a.step(Some(sample(9)), Err(RadioError::NoNewData));
    }
    assert_eq!(last.failed_radio_count, u16::MAX);
    assert_eq!(last.current_command, DroneCommand::FallOutOfTheSky);
    // only a fresh frame brings a flight mode back
    last = a.step(Some(sample(10)), Ok(command(2)));
    assert_eq!(last.current_command, DroneCommand::FullManual);
}

#[test]
fn sensor_loss_cuts_motors() {
    let mut a = acquisition();
    let mut last = a.step(Some(sample(1)), Ok(command(1)));
    for _ in 0..IMU_FAILURE_THRESHOLD {
        last = a.step(None, Ok(command(1)));
        assert_eq!(last.current_command, DroneCommand::NormalControl);
    }
    last = a.step(None, Ok(command(1)));
    assert_eq!(last.failed_imu_count, IMU_FAILURE_THRESHOLD + 1);
    assert_eq!(last.current_command, DroneCommand::FallOutOfTheSky);
    for _ in 0..300 {
        last = a.step(None, Ok(command(1)));
    }
    assert_eq!(last.failed_imu_count, u8::MAX);
    last = a.step(Some(sample(2)), Ok(command(1)));
    assert_eq!(last.failed_imu_count, 0);
    assert_eq!(last.current_command, DroneCommand::NormalControl);
}

#[test]
fn failed_sensor_read_keeps_estimate() {
    let mut a = acquisition();
    let mut tilted = sample(10_000);
    tilted.angular_velocity = Vector3::new(100_000, -50_000, 0);
    tilted.acceleration = Vector3::new(0, 0, 0);
    let s = a.step(Some(tilted), Ok(command(1)));
    assert_eq!(s.true_angle, [1000, -500]);
    let s = a.step(None, Ok(command(1)));
    assert_eq!(s.true_angle, [1000, -500]);
    assert_eq!(s.last_sample, tilted);
}

#[test]
fn elapsed_handles_wraparound() {
    assert_eq!(elapsed_ticks(1500, 1000), 500);
    assert_eq!(elapsed_ticks(4, u64::MAX - 5), 10);
    assert_eq!(elapsed_ticks(7, 7), 0);
}

#[test]
fn control_dispatch_by_mode() {
    let mut state = DroneCoreState::new(sample(0), command(0));
    let mut fs = FlightSystem::new(100);
    assert_eq!(fs.control_step(&state, 200), [MIN_THROTTLE; 4]);
    assert_eq!(fs.last_time, 200);
    state.current_command = DroneCommand::Land;
    assert_eq!(fs.control_step(&state, 300), [MIN_THROTTLE; 4]);
    state.current_command = DroneCommand::Calibrate;
    assert_eq!(fs.control_step(&state, 400), [duty(400); 4]);
    state.current_command = DroneCommand::FullManual;
    state.raw_command.x_throttle = 500;
    assert_eq!(fs.control_step(&state, 500), full_manual(&state.raw_command));
}

#[test]
fn normal_control_holds_level_attitude() {
    let mut state = DroneCoreState::new(sample(0), command(1));
    state.current_command = DroneCommand::NormalControl;
    let mut fs = FlightSystem::new(0);
    assert_eq!(fs.control_step(&state, 10_000), duty_cycles([400; 4]));
    state.current_command = DroneCommand::Hover;
    assert_eq!(fs.control_step(&state, 20_000), duty_cycles([400; 4]));
}

#[test]
fn normal_control_corrects_roll() {
    let mut state = DroneCoreState::new(sample(0), command(1));
    state.current_command = DroneCommand::NormalControl;
    state.desired_angle = [10_000, 0];
    let mut fs = FlightSystem::new(0);
    // roll error 10 degrees: 0.02 * 10000 = 200 proportional, plus the
    // derivative of a step from zero over 0.01 s: 0.004 * 1_000_000 = 4000
    let d = fs.control_step(&state, 10_000);
    let roll = 200 + 4000;
    let mixed = [400 + roll, 400 - roll, 400 - roll, 400 + roll];
    let max = 400 + roll;
    let scaled: Vec<i64> = mixed.iter().map(|v| v * 1000 / max).collect();
    assert_eq!(d, duty_cycles([scaled[0], scaled[1], scaled[2], scaled[3]]));
    assert_eq!(d[0], duty(1000));
}
