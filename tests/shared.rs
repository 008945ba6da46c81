use drone::flight::{DroneCommand, DroneCoreState, ImuSample};
use drone::radio::RadioCommand;
use drone::shared::SharedState;
use drone::vector3::Vector3;

fn state(t: u64, mode: DroneCommand) -> DroneCoreState {
    let sample = ImuSample {
        acceleration: Vector3::new(1, 2, 3),
        angular_velocity: Vector3::new(4, 5, 6),
        tilt: [7, 8],
        timestamp: t,
    };
    let c = RadioCommand {
        z_throttle: t as i32,
        y_throttle: 0,
        x_throttle: 0,
        twist_throttle: 0,
        mode_select: 1,
        aux: 0,
    };
    let mut s = DroneCoreState::new(sample, c);
    s.current_command = mode;
    s
}

#[test]
fn snapshot_is_the_last_published_state() {
    let first = state(1, DroneCommand::FallOutOfTheSky);
    let mut guard = SharedState::new(first);
    assert_eq!(guard.snapshot(), first);
    let second = state(2, DroneCommand::NormalControl);
    guard.publish(second);
    let copy = guard.snapshot();
    assert_eq!(copy, second);
    let third = state(3, DroneCommand::Land);
    guard.publish(third);
    // an earlier copy is not touched by a later publish
    assert_eq!(copy, second);
    assert_eq!(guard.snapshot(), third);
}
