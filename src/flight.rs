//! Operating modes, the state shared between the two tasks, and the per-cycle
//! decisions of the acquisition task and of the control task.
//!
//! The acquisition task polls the sensors and the receiver, then hands the
//! outcome of each poll to [`Acquisition::step`], which counts faults, updates
//! the tilt estimate and picks the operating mode. The control task hands each
//! snapshot it takes to [`FlightSystem::control_step`], which returns the four
//! motor pulse widths.
use vstd::prelude::*;
use crate::arith::abs;
use crate::controller::{pd_output, rate_of, PD};
use crate::estimator::{ComplementaryFilter, HALF_TURN};
use crate::mixer::{
    duties, duty_cycles, duty_ints, fall_out_of_the_sky, full_manual, ints, manual_duties, mix,
    mixed, saturated, unreliable_speeds, MIN_THROTTLE,
};
use crate::radio::{RadioCommand, RadioError, UNIT};
use crate::vector3::Vector3;

verus! {

/// Failed sensor reads in a row beyond which the vehicle stops flying.
pub const IMU_FAILURE_THRESHOLD: u8 = 100;

/// Failed radio reads in a row beyond which the vehicle lands.
pub const RADIO_TEMPORARY_FAILURE_THRESHOLD: u16 = 100;

/// Failed radio reads in a row beyond which the motors are cut.
pub const RADIO_FULL_FAILURE_THRESHOLD: u16 = 2000;

/// Tilt asked for by one per-mille of stick deflection, in millidegrees
/// (full deflection: 20 degrees).
pub const TILT_PER_UNIT: i64 = 20;

/// Yaw rate asked for by one per-mille of stick deflection, in millidegrees
/// per second (full deflection: 100 degrees per second).
pub const TWIST_PER_UNIT: i64 = 100;

/// Tuning of the roll and pitch angle controllers (gains in millionths).
pub const TILT_K_P: i64 = 20_000;
pub const TILT_K_D: i64 = 4_000;

/// Tuning of the yaw rate controller (gains in millionths).
pub const YAW_K_P: i64 = 5_000;
pub const YAW_K_D: i64 = 0;

/// The operating mode of the vehicle.
#[derive(Clone, Copy, Debug, PartialEq, Eq, Structural)]
pub enum DroneCommand {
    Land,
    Calibrate,
    FullManual,
    NormalControl,
    Hover,
    FallOutOfTheSky,
}

/// Modes in which the motors may turn; the others command zero thrust.
pub open spec fn is_flight_mode(m: DroneCommand) -> bool {
    !(m is Land || m is FallOutOfTheSky)
}

/// The mode that the pilot's mode selector asks for.
pub open spec fn selected_mode(mode_select: u8) -> DroneCommand {
    if mode_select == 1 {
        DroneCommand::NormalControl
    } else if mode_select == 2 {
        DroneCommand::FullManual
    } else {
        DroneCommand::FallOutOfTheSky
    }
}

pub fn mode_for_select(mode_select: u8) -> (r: DroneCommand)
    ensures
        r == selected_mode(mode_select),
{
    match mode_select {
        1 => DroneCommand::NormalControl,
        2 => DroneCommand::FullManual,
        _ => DroneCommand::FallOutOfTheSky,
    }
}

/// The mode transition policy, highest priority first: radio lost for good,
/// radio lost for a while, sensor lost, a fresh frame's selection; otherwise
/// the mode stays. The fault counts are those after the current cycle.
pub open spec fn next_mode(
    mode: DroneCommand,
    failed_imu: int,
    failed_radio: int,
    frame: Option<RadioCommand>,
) -> DroneCommand {
    if failed_radio > RADIO_FULL_FAILURE_THRESHOLD {
        DroneCommand::FallOutOfTheSky
    } else if failed_radio > RADIO_TEMPORARY_FAILURE_THRESHOLD {
        DroneCommand::Land
    } else if failed_imu > IMU_FAILURE_THRESHOLD {
        DroneCommand::FallOutOfTheSky
    } else if frame is Some {
        selected_mode(frame->0.mode_select)
    } else {
        mode
    }
}

/// A fault counter one higher, held at its ceiling.
pub open spec fn bumped(count: int, ceiling: int) -> int {
    if count < ceiling {
        count + 1
    } else {
        count
    }
}

pub open spec fn frame_of(radio: Result<RadioCommand, RadioError>) -> Option<RadioCommand> {
    match radio {
        Ok(c) => Some(c),
        Err(_) => None,
    }
}

/// Mode and fault counts (sensor, radio) after one acquisition cycle.
pub open spec fn fault_step(
    s: (DroneCommand, int, int),
    imu_ok: bool,
    frame: Option<RadioCommand>,
) -> (DroneCommand, int, int) {
    let failed_imu = if imu_ok {
        0
    } else {
        bumped(s.1, u8::MAX as int)
    };
    let failed_radio = if frame is Some {
        0
    } else {
        bumped(s.2, u16::MAX as int)
    };
    (next_mode(s.0, failed_imu, failed_radio, frame), failed_imu, failed_radio)
}

/// Mode and fault counts after a run of acquisition cycles, each given as
/// whether the sensor read succeeded and the fresh frame, if any.
pub open spec fn fault_run(
    s: (DroneCommand, int, int),
    events: Seq<(bool, Option<RadioCommand>)>,
) -> (DroneCommand, int, int)
    decreases events.len(),
{
    if events.len() == 0 {
        s
    } else {
        fault_run(fault_step(s, events[0].0, events[0].1), events.drop_first())
    }
}

/// Ticks from `last` to `now` on a free-running 64-bit counter that may have
/// wrapped around once.
pub open spec fn elapsed(now: int, last: int) -> int {
    if now >= last {
        now - last
    } else {
        now - last + 0x1_0000_0000_0000_0000
    }
}

pub fn elapsed_ticks(now: u64, last: u64) -> (r: u64)
    ensures
        r == elapsed(now as int, last as int),
{
    if now >= last {
        now - last
    } else {
        (u64::MAX - last) + now + 1
    }
}

/// One sample of the inertial sensor.
#[derive(Clone, Copy, Debug, PartialEq, Eq)]
pub struct ImuSample {
    /// Specific force, milli-g.
    pub acceleration: Vector3<i32>,
    /// Angular velocity, millidegrees per second.
    pub angular_velocity: Vector3<i32>,
    /// Roll and pitch that the acceleration alone indicates (the arctangent
    /// of the gravity components), millidegrees.
    pub tilt: [i64; 2],
    /// Timer ticks when the sample was read.
    pub timestamp: u64,
}

impl ImuSample {
    pub open spec fn wf(&self) -> bool {
        &&& -HALF_TURN <= self.tilt[0] <= HALF_TURN
        &&& -HALF_TURN <= self.tilt[1] <= HALF_TURN
    }
}

/// State of peripherals beyond the sensor and the receiver; there are none yet.
#[derive(Clone, Copy, Debug, PartialEq, Eq)]
pub struct DronePeripheralState {}

/// The snapshot shared between the acquisition and control tasks.
#[derive(Clone, Copy, Debug, PartialEq, Eq)]
pub struct DroneCoreState {
    /// The last sample read from the inertial sensor.
    pub last_sample: ImuSample,
    /// Best estimate of roll and pitch, millidegrees.
    pub true_angle: [i64; 2],
    /// Roll and pitch that the pilot asks for, millidegrees.
    pub desired_angle: [i64; 2],
    /// Yaw rate that the pilot asks for, millidegrees per second.
    pub desired_twist: i64,
    /// The pilot's auxiliary tuning knob, per-mille.
    pub aux: i32,
    pub current_command: DroneCommand,
    /// The last valid pilot command.
    pub raw_command: RadioCommand,
    pub failed_imu_count: u8,
    pub failed_radio_count: u16,
}

impl DroneCoreState {
    pub open spec fn wf(&self) -> bool {
        &&& self.last_sample.wf()
        &&& self.raw_command.wf()
        &&& -HALF_TURN <= self.true_angle[0] <= HALF_TURN
        &&& -HALF_TURN <= self.true_angle[1] <= HALF_TURN
        &&& abs(self.desired_angle[0] as int) <= TILT_PER_UNIT * UNIT
        &&& abs(self.desired_angle[1] as int) <= TILT_PER_UNIT * UNIT
        &&& abs(self.desired_twist as int) <= TWIST_PER_UNIT * UNIT
    }

    pub open spec fn faults(&self) -> (DroneCommand, int, int) {
        (self.current_command, self.failed_imu_count as int, self.failed_radio_count as int)
    }

    /// The state at boot: the first sample and command, level attitude
    /// demand, and the motors cut until the pilot selects a mode.
    pub fn new(sample: ImuSample, command: RadioCommand) -> (r: DroneCoreState)
        requires
            sample.wf(),
            command.wf(),
        ensures
            r.wf(),
            r.last_sample == sample,
            r.true_angle == sample.tilt,
            r.desired_angle == [0i64, 0i64],
            r.desired_twist == 0,
            r.aux == command.aux,
            r.current_command == DroneCommand::FallOutOfTheSky,
            r.raw_command == command,
            r.failed_imu_count == 0,
            r.failed_radio_count == 0,
    {
        DroneCoreState {
            last_sample: sample,
            true_angle: sample.tilt,
            desired_angle: [0, 0],
            desired_twist: 0,
            aux: command.aux,
            current_command: DroneCommand::FallOutOfTheSky,
            raw_command: command,
            failed_imu_count: 0,
            failed_radio_count: 0,
        }
    }
}

/// The acquisition task's own state: the published snapshot and one tilt
/// filter per axis.
pub struct Acquisition {
    pub state: DroneCoreState,
    pub roll: ComplementaryFilter,
    pub pitch: ComplementaryFilter,
}

impl Acquisition {
    pub open spec fn wf(&self) -> bool {
        &&& self.state.wf()
        &&& self.roll.wf()
        &&& self.pitch.wf()
        &&& self.state.true_angle[0] == self.roll.angle
        &&& self.state.true_angle[1] == self.pitch.angle
    }

    /// Starts from a boot state; both filters start at its tilt estimate.
    pub fn new(
        state: DroneCoreState,
        a_weight: i64,
        gravity: i64,
        gravity_tolerance: i64,
        max_disagreement: i64,
    ) -> (r: Acquisition)
        requires
            state.wf(),
            0 <= a_weight <= UNIT,
            0 <= gravity <= crate::estimator::MAX_GRAVITY,
            0 <= gravity_tolerance <= crate::estimator::MAX_GRAVITY,
            0 <= max_disagreement,
        ensures
            r.wf(),
            r.state == state,
            r.roll == (ComplementaryFilter { angle: state.true_angle[0], a_weight, gravity, gravity_tolerance, max_disagreement }),
            r.pitch == (ComplementaryFilter { angle: state.true_angle[1], a_weight, gravity, gravity_tolerance, max_disagreement }),
    {
        let roll = ComplementaryFilter::new(
            state.true_angle[0],
            a_weight,
            gravity,
            gravity_tolerance,
            max_disagreement,
        );
        let pitch = ComplementaryFilter::new(
            state.true_angle[1],
            a_weight,
            gravity,
            gravity_tolerance,
            max_disagreement,
        );
        Acquisition { state, roll, pitch }
    }

    /// One acquisition cycle: takes the outcome of the sensor read (`None`
    /// when it failed) and of the radio read, and returns the snapshot to
    /// publish.
    pub fn step(&mut self, imu: Option<ImuSample>, radio: Result<RadioCommand, RadioError>) -> (r: DroneCoreState)
        requires
            old(self).wf(),
            imu is Some ==> imu->0.wf(),
            radio is Ok ==> radio->Ok_0.wf(),
        ensures
            final(self).wf(),
            final(self).state == r,
            r.faults() == fault_step(old(self).state.faults(), imu is Some, frame_of(radio)),
            imu is Some ==> ({
                let s = imu->0;
                let dt = elapsed(s.timestamp as int, old(self).state.last_sample.timestamp as int);
                &&& r.last_sample == s
                &&& r.true_angle[0] == old(self).roll.next_angle(
                    s.acceleration,
                    s.tilt[0] as int,
                    s.angular_velocity.x as int,
                    dt,
                )
                &&& r.true_angle[1] == old(self).pitch.next_angle(
                    s.acceleration,
                    s.tilt[1] as int,
                    s.angular_velocity.y as int,
                    dt,
                )
            }),
            imu is None ==> r.last_sample == old(self).state.last_sample
                && r.true_angle == old(self).state.true_angle,
            radio is Ok ==> ({
                let c = radio->Ok_0;
                &&& r.raw_command == c
                &&& r.desired_angle[0] == c.x_throttle * TILT_PER_UNIT
                &&& r.desired_angle[1] == c.y_throttle * TILT_PER_UNIT
                &&& r.desired_twist == c.twist_throttle * TWIST_PER_UNIT
                &&& r.aux == c.aux
            }),
            radio is Err ==> r.raw_command == old(self).state.raw_command
                && r.desired_angle == old(self).state.desired_angle
                && r.desired_twist == old(self).state.desired_twist
                && r.aux == old(self).state.aux,
    {
        let mut s = self.state;
        match imu {
            Some(sample) => {
                s.failed_imu_count = 0;
                let dt = elapsed_ticks(sample.timestamp, s.last_sample.timestamp);
                let roll = self.roll.push(
                    sample.acceleration,
                    sample.tilt[0],
                    sample.angular_velocity.x,
                    dt,
                );
                let pitch = self.pitch.push(
                    sample.acceleration,
                    sample.tilt[1],
                    sample.angular_velocity.y,
                    dt,
                );
                s.true_angle = [roll, pitch];
                s.last_sample = sample;
            },
            None => {
                if s.failed_imu_count < u8::MAX {
                    s.failed_imu_count = s.failed_imu_count + 1;
                }
            },
        }
        let fresh = match radio {
            Ok(c) => {
                s.failed_radio_count = 0;
                s.raw_command = c;
                s.desired_angle = [c.x_throttle as i64 * TILT_PER_UNIT, c.y_throttle as i64 * TILT_PER_UNIT];
                s.desired_twist = c.twist_throttle as i64 * TWIST_PER_UNIT;
                s.aux = c.aux;
                true
            },
            Err(_) => {
                if s.failed_radio_count < u16::MAX {
                    s.failed_radio_count = s.failed_radio_count + 1;
                }
                false
            },
        };
        s.current_command = if s.failed_radio_count > RADIO_FULL_FAILURE_THRESHOLD {
            DroneCommand::FallOutOfTheSky
        } else if s.failed_radio_count > RADIO_TEMPORARY_FAILURE_THRESHOLD {
            DroneCommand::Land
        } else if s.failed_imu_count > IMU_FAILURE_THRESHOLD {
            DroneCommand::FallOutOfTheSky
        } else if fresh {
            mode_for_select(s.raw_command.mode_select)
        } else {
            s.current_command
        };
        self.state = s;
        s
    }
}

/// Without a fresh valid frame the vehicle never returns to a flight mode:
/// from a mode that commands zero thrust, any run of cycles in which no frame
/// arrives ends in such a mode, whatever the sensor does.
pub proof fn lemma_grounded_without_frame(
    s: (DroneCommand, int, int),
    events: Seq<(bool, Option<RadioCommand>)>,
)
    requires
        !is_flight_mode(s.0),
        forall|i: int| 0 <= i < events.len() ==> (#[trigger] events[i]).1 is None,
    ensures
        !is_flight_mode(fault_run(s, events).0),
    decreases events.len(),
{
    if events.len() > 0 {
        let rest = events.drop_first();
        assert forall|i: int| 0 <= i < rest.len() implies (#[trigger] rest[i]).1 is None by {
            assert(rest[i] == events[i + 1]);
        }
        lemma_grounded_without_frame(fault_step(s, events[0].0, events[0].1), rest);
    }
}

/// Escalation on radio loss: after a run of `n > 0` cycles without a fresh
/// frame, the radio fault count is `min(c + n, u16::MAX)` for a starting
/// count `c`; the vehicle lands once that count is past the temporary
/// threshold, and cuts its motors once it is past the full threshold.
pub proof fn lemma_radio_loss_escalates(
    s: (DroneCommand, int, int),
    events: Seq<(bool, Option<RadioCommand>)>,
)
    requires
        0 <= s.1 <= u8::MAX,
        0 <= s.2 <= u16::MAX,
        events.len() > 0,
        forall|i: int| 0 <= i < events.len() ==> (#[trigger] events[i]).1 is None,
    ensures
        ({
            let r = fault_run(s, events);
            let c = if s.2 + events.len() > u16::MAX {
                u16::MAX as int
            } else {
                s.2 + events.len()
            };
            &&& r.2 == c
            &&& c > RADIO_FULL_FAILURE_THRESHOLD ==> r.0 == DroneCommand::FallOutOfTheSky
            &&& RADIO_TEMPORARY_FAILURE_THRESHOLD < c <= RADIO_FULL_FAILURE_THRESHOLD ==> r.0
                == DroneCommand::Land
        }),
    decreases events.len(),
{
    let s1 = fault_step(s, events[0].0, events[0].1);
    let rest = events.drop_first();
    if events.len() > 1 {
        assert forall|i: int| 0 <= i < rest.len() implies (#[trigger] rest[i]).1 is None by {
            assert(rest[i] == events[i + 1]);
        }
        lemma_radio_loss_escalates(s1, rest);
    } else {
        assert(fault_run(s1, rest) == s1);
    }
}

/// The output of a PD controller for `error` after `dt` ticks.
pub open spec fn pd_next(pd: PD, error: int, dt: int) -> int {
    pd_output(pd.k_p as int, pd.k_d as int, error, rate_of(error, pd.last_error as int, pd.last_v as int, dt))
}

/// The errors that the three controllers work on: roll, pitch, yaw rate.
pub open spec fn roll_error(s: DroneCoreState) -> int {
    s.desired_angle[0] - s.true_angle[0]
}

pub open spec fn pitch_error(s: DroneCoreState) -> int {
    s.desired_angle[1] - s.true_angle[1]
}

pub open spec fn yaw_error(s: DroneCoreState) -> int {
    s.desired_twist - s.last_sample.angular_velocity.z
}

/// The pulse widths that normal control gives for a snapshot.
pub open spec fn normal_duties(f: FlightSystem, s: DroneCoreState, dt: int) -> Seq<int> {
    duties(
        saturated(
            mixed(
                s.raw_command.z_throttle as int,
                pd_next(f.roll, roll_error(s), dt),
                pd_next(f.pitch, pitch_error(s), dt),
                pd_next(f.yaw, yaw_error(s), dt),
            ),
        ),
    )
}

/// The control task's own state: when it last ran and its three controllers.
pub struct FlightSystem {
    pub last_time: u64,
    pub roll: PD,
    pub pitch: PD,
    pub yaw: PD,
}

impl FlightSystem {
    pub open spec fn wf(&self) -> bool {
        self.roll.wf() && self.pitch.wf() && self.yaw.wf()
    }

    /// Controllers at rest with the built-in tuning; `now` is the timer's
    /// current count.
    pub fn new(now: u64) -> (r: FlightSystem)
        ensures
            r.wf(),
            r.last_time == now,
            r.roll == (PD { k_p: TILT_K_P, k_d: TILT_K_D, last_error: 0, last_v: 0 }),
            r.pitch == (PD { k_p: TILT_K_P, k_d: TILT_K_D, last_error: 0, last_v: 0 }),
            r.yaw == (PD { k_p: YAW_K_P, k_d: YAW_K_D, last_error: 0, last_v: 0 }),
    {
        FlightSystem {
            last_time: now,
            roll: PD::new(TILT_K_P, TILT_K_D),
            pitch: PD::new(TILT_K_P, TILT_K_D),
            yaw: PD::new(YAW_K_P, YAW_K_D),
        }
    }

    /// Runs the control law on a snapshot.
    fn normal_control(&mut self, state: &DroneCoreState, dt: u64) -> (r: [u16; 4])
        requires
            old(self).wf(),
            state.wf(),
        ensures
            final(self).wf(),
            final(self).last_time == old(self).last_time,
            duty_ints(r@) == normal_duties(*old(self), *state, dt as int),
    {
        let roll = self.roll.get_next(state.desired_angle[0] - state.true_angle[0], dt);
        let pitch = self.pitch.get_next(state.desired_angle[1] - state.true_angle[1], dt);
        let yaw = self.yaw.get_next(
            state.desired_twist - state.last_sample.angular_velocity.z as i64,
            dt,
        );
        let speeds = mix(state.raw_command.z_throttle as i64, roll, pitch, yaw);
        let speeds = unreliable_speeds(speeds);
        duty_cycles(speeds)
    }

    /// One control cycle: takes a snapshot and the timer's current count,
    /// returns the pulse widths for the four motors (front left, front right,
    /// back right, back left).
    pub fn control_step(&mut self, state: &DroneCoreState, now: u64) -> (r: [u16; 4])
        requires
            old(self).wf(),
            state.wf(),
        ensures
            final(self).wf(),
            final(self).last_time == now,
            ({
                let dt = elapsed(now as int, old(self).last_time as int);
                match state.current_command {
                    DroneCommand::NormalControl | DroneCommand::Hover => duty_ints(r@)
                        == normal_duties(*old(self), *state, dt),
                    DroneCommand::FullManual => duty_ints(r@) == manual_duties(state.raw_command),
                    DroneCommand::Calibrate => duty_ints(r@) == duties(
                        seq![state.raw_command.z_throttle as int; 4],
                    ),
                    _ => forall|i: int| 0 <= i < 4 ==> r[i] == MIN_THROTTLE,
                }
            }),
    {
        let dt = elapsed_ticks(now, self.last_time);
        let r = match state.current_command {
            DroneCommand::FullManual => full_manual(&state.raw_command),
            DroneCommand::NormalControl | DroneCommand::Hover => self.normal_control(state, dt),
            DroneCommand::Calibrate => {
                let z = state.raw_command.z_throttle as i64;
                let r = duty_cycles([z, z, z, z]);
                assert(ints([z, z, z, z]@) =~= seq![z as int; 4]);
                r
            },
            _ => fall_out_of_the_sky(),
        };
        self.last_time = now;
        r
    }
}

} // verus!
