//! The shapes in which capability values are published as telemetry.

use crate::error::Error;
use crate::hal;
use crate::scalar::{Double, Single};
use vstd::prelude::*;
use vstd::string::*;

verus! {

/// The model of a published inertial sample.
pub struct ImuValuesView {
    pub accel_x: Double,
    pub accel_y: Double,
    pub accel_z: Double,
    pub gyro_x: Double,
    pub gyro_y: Double,
    pub gyro_z: Double,
    pub mag_x: Option<Double>,
    pub mag_y: Option<Double>,
    pub mag_z: Option<Double>,
    pub error: Option<Seq<char>>,
}

/// An inertial sample as published.
#[derive(Debug)]
pub struct ImuValues {
    pub accel_x: Double,
    pub accel_y: Double,
    pub accel_z: Double,
    pub gyro_x: Double,
    pub gyro_y: Double,
    pub gyro_z: Double,
    pub mag_x: Option<Double>,
    pub mag_y: Option<Double>,
    pub mag_z: Option<Double>,
    /// The detail of the failure reported with the sample, if any.
    pub error: Option<String>,
}

impl View for ImuValues {
    type V = ImuValuesView;

    open spec fn view(&self) -> ImuValuesView {
        ImuValuesView {
            accel_x: self.accel_x,
            accel_y: self.accel_y,
            accel_z: self.accel_z,
            gyro_x: self.gyro_x,
            gyro_y: self.gyro_y,
            gyro_z: self.gyro_z,
            mag_x: self.mag_x,
            mag_y: self.mag_y,
            mag_z: self.mag_z,
            error: hal::text_view(self.error),
        }
    }
}

/// The detail of an optional failure.
pub open spec fn detail_of(e: Option<crate::error::ErrorView>) -> Option<Seq<char>> {
    match e {
        Some(e) => Some(e.message),
        None => None,
    }
}

/// What is published for an inertial sample: every reading as it is, and of
/// a reported failure only its detail.
pub open spec fn published_imu_values(resp: hal::ImuValuesResponseView) -> ImuValuesView {
    ImuValuesView {
        accel_x: resp.accel_x,
        accel_y: resp.accel_y,
        accel_z: resp.accel_z,
        gyro_x: resp.gyro_x,
        gyro_y: resp.gyro_y,
        gyro_z: resp.gyro_z,
        mag_x: resp.mag_x,
        mag_y: resp.mag_y,
        mag_z: resp.mag_z,
        error: detail_of(resp.error),
    }
}

fn detail(e: &Option<Error>) -> (r: Option<String>)
    ensures
        hal::text_view(r) == detail_of(hal::error_view(*e)),
{
    match e {
        Some(e) => Some(e.message.clone()),
        None => None,
    }
}

impl ImuValues {
    /// What is published for an inertial sample.
    pub fn from(resp: &hal::ImuValuesResponse) -> (v: ImuValues)
        ensures
            v@ == published_imu_values(resp@),
    {
        ImuValues {
            accel_x: resp.accel_x,
            accel_y: resp.accel_y,
            accel_z: resp.accel_z,
            gyro_x: resp.gyro_x,
            gyro_y: resp.gyro_y,
            gyro_z: resp.gyro_z,
            mag_x: resp.mag_x,
            mag_y: resp.mag_y,
            mag_z: resp.mag_z,
            error: detail(&resp.error),
        }
    }
}

/// An orientation as published: roll, pitch and yaw in degrees.
#[derive(Clone, Copy, Debug)]
pub struct EulerAngles {
    pub roll: Double,
    pub pitch: Double,
    pub yaw: Double,
}

impl EulerAngles {
    /// What is published for an orientation: its three angles.
    pub fn from(resp: &hal::EulerAnglesResponse) -> (v: EulerAngles)
        ensures
            v == (EulerAngles { roll: resp.roll, pitch: resp.pitch, yaw: resp.yaw }),
    {
        EulerAngles { roll: resp.roll, pitch: resp.pitch, yaw: resp.yaw }
    }
}

/// An orientation as published: a unit quaternion.
#[derive(Clone, Copy, Debug)]
pub struct Quaternion {
    pub x: Double,
    pub y: Double,
    pub z: Double,
    pub w: Double,
}

impl Quaternion {
    /// What is published for an orientation: its four components.
    pub fn from(resp: &hal::QuaternionResponse) -> (v: Quaternion)
        ensures
            v == (Quaternion { x: resp.x, y: resp.y, z: resp.z, w: resp.w }),
    {
        Quaternion { x: resp.x, y: resp.y, z: resp.z, w: resp.w }
    }
}

/// The state of one actuator as published.
#[derive(Clone, Copy, Debug)]
pub struct ActuatorState {
    pub actuator_id: u32,
    pub online: bool,
    pub position: Option<Double>,
    pub velocity: Option<Double>,
    pub torque: Option<Double>,
    pub temperature: Option<Double>,
    pub voltage: Option<Single>,
    pub current: Option<Single>,
}

/// What is published for the state of one actuator: every field as it is.
pub open spec fn published_state(resp: hal::ActuatorStateResponse) -> ActuatorState {
    ActuatorState {
        actuator_id: resp.actuator_id,
        online: resp.online,
        position: resp.position,
        velocity: resp.velocity,
        torque: resp.torque,
        temperature: resp.temperature,
        voltage: resp.voltage,
        current: resp.current,
    }
}

impl ActuatorState {
    /// What is published for the state of one actuator.
    pub fn from(resp: &hal::ActuatorStateResponse) -> (v: ActuatorState)
        ensures
            v == published_state(*resp),
    {
        ActuatorState {
            actuator_id: resp.actuator_id,
            online: resp.online,
            position: resp.position,
            velocity: resp.velocity,
            torque: resp.torque,
            temperature: resp.temperature,
            voltage: resp.voltage,
            current: resp.current,
        }
    }
}

/// One actuator command as published.
#[derive(Clone, Copy, Debug)]
pub struct ActuatorCommand {
    pub actuator_id: u32,
    pub position: Option<Double>,
    pub velocity: Option<Double>,
    pub torque: Option<Double>,
}

/// What is published for one actuator command: every field as it is.
pub open spec fn published_command(cmd: hal::ActuatorCommand) -> ActuatorCommand {
    ActuatorCommand {
        actuator_id: cmd.actuator_id,
        position: cmd.position,
        velocity: cmd.velocity,
        torque: cmd.torque,
    }
}

impl ActuatorCommand {
    /// What is published for one actuator command.
    pub fn from(cmd: &hal::ActuatorCommand) -> (v: ActuatorCommand)
        ensures
            v == published_command(*cmd),
    {
        ActuatorCommand {
            actuator_id: cmd.actuator_id,
            position: cmd.position,
            velocity: cmd.velocity,
            torque: cmd.torque,
        }
    }
}

/// What is published for a batch of commands: one entry per command, in
/// order.
pub fn published_commands(commands: &Vec<hal::ActuatorCommand>) -> (out: Vec<ActuatorCommand>)
    ensures
        out@ == commands@.map_values(|c: hal::ActuatorCommand| published_command(c)),
{
    let mut out: Vec<ActuatorCommand> = Vec::new();
    let mut i: usize = 0;
    while i < commands.len()
        invariant
            i <= commands@.len(),
            out@ == commands@.subrange(0, i as int).map_values(
                |c: hal::ActuatorCommand| published_command(c),
            ),
        decreases commands@.len() - i,
    {
        out.push(ActuatorCommand::from(&commands[i]));
        i = i + 1;
        assert(out@ =~= commands@.subrange(0, i as int).map_values(
            |c: hal::ActuatorCommand| published_command(c),
        ));
    }
    assert(commands@.subrange(0, i as int) =~= commands@);
    out
}

/// What is published for a batch of states: one entry per state, in order.
pub fn published_states(states: &Vec<hal::ActuatorStateResponse>) -> (out: Vec<ActuatorState>)
    ensures
        out@ == states@.map_values(|s: hal::ActuatorStateResponse| published_state(s)),
{
    let mut out: Vec<ActuatorState> = Vec::new();
    let mut i: usize = 0;
    while i < states.len()
        invariant
            i <= states@.len(),
            out@ == states@.subrange(0, i as int).map_values(
                |s: hal::ActuatorStateResponse| published_state(s),
            ),
        decreases states@.len() - i,
    {
        out.push(ActuatorState::from(&states[i]));
        i = i + 1;
        assert(out@ =~= states@.subrange(0, i as int).map_values(
            |s: hal::ActuatorStateResponse| published_state(s),
        ));
    }
    assert(states@.subrange(0, i as int) =~= states@);
    out
}

} // verus!
