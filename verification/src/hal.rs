//! Value types exchanged with hardware backends.
//!
//! Every value is created per call, owned by the call stack and never
//! mutated after construction.

use crate::error::{Error, ErrorView, HalError};
use crate::scalar::{Double, Single};
use crate::services::operations::{LedgerView, Operation, OperationsServiceImpl};
use vstd::prelude::*;
use vstd::string::*;

verus! {

/// The model of an optional classified failure.
pub open spec fn error_view(e: Option<Error>) -> Option<ErrorView> {
    match e {
        Some(e) => Some(e@),
        None => None,
    }
}

/// The model of an optional text.
pub open spec fn text_view(t: Option<String>) -> Option<Seq<char>> {
    match t {
        Some(t) => Some(t@),
        None => None,
    }
}

/// Copies an optional classified failure.
pub fn clone_error(e: &Option<Error>) -> (r: Option<Error>)
    ensures
        error_view(r) == error_view(*e),
{
    match e {
        Some(e) => Some(e.clone()),
        None => None,
    }
}

/// Copies an optional text.
pub fn clone_text(t: &Option<String>) -> (r: Option<String>)
    ensures
        text_view(r) == text_view(*t),
{
    match t {
        Some(t) => Some(t.clone()),
        None => None,
    }
}

/// One target of a batched actuator command.
#[derive(Clone, Copy, Debug)]
pub struct ActuatorCommand {
    pub actuator_id: u32,
    /// Target position in degrees.
    pub position: Option<Double>,
    /// Target velocity in degrees per second.
    pub velocity: Option<Double>,
    /// Target torque in newton metres.
    pub torque: Option<Double>,
}

/// New control parameters for one actuator. Absent fields are left as they
/// are on the device.
#[derive(Clone, Copy, Debug)]
pub struct ConfigureActuatorRequest {
    pub actuator_id: u32,
    pub kp: Option<Double>,
    pub kd: Option<Double>,
    pub ki: Option<Double>,
    pub max_torque: Option<Double>,
    pub protective_torque: Option<Double>,
    pub protection_time: Option<Single>,
    pub torque_enabled: Option<bool>,
}

/// A request to calibrate one actuator.
#[derive(Clone, Copy, Debug)]
pub struct CalibrateActuatorRequest {
    pub actuator_id: u32,
    pub calibration_speed: Option<Double>,
    pub threshold_current: Option<Single>,
}

/// The measured state of one actuator.
#[derive(Clone, Copy, Debug)]
pub struct ActuatorStateResponse {
    pub actuator_id: u32,
    pub online: bool,
    pub position: Option<Double>,
    pub velocity: Option<Double>,
    pub torque: Option<Double>,
    pub temperature: Option<Double>,
    pub voltage: Option<Single>,
    pub current: Option<Single>,
}

/// The model of an [`ActionResult`].
pub struct ActionResultView {
    pub actuator_id: u32,
    pub success: bool,
    pub error: Option<ErrorView>,
}

/// The outcome of a batched command for one target.
#[derive(Debug)]
pub struct ActionResult {
    pub actuator_id: u32,
    pub success: bool,
    pub error: Option<Error>,
}

impl View for ActionResult {
    type V = ActionResultView;

    open spec fn view(&self) -> ActionResultView {
        ActionResultView {
            actuator_id: self.actuator_id,
            success: self.success,
            error: error_view(self.error),
        }
    }
}

impl Clone for ActionResult {
    fn clone(&self) -> (r: Self)
        ensures
            r@ == self@,
    {
        ActionResult {
            actuator_id: self.actuator_id,
            success: self.success,
            error: clone_error(&self.error),
        }
    }
}

/// The model of an [`ActionResponse`].
pub struct ActionResponseView {
    pub success: bool,
    pub error: Option<ErrorView>,
}

/// The outcome of an action on a single target.
#[derive(Debug)]
pub struct ActionResponse {
    pub success: bool,
    pub error: Option<Error>,
}

impl View for ActionResponse {
    type V = ActionResponseView;

    open spec fn view(&self) -> ActionResponseView {
        ActionResponseView { success: self.success, error: error_view(self.error) }
    }
}

impl ActionResponse {
    /// The response of an action that went through.
    pub fn ok() -> (r: ActionResponse)
        ensures
            r@ == (ActionResponseView { success: true, error: None }),
    {
        ActionResponse { success: true, error: None }
    }
}

/// The model of an [`ImuValuesResponse`].
pub struct ImuValuesResponseView {
    pub accel_x: Double,
    pub accel_y: Double,
    pub accel_z: Double,
    pub gyro_x: Double,
    pub gyro_y: Double,
    pub gyro_z: Double,
    pub mag_x: Option<Double>,
    pub mag_y: Option<Double>,
    pub mag_z: Option<Double>,
    pub error: Option<ErrorView>,
}

/// One inertial sample.
#[derive(Debug)]
pub struct ImuValuesResponse {
    pub accel_x: Double,
    pub accel_y: Double,
    pub accel_z: Double,
    pub gyro_x: Double,
    pub gyro_y: Double,
    pub gyro_z: Double,
    pub mag_x: Option<Double>,
    pub mag_y: Option<Double>,
    pub mag_z: Option<Double>,
    pub error: Option<Error>,
}

impl View for ImuValuesResponse {
    type V = ImuValuesResponseView;

    open spec fn view(&self) -> ImuValuesResponseView {
        ImuValuesResponseView {
            accel_x: self.accel_x,
            accel_y: self.accel_y,
            accel_z: self.accel_z,
            gyro_x: self.gyro_x,
            gyro_y: self.gyro_y,
            gyro_z: self.gyro_z,
            mag_x: self.mag_x,
            mag_y: self.mag_y,
            mag_z: self.mag_z,
            error: error_view(self.error),
        }
    }
}

/// The model of an [`ImuAdvancedValuesResponse`].
pub struct ImuAdvancedValuesResponseView {
    pub lin_acc_x: Option<Double>,
    pub lin_acc_y: Option<Double>,
    pub lin_acc_z: Option<Double>,
    pub grav_x: Option<Double>,
    pub grav_y: Option<Double>,
    pub grav_z: Option<Double>,
    pub temp: Option<Double>,
    pub error: Option<ErrorView>,
}

/// Derived inertial quantities.
#[derive(Debug)]
pub struct ImuAdvancedValuesResponse {
    pub lin_acc_x: Option<Double>,
    pub lin_acc_y: Option<Double>,
    pub lin_acc_z: Option<Double>,
    pub grav_x: Option<Double>,
    pub grav_y: Option<Double>,
    pub grav_z: Option<Double>,
    pub temp: Option<Double>,
    pub error: Option<Error>,
}

impl View for ImuAdvancedValuesResponse {
    type V = ImuAdvancedValuesResponseView;

    open spec fn view(&self) -> ImuAdvancedValuesResponseView {
        ImuAdvancedValuesResponseView {
            lin_acc_x: self.lin_acc_x,
            lin_acc_y: self.lin_acc_y,
            lin_acc_z: self.lin_acc_z,
            grav_x: self.grav_x,
            grav_y: self.grav_y,
            grav_z: self.grav_z,
            temp: self.temp,
            error: error_view(self.error),
        }
    }
}

/// The model of an [`EulerAnglesResponse`].
pub struct EulerAnglesResponseView {
    pub roll: Double,
    pub pitch: Double,
    pub yaw: Double,
    pub error: Option<ErrorView>,
}

/// An orientation as roll, pitch and yaw, in degrees.
#[derive(Debug)]
pub struct EulerAnglesResponse {
    pub roll: Double,
    pub pitch: Double,
    pub yaw: Double,
    pub error: Option<Error>,
}

impl View for EulerAnglesResponse {
    type V = EulerAnglesResponseView;

    open spec fn view(&self) -> EulerAnglesResponseView {
        EulerAnglesResponseView {
            roll: self.roll,
            pitch: self.pitch,
            yaw: self.yaw,
            error: error_view(self.error),
        }
    }
}

/// The model of a [`QuaternionResponse`].
pub struct QuaternionResponseView {
    pub x: Double,
    pub y: Double,
    pub z: Double,
    pub w: Double,
    pub error: Option<ErrorView>,
}

/// An orientation as a unit quaternion.
#[derive(Debug)]
pub struct QuaternionResponse {
    pub x: Double,
    pub y: Double,
    pub z: Double,
    pub w: Double,
    pub error: Option<Error>,
}

impl View for QuaternionResponse {
    type V = QuaternionResponseView;

    open spec fn view(&self) -> QuaternionResponseView {
        QuaternionResponseView {
            x: self.x,
            y: self.y,
            z: self.z,
            w: self.w,
            error: error_view(self.error),
        }
    }
}

/// The model of a recording start or stop response.
pub struct KClipResponseView {
    pub clip_uuid: Option<Seq<char>>,
    pub error: Option<ErrorView>,
}

/// The answer to a request to start recording.
#[derive(Debug)]
pub struct KClipStartResponse {
    pub clip_uuid: Option<String>,
    pub error: Option<Error>,
}

impl View for KClipStartResponse {
    type V = KClipResponseView;

    open spec fn view(&self) -> KClipResponseView {
        KClipResponseView { clip_uuid: text_view(self.clip_uuid), error: error_view(self.error) }
    }
}

/// The answer to a request to stop recording.
#[derive(Debug)]
pub struct KClipStopResponse {
    pub clip_uuid: Option<String>,
    pub error: Option<Error>,
}

impl View for KClipStopResponse {
    type V = KClipResponseView;

    open spec fn view(&self) -> KClipResponseView {
        KClipResponseView { clip_uuid: text_view(self.clip_uuid), error: error_view(self.error) }
    }
}

/// Progress of a calibration.
#[derive(Clone, Copy, Debug, PartialEq, Eq, Structural)]
pub enum CalibrationStatus {
    Calibrating,
    Calibrated,
    Timeout,
}

impl CalibrationStatus {
    /// The lower-case word for this status.
    pub open spec fn label(self) -> Seq<char> {
        match self {
            CalibrationStatus::Calibrating => "calibrating"@,
            CalibrationStatus::Calibrated => "calibrated"@,
            CalibrationStatus::Timeout => "timeout"@,
        }
    }

    /// The lower-case word for this status.
    pub fn as_str(self) -> (s: &'static str)
        ensures
            s@ == self.label(),
    {
        match self {
            CalibrationStatus::Calibrating => "calibrating",
            CalibrationStatus::Calibrated => "calibrated",
            CalibrationStatus::Timeout => "timeout",
        }
    }

    /// The lower-case word for this status, owned.
    pub fn to_string(self) -> (s: String)
        ensures
            s@ == self.label(),
    {
        String::from_str(self.as_str())
    }
}

/// The three status words are pairwise different.
pub proof fn lemma_status_labels_distinct(a: CalibrationStatus, b: CalibrationStatus)
    requires
        a.label() == b.label(),
    ensures
        a == b,
{
    reveal_strlit("calibrating");
    reveal_strlit("calibrated");
    reveal_strlit("timeout");
    assert("calibrating"@.len() == 11);
    assert("calibrated"@.len() == 10);
    assert("timeout"@.len() == 7);
}

/// Progress record of an actuator calibration.
#[derive(Debug)]
pub struct CalibrateActuatorMetadata {
    pub actuator_id: u32,
    pub status: String,
}

/// Progress record of an inertial-unit calibration.
#[derive(Debug)]
pub struct CalibrateImuMetadata {
    pub status: String,
}

/// The model of a policy start or stop response.
pub struct PolicyResponseView {
    pub policy_uuid: Option<Seq<char>>,
    pub error: Option<ErrorView>,
}

/// The answer to a request to start a policy.
#[derive(Debug)]
pub struct StartPolicyResponse {
    pub policy_uuid: Option<String>,
    pub error: Option<Error>,
}

impl View for StartPolicyResponse {
    type V = PolicyResponseView;

    open spec fn view(&self) -> PolicyResponseView {
        PolicyResponseView {
            policy_uuid: text_view(self.policy_uuid),
            error: error_view(self.error),
        }
    }
}

/// The answer to a request to stop the running policy.
#[derive(Debug)]
pub struct StopPolicyResponse {
    pub policy_uuid: Option<String>,
    pub error: Option<Error>,
}

impl View for StopPolicyResponse {
    type V = PolicyResponseView;

    open spec fn view(&self) -> PolicyResponseView {
        PolicyResponseView {
            policy_uuid: text_view(self.policy_uuid),
            error: error_view(self.error),
        }
    }
}

/// The value of one policy parameter.
#[derive(Debug)]
pub enum PolicyParameter {
    Text(String),
    Scale(Single),
    Count(i32),
    Flag(bool),
}

/// The model of a [`PolicyParameter`].
pub enum PolicyParameterView {
    Text(Seq<char>),
    Scale(Single),
    Count(i32),
    Flag(bool),
}

impl View for PolicyParameter {
    type V = PolicyParameterView;

    open spec fn view(&self) -> PolicyParameterView {
        match self {
            PolicyParameter::Text(t) => PolicyParameterView::Text(t@),
            PolicyParameter::Scale(s) => PolicyParameterView::Scale(*s),
            PolicyParameter::Count(c) => PolicyParameterView::Count(*c),
            PolicyParameter::Flag(f) => PolicyParameterView::Flag(*f),
        }
    }
}

impl Clone for PolicyParameter {
    fn clone(&self) -> (r: Self)
        ensures
            r@ == self@,
    {
        match self {
            PolicyParameter::Text(t) => PolicyParameter::Text(t.clone()),
            PolicyParameter::Scale(s) => PolicyParameter::Scale(*s),
            PolicyParameter::Count(c) => PolicyParameter::Count(*c),
            PolicyParameter::Flag(f) => PolicyParameter::Flag(*f),
        }
    }
}

/// The models of a run of named parameters.
pub open spec fn parameters_view(pairs: Seq<(String, PolicyParameter)>) -> Seq<
    (Seq<char>, PolicyParameterView),
> {
    pairs.map_values(|p: (String, PolicyParameter)| (p.0@, p.1@))
}

/// The parameters of the running policy, each under its name, in the order
/// in which they were set.
#[derive(Debug)]
pub struct GetStateResponse {
    pub state: Vec<(String, PolicyParameter)>,
    pub error: Option<Error>,
}

/// The answer to a request to synthesize speech.
#[derive(Debug)]
pub struct SynthesizeResponse {
    /// Where the audio is written.
    pub output_file: String,
    pub error: Option<Error>,
}

/// The geometry of a display matrix.
#[derive(Debug)]
pub struct GetMatrixInfoResponse {
    pub width: u32,
    pub height: u32,
    pub brightness_levels: u32,
    pub color_capable: bool,
    pub bits_per_pixel: u32,
    pub error: Option<Error>,
}

/// A span of time as whole seconds and a rest of less than one second in
/// nanoseconds.
#[derive(Clone, Copy, Debug, PartialEq, Eq, Structural)]
pub struct Duration {
    pub secs: u64,
    pub nanos: u32,
}

/// The targets of a batch of commands, each as often as it is commanded.
pub open spec fn command_targets(commands: Seq<ActuatorCommand>) -> vstd::multiset::Multiset<u32> {
    commands.map_values(|c: ActuatorCommand| c.actuator_id).to_multiset()
}

/// The targets that a run of results speaks of, each as often as it occurs.
pub open spec fn result_targets(results: Seq<ActionResult>) -> vstd::multiset::Multiset<u32> {
    results.map_values(|r: ActionResult| r.actuator_id).to_multiset()
}

/// Control of actuators.
///
/// Commands may move hardware: every call is at most once and is never
/// repeated by this library.
pub trait Actuator {
    /// Whether commanding the batch `commands` may take the backend from
    /// this state to `after` and end in `outcome`.
    open spec fn commands_actuators(
        &self,
        after: &Self,
        commands: Vec<ActuatorCommand>,
        outcome: Result<Vec<ActionResult>, HalError>,
    ) -> bool {
        true
    }

    /// Whether a read of the state of `actuator_ids` may take the backend
    /// from this state to `after` and end in `outcome`.
    open spec fn gets_actuators_state(
        &self,
        after: &Self,
        actuator_ids: Vec<u32>,
        outcome: Result<Vec<ActuatorStateResponse>, HalError>,
    ) -> bool {
        true
    }

    /// Commands a batch of actuators. Every command is processed, also
    /// where others fail: the results speak of each target exactly as
    /// often as it was commanded, in whatever order.
    fn command_actuators(&mut self, commands: Vec<ActuatorCommand>) -> (r: Result<
        Vec<ActionResult>,
        HalError,
    >)
        ensures
            r is Ok ==> result_targets(r->Ok_0@) == command_targets(commands@),
            old(self).commands_actuators(&*final(self), commands, r),
    ;

    /// Whether a request to configure an actuator may take the backend
    /// from this state to `after` and end in `outcome`.
    open spec fn configures_actuator(
        &self,
        after: &Self,
        config: ConfigureActuatorRequest,
        outcome: Result<ActionResponse, HalError>,
    ) -> bool {
        true
    }

    /// Whether a request to calibrate an actuator may take the backend
    /// from this state to `after` and the ledger from `ledger` to
    /// `ledger_after`, and end in `outcome`.
    open spec fn calibrates_actuator(
        &self,
        after: &Self,
        ledger: LedgerView,
        ledger_after: LedgerView,
        request: CalibrateActuatorRequest,
        outcome: Result<Operation, HalError>,
    ) -> bool {
        true
    }

    /// Sets the control parameters of one actuator.
    fn configure_actuator(&mut self, config: ConfigureActuatorRequest) -> (r: Result<
        ActionResponse,
        HalError,
    >)
        ensures
            old(self).configures_actuator(&*final(self), config, r),
    ;

    /// Starts the calibration of one actuator and returns the operation
    /// that tracks it in `operations`.
    fn calibrate_actuator(
        &mut self,
        operations: &mut OperationsServiceImpl,
        request: CalibrateActuatorRequest,
    ) -> (r: Result<Operation, HalError>)
        ensures
            old(self).calibrates_actuator(
                &*final(self),
                old(operations)@,
                final(operations)@,
                request,
                r,
            ),
    ;

    /// Reads the state of the given actuators.
    fn get_actuators_state(&mut self, actuator_ids: Vec<u32>) -> (r: Result<
        Vec<ActuatorStateResponse>,
        HalError,
    >)
        ensures
            old(self).gets_actuators_state(&*final(self), actuator_ids, r),
    ;
}

/// Inertial sensing.
pub trait IMU {
    /// Whether a read of one sample may take the backend from this state
    /// to `after` and end in `outcome`.
    open spec fn gets_values(
        &self,
        after: &Self,
        outcome: Result<ImuValuesResponse, HalError>,
    ) -> bool {
        true
    }

    /// Whether a request to zero with these limits may take the backend
    /// from this state to `after` and end in `outcome`.
    open spec fn zeroes(
        &self,
        after: &Self,
        duration: Option<Duration>,
        max_retries: Option<u32>,
        max_angular_error: Option<Double>,
        max_vel: Option<Double>,
        max_accel: Option<Double>,
        outcome: Result<ActionResponse, HalError>,
    ) -> bool {
        true
    }

    /// Whether a read of the orientation as angles may take the backend
    /// from this state to `after` and end in `outcome`.
    open spec fn gets_euler(
        &self,
        after: &Self,
        outcome: Result<EulerAnglesResponse, HalError>,
    ) -> bool {
        true
    }

    /// Whether a read of the orientation as a quaternion may take the
    /// backend from this state to `after` and end in `outcome`.
    open spec fn gets_quaternion(
        &self,
        after: &Self,
        outcome: Result<QuaternionResponse, HalError>,
    ) -> bool {
        true
    }

    /// Reads one inertial sample.
    fn get_values(&mut self) -> (r: Result<ImuValuesResponse, HalError>)
        ensures
            old(self).gets_values(&*final(self), r),
    ;

    /// Whether a read of the derived quantities may take the backend from
    /// this state to `after` and end in `outcome`.
    open spec fn gets_advanced_values(
        &self,
        after: &Self,
        outcome: Result<ImuAdvancedValuesResponse, HalError>,
    ) -> bool {
        true
    }

    /// Whether a request to calibrate may take the backend from this state
    /// to `after` and the ledger from `ledger` to `ledger_after`, and end in
    /// `outcome`.
    open spec fn calibrates(
        &self,
        after: &Self,
        ledger: LedgerView,
        ledger_after: LedgerView,
        outcome: Result<Operation, HalError>,
    ) -> bool {
        true
    }

    /// Reads the derived inertial quantities.
    fn get_advanced_values(&mut self) -> (r: Result<ImuAdvancedValuesResponse, HalError>)
        ensures
            old(self).gets_advanced_values(&*final(self), r),
    ;

    /// Starts a calibration and returns the operation that tracks it in
    /// `operations`.
    fn calibrate(&mut self, operations: &mut OperationsServiceImpl) -> (r: Result<
        Operation,
        HalError,
    >)
        ensures
            old(self).calibrates(&*final(self), old(operations)@, final(operations)@, r),
    ;

    /// Takes the current orientation as the new origin.
    fn zero(
        &mut self,
        duration: Option<Duration>,
        max_retries: Option<u32>,
        max_angular_error: Option<Double>,
        max_vel: Option<Double>,
        max_accel: Option<Double>,
    ) -> (r: Result<ActionResponse, HalError>)
        ensures
            old(self).zeroes(
                &*final(self),
                duration,
                max_retries,
                max_angular_error,
                max_vel,
                max_accel,
                r,
            ),
    ;

    /// Reads the orientation as roll, pitch and yaw.
    fn get_euler(&mut self) -> (r: Result<EulerAnglesResponse, HalError>)
        ensures
            old(self).gets_euler(&*final(self), r),
    ;

    /// Reads the orientation as a quaternion.
    fn get_quaternion(&mut self) -> (r: Result<QuaternionResponse, HalError>)
        ensures
            old(self).gets_quaternion(&*final(self), r),
    ;
}

/// Control of recording.
pub trait ProcessManager {
    /// Whether a start request for `action` may take the backend from this
    /// state to `after` and end in `outcome`.
    open spec fn starts_kclip(
        &self,
        after: &Self,
        action: String,
        outcome: Result<KClipStartResponse, HalError>,
    ) -> bool {
        true
    }

    /// Whether a stop request may take the backend from this state to
    /// `after` and end in `outcome`.
    open spec fn stops_kclip(
        &self,
        after: &Self,
        outcome: Result<KClipStopResponse, HalError>,
    ) -> bool {
        true
    }

    /// Starts a recording of the given action.
    fn start_kclip(&mut self, action: String) -> (r: Result<KClipStartResponse, HalError>)
        ensures
            old(self).starts_kclip(&*final(self), action, r),
    ;

    /// Stops the running recording.
    fn stop_kclip(&mut self) -> (r: Result<KClipStopResponse, HalError>)
        ensures
            old(self).stops_kclip(&*final(self), r),
    ;
}

/// Control of a display matrix.
pub trait LEDMatrix {
    /// Whether a read of the geometry may take the backend from this state
    /// to `after` and end in `outcome`.
    open spec fn gets_matrix_info(
        &self,
        after: &Self,
        outcome: Result<GetMatrixInfoResponse, HalError>,
    ) -> bool {
        true
    }

    /// Whether a write of `buffer` may take the backend from this state to
    /// `after` and end in `outcome`.
    open spec fn writes_buffer(
        &self,
        after: &Self,
        buffer: Vec<u8>,
        outcome: Result<ActionResponse, HalError>,
    ) -> bool {
        true
    }

    /// Whether a write of the colour image `buffer` may take the backend
    /// from this state to `after` and end in `outcome`.
    open spec fn writes_color_buffer(
        &self,
        after: &Self,
        buffer: Vec<u8>,
        width: u32,
        height: u32,
        format: String,
        brightness: u32,
        outcome: Result<ActionResponse, HalError>,
    ) -> bool {
        true
    }

    /// Reads the geometry of the matrix.
    fn get_matrix_info(&mut self) -> (r: Result<GetMatrixInfoResponse, HalError>)
        ensures
            old(self).gets_matrix_info(&*final(self), r),
    ;

    /// Writes a one-bit-per-pixel image.
    fn write_buffer(&mut self, buffer: Vec<u8>) -> (r: Result<ActionResponse, HalError>)
        ensures
            old(self).writes_buffer(&*final(self), buffer, r),
    ;

    /// Writes a colour image of the given geometry and pixel format.
    fn write_color_buffer(
        &mut self,
        buffer: Vec<u8>,
        width: u32,
        height: u32,
        format: String,
        brightness: u32,
    ) -> (r: Result<ActionResponse, HalError>)
        ensures
            old(self).writes_color_buffer(
                &*final(self),
                buffer,
                width,
                height,
                format,
                brightness,
                r,
            ),
    ;
}

/// Speech synthesis.
pub trait Speech {
    /// Whether a request to render `text` may take the backend from this
    /// state to `after` and end in `outcome`.
    open spec fn synthesizes(
        &self,
        after: &Self,
        text: String,
        outcome: Result<SynthesizeResponse, HalError>,
    ) -> bool {
        true
    }

    /// Renders `text` as audio.
    fn synthesize(&mut self, text: String) -> (r: Result<SynthesizeResponse, HalError>)
        ensures
            old(self).synthesizes(&*final(self), text, r),
    ;
}

/// Control of the running policy.
pub trait Policy {
    /// Whether a request to start a policy with these parameters may take
    /// the backend from this state to `after` and end in `outcome`.
    open spec fn starts_policy(
        &self,
        after: &Self,
        action: String,
        action_scale: Single,
        episode_length: i32,
        dry_run: bool,
        outcome: Result<StartPolicyResponse, HalError>,
    ) -> bool {
        true
    }

    /// Whether a request to stop the policy may take the backend from this
    /// state to `after` and end in `outcome`.
    open spec fn stops_policy(
        &self,
        after: &Self,
        outcome: Result<StopPolicyResponse, HalError>,
    ) -> bool {
        true
    }

    /// Whether a read of the parameters may take the backend from this
    /// state to `after` and end in `outcome`.
    open spec fn gets_state(
        &self,
        after: &Self,
        outcome: Result<GetStateResponse, HalError>,
    ) -> bool {
        true
    }

    /// Starts a policy for `action`.
    fn start_policy(
        &mut self,
        action: String,
        action_scale: Single,
        episode_length: i32,
        dry_run: bool,
    ) -> (r: Result<StartPolicyResponse, HalError>)
        ensures
            old(self).starts_policy(
                &*final(self),
                action,
                action_scale,
                episode_length,
                dry_run,
                r,
            ),
    ;

    /// Stops the running policy.
    fn stop_policy(&mut self) -> (r: Result<StopPolicyResponse, HalError>)
        ensures
            old(self).stops_policy(&*final(self), r),
    ;

    /// Reads the parameters of the running policy.
    fn get_state(&mut self) -> (r: Result<GetStateResponse, HalError>)
        ensures
            old(self).gets_state(&*final(self), r),
    ;
}

/// The format of an audio stream.
#[derive(Clone, Copy, Debug, PartialEq, Eq, Structural)]
pub struct AudioConfig {
    pub sample_rate: u32,
    pub bit_depth: u32,
    pub channels: u32,
}

/// What the audio hardware can do.
#[derive(Debug)]
pub struct GetAudioInfoResponse {
    pub playback: Option<AudioConfig>,
    pub recording: Option<AudioConfig>,
    pub error: Option<Error>,
}

/// Playback and recording of audio.
pub trait Sound {
    /// Whether a read of the audio capabilities may take the backend from
    /// this state to `after` and end in `outcome`.
    open spec fn gets_audio_info(
        &self,
        after: &Self,
        outcome: Result<GetAudioInfoResponse, HalError>,
    ) -> bool {
        true
    }

    /// Whether playing the chunk `audio_data` may take the backend from
    /// this state to `after` and end in `outcome`.
    open spec fn plays_chunk(
        &self,
        after: &Self,
        audio_data: Vec<u8>,
        outcome: Result<(), HalError>,
    ) -> bool {
        true
    }

    /// Whether taking the next recorded chunk may take the backend from
    /// this state to `after` and give `chunk`.
    open spec fn gives_chunk(&self, after: &Self, chunk: Option<Vec<u8>>) -> bool {
        true
    }

    /// Whether a request to stop the recording may take the backend from
    /// this state to `after` and end in `outcome`.
    open spec fn stops_recording(
        &self,
        after: &Self,
        outcome: Result<ActionResponse, HalError>,
    ) -> bool {
        true
    }

    /// Reads what the audio hardware can do.
    fn get_audio_info(&mut self) -> (r: Result<GetAudioInfoResponse, HalError>)
        ensures
            old(self).gets_audio_info(&*final(self), r),
    ;

    /// Whether opening a playback of the format `config` may take the
    /// backend from this state to `after` and end in `outcome`.
    open spec fn plays_audio(
        &self,
        after: &Self,
        config: AudioConfig,
        outcome: Result<ActionResponse, HalError>,
    ) -> bool {
        true
    }

    /// Whether opening a recording of the format `config` and the length
    /// `duration_ms` may take the backend from this state to `after` and end
    /// in `outcome`.
    open spec fn records_audio(
        &self,
        after: &Self,
        config: AudioConfig,
        duration_ms: u32,
        outcome: Result<(), HalError>,
    ) -> bool {
        true
    }

    /// Opens a playback of the given format.
    fn play_audio(&mut self, config: AudioConfig) -> (r: Result<ActionResponse, HalError>)
        ensures
            old(self).plays_audio(&*final(self), config, r),
    ;

    /// Plays one chunk of the opened playback.
    fn play_chunk(&mut self, audio_data: Vec<u8>) -> (r: Result<(), HalError>)
        ensures
            old(self).plays_chunk(&*final(self), audio_data, r),
    ;

    /// Opens a recording of the given format and length.
    fn record_audio(&mut self, config: AudioConfig, duration_ms: u32) -> (r: Result<
        (),
        HalError,
    >)
        ensures
            old(self).records_audio(&*final(self), config, duration_ms, r),
    ;

    /// Takes the next chunk of the opened recording; `None` at its end.
    fn next_chunk(&mut self) -> (chunk: Option<Vec<u8>>)
        ensures
            old(self).gives_chunk(&*final(self), chunk),
    ;

    /// Stops the opened recording.
    fn stop_recording(&mut self) -> (r: Result<ActionResponse, HalError>)
        ensures
            old(self).stops_recording(&*final(self), r),
    ;
}

/// What is known of a model.
#[derive(Debug)]
pub struct ModelMetadata {
    pub model_name: Option<String>,
    pub model_description: Option<String>,
    pub model_version: Option<String>,
    pub model_author: Option<String>,
}

/// A model that the backend holds.
#[derive(Debug)]
pub struct ModelInfo {
    pub uid: String,
    pub metadata: Option<ModelMetadata>,
}

/// The answer to an upload.
#[derive(Debug)]
pub struct UploadModelResponse {
    pub model: Option<ModelInfo>,
    pub error: Option<Error>,
}

/// Which models a request asks about.
#[derive(Debug)]
pub enum GetModelsInfoRequest {
    /// Every model the backend holds.
    All,
    /// The models with these identifiers.
    ModelUids(Vec<String>),
}

/// The answer to a request for model information.
#[derive(Debug)]
pub struct GetModelsInfoResponse {
    pub models: Vec<ModelInfo>,
    pub error: Option<Error>,
}

/// The answer to a request to load models.
#[derive(Debug)]
pub struct LoadModelsResponse {
    pub models: Vec<ModelInfo>,
    pub error: Option<Error>,
}

/// The answer to a forward pass.
#[derive(Debug)]
pub struct ForwardResponse {
    pub outputs: Vec<Single>,
    pub error: Option<Error>,
}

/// Model inference.
pub trait Inference {
    /// Whether storing `model` with `metadata` may take the backend from
    /// this state to `after` and end in `outcome`.
    open spec fn uploads_model(
        &self,
        after: &Self,
        model: Vec<u8>,
        metadata: Option<ModelMetadata>,
        outcome: Result<UploadModelResponse, HalError>,
    ) -> bool {
        true
    }

    /// Whether the request for model information may take the backend
    /// from this state to `after` and end in `outcome`.
    open spec fn gets_models_info(
        &self,
        after: &Self,
        request: GetModelsInfoRequest,
        outcome: Result<GetModelsInfoResponse, HalError>,
    ) -> bool {
        true
    }

    /// Whether loading the models `uids` may take the backend from this
    /// state to `after` and end in `outcome`.
    open spec fn loads_models(
        &self,
        after: &Self,
        uids: Vec<String>,
        outcome: Result<LoadModelsResponse, HalError>,
    ) -> bool {
        true
    }

    /// Whether unloading the models `uids` may take the backend from this
    /// state to `after` and end in `outcome`.
    open spec fn unloads_models(
        &self,
        after: &Self,
        uids: Vec<String>,
        outcome: Result<ActionResponse, HalError>,
    ) -> bool {
        true
    }

    /// Whether a forward pass of `model_uid` on `inputs` may take the
    /// backend from this state to `after` and end in `outcome`.
    open spec fn forwards(
        &self,
        after: &Self,
        model_uid: String,
        inputs: Vec<Single>,
        outcome: Result<ForwardResponse, HalError>,
    ) -> bool {
        true
    }

    /// Stores a model.
    fn upload_model(&mut self, model: Vec<u8>, metadata: Option<ModelMetadata>) -> (r: Result<
        UploadModelResponse,
        HalError,
    >)
        ensures
            old(self).uploads_model(&*final(self), model, metadata, r),
    ;

    /// Reads what is known of the models asked about.
    fn get_models_info(&mut self, request: GetModelsInfoRequest) -> (r: Result<
        GetModelsInfoResponse,
        HalError,
    >)
        ensures
            old(self).gets_models_info(&*final(self), request, r),
    ;

    /// Loads the models with the given identifiers.
    fn load_models(&mut self, uids: Vec<String>) -> (r: Result<LoadModelsResponse, HalError>)
        ensures
            old(self).loads_models(&*final(self), uids, r),
    ;

    /// Unloads the models with the given identifiers.
    fn unload_models(&mut self, uids: Vec<String>) -> (r: Result<ActionResponse, HalError>)
        ensures
            old(self).unloads_models(&*final(self), uids, r),
    ;

    /// Runs one forward pass of a loaded model.
    fn forward(&mut self, model_uid: String, inputs: Vec<Single>) -> (r: Result<
        ForwardResponse,
        HalError,
    >)
        ensures
            old(self).forwards(&*final(self), model_uid, inputs, r),
    ;
}

} // verus!
