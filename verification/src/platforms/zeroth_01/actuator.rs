//! Actuator control over serial bus servos.
//!
//! Angles and speeds are converted to and from servo units outside this
//! module; what is decided here is which servo operation a command stands
//! for and what the outcome of each operation means for the caller.

use crate::error::{Error, ErrorCode, ErrorView, HalError, Status, StatusCode, StatusView};
use crate::hal::{
    ActionResponse, ActionResponseView, ActionResult, ActionResultView, ActuatorCommand,
    ActuatorStateResponse,
};
use crate::platforms::zeroth_01::firmware::feetech::{
    answers, copy_request, reply_views, write1, BusReply, BusReplyView, BusRequest, BusRequestView,
    MemoryLockState, Servo, ServoRegister, TorqueMode,
};
use crate::scalar::{Double, Single};
use vstd::prelude::*;
use vstd::string::*;

verus! {

/// The servo operation a command stands for.
#[derive(Clone, Copy, Debug, PartialEq, Eq, Structural)]
pub enum ServoCommand {
    /// Move to the commanded position.
    Move,
    /// Turn at the commanded velocity.
    Spin,
    /// The command names no target: nothing to do.
    Nothing,
}

/// The servo operation a command stands for: a position wins over a
/// velocity.
pub open spec fn spec_command_kind(command: ActuatorCommand) -> ServoCommand {
    if command.position is Some {
        ServoCommand::Move
    } else if command.velocity is Some {
        ServoCommand::Spin
    } else {
        ServoCommand::Nothing
    }
}

/// The failure for a command whose outcome was never reported: nothing is
/// known of what became of it.
pub open spec fn unreported() -> ErrorView {
    ErrorView { code: ErrorCode::Unknown, message: "No outcome reported"@ }
}

/// The result for one command, given how its servo operation ended: success
/// where it went through, a hardware failure with the servo's report where
/// it did not, and a failure of its own where no outcome is reported.
pub open spec fn servo_result(
    command: ActuatorCommand,
    reported: Option<Result<(), Seq<char>>>,
) -> ActionResultView {
    ActionResultView {
        actuator_id: command.actuator_id,
        success: reported == Some(Ok::<(), Seq<char>>(())),
        error: match reported {
            Some(Ok(_)) => None,
            Some(Err(why)) => Some(ErrorView { code: ErrorCode::HardwareFailure, message: why }),
            None => Some(unreported()),
        },
    }
}

/// The model of the outcome of a servo operation.
pub open spec fn outcome_view(o: Result<(), String>) -> Result<(), Seq<char>> {
    match o {
        Ok(_) => Ok(()),
        Err(why) => Err(why@),
    }
}

/// The outcome reported for the command at position `i`, if the report
/// reaches that far.
pub open spec fn outcome_at(outcomes: Seq<Result<(), String>>, i: int) -> Option<
    Result<(), Seq<char>>,
> {
    if 0 <= i < outcomes.len() {
        Some(outcome_view(outcomes[i]))
    } else {
        None
    }
}

/// The sign and the magnitude of a speed as the servo reports it: the top
/// bit is the sign, the other fifteen the magnitude.
pub open spec fn spec_speed_parts(raw: u16) -> (bool, u16) {
    (raw >= 0x8000, (raw % 0x8000) as u16)
}

/// The state reported for a servo that does not answer.
pub open spec fn spec_offline_state(actuator_id: u32) -> ActuatorStateResponse {
    ActuatorStateResponse {
        actuator_id,
        online: false,
        position: None,
        velocity: None,
        torque: None,
        temperature: None,
        voltage: None,
        current: None,
    }
}

/// The conversation that configures a servo: unlock, each gain that is
/// given, the torque switch if given, lock.
pub open spec fn configure_script(
    id: u8,
    kp: Option<u8>,
    ki: Option<u8>,
    kd: Option<u8>,
    torque_enabled: Option<bool>,
) -> Seq<BusRequestView> {
    seq![write1(id, ServoRegister::LockMark, MemoryLockState::Unlocked.spec_value())] + (match kp {
        Some(v) => seq![write1(id, ServoRegister::PProportionalCoeff, v)],
        None => Seq::empty(),
    }) + (match ki {
        Some(v) => seq![write1(id, ServoRegister::IIntegralCoeff, v)],
        None => Seq::empty(),
    }) + (match kd {
        Some(v) => seq![write1(id, ServoRegister::DDifferentialCoeff, v)],
        None => Seq::empty(),
    }) + (match torque_enabled {
        Some(on) => seq![
            write1(
                id,
                ServoRegister::TorqueSwitch,
                if on {
                    TorqueMode::Enabled.spec_value()
                } else {
                    TorqueMode::Disabled.spec_value()
                },
            ),
        ],
        None => Seq::empty(),
    }) + seq![write1(id, ServoRegister::LockMark, MemoryLockState::Locked.spec_value())]
}

/// The status for a servo whose memory could not be unlocked or locked.
pub open spec fn lock_failed() -> StatusView {
    StatusView { code: StatusCode::Internal, message: "Failed to write to servo"@ }
}

/// Whether the write at position `i` of a configuration went through.
pub open spec fn written(replies: Seq<BusReplyView>, i: int) -> bool {
    0 <= i < replies.len() && replies[i] is Written
}

/// What a configuration answers, given the replies to its `n` writes: a
/// failure to unlock or to lock fails the request; a failure of a write in
/// between is reported in the response; otherwise the response reports
/// success.
pub open spec fn configure_outcome(n: int, replies: Seq<BusReplyView>) -> Result<
    ActionResponseView,
    StatusView,
> {
    if !written(replies, 0) || !written(replies, n - 1) {
        Err(lock_failed())
    } else if forall|i: int| 0 < i < n - 1 ==> written(replies, i) {
        Ok(ActionResponseView { success: true, error: None })
    } else {
        Ok(
            ActionResponseView {
                success: false,
                error: Some(
                    ErrorView {
                        code: ErrorCode::HardwareFailure,
                        message: "Failed to write to servo"@,
                    },
                ),
            },
        )
    }
}

/// The model of a [`ConfigureStep`].
pub enum ConfigureStepView {
    Next(BusRequestView),
    Done(Result<ActionResponseView, StatusView>),
}

/// What a configuration asks for next, or how it ended.
#[derive(Debug)]
pub enum ConfigureStep {
    /// Send this write and come back with its reply.
    Next(BusRequest),
    /// The configuration is over.
    Done(Result<ActionResponse, Status>),
}

impl View for ConfigureStep {
    type V = ConfigureStepView;

    open spec fn view(&self) -> ConfigureStepView {
        match self {
            ConfigureStep::Next(request) => ConfigureStepView::Next(request@),
            ConfigureStep::Done(Ok(response)) => ConfigureStepView::Done(Ok(response@)),
            ConfigureStep::Done(Err(status)) => ConfigureStepView::Done(Err(status@)),
        }
    }
}

/// The step of a configuration, given the replies so far. A servo whose
/// memory could not be unlocked is written to no further: the request has
/// failed. Otherwise every write of the conversation goes out, whether or
/// not the ones before it went through, and the replies to all of them
/// decide the answer.
pub open spec fn configure_step(
    id: u8,
    kp: Option<u8>,
    ki: Option<u8>,
    kd: Option<u8>,
    torque_enabled: Option<bool>,
    replies: Seq<BusReplyView>,
) -> ConfigureStepView {
    let script = configure_script(id, kp, ki, kd, torque_enabled);
    if replies.len() >= 1 && !written(replies, 0) {
        ConfigureStepView::Done(Err(lock_failed()))
    } else if replies.len() < script.len() {
        ConfigureStepView::Next(script[replies.len() as int])
    } else {
        ConfigureStepView::Done(configure_outcome(script.len() as int, replies))
    }
}

/// The replies that a bus gives to the writes of a configuration, as the
/// step function asks for them one after the other: `bus[k]` is what the
/// bus answers to the write at position `k`. The run ends with the unlock
/// where that is refused.
pub open spec fn configure_run(n: int, bus: Seq<BusReplyView>) -> Seq<BusReplyView> {
    if n >= 1 && bus.len() >= 1 && !(bus[0] is Written) {
        bus.take(1)
    } else {
        bus.take(n)
    }
}

/// A configuration always ends, and with the answer that the replies to its
/// writes decide: on the replies that the bus gave to the writes that went
/// out, the step function asks for nothing more and answers as the fold of
/// those replies does.
pub proof fn law_configuration_ends(
    id: u8,
    kp: Option<u8>,
    ki: Option<u8>,
    kd: Option<u8>,
    torque_enabled: Option<bool>,
    bus: Seq<BusReplyView>,
)
    requires
        bus.len() >= configure_script(id, kp, ki, kd, torque_enabled).len(),
    ensures
        ({
            let n = configure_script(id, kp, ki, kd, torque_enabled).len() as int;
            let run = configure_run(n, bus);
            &&& configure_step(id, kp, ki, kd, torque_enabled, run) == ConfigureStepView::Done(
                configure_outcome(n, run),
            )
            &&& forall|k: int|
                0 <= k < run.len() ==> #[trigger] configure_step(
                    id,
                    kp,
                    ki,
                    kd,
                    torque_enabled,
                    run.take(k),
                ) == ConfigureStepView::Next(configure_script(id, kp, ki, kd, torque_enabled)[k])
        }),
{
    let script = configure_script(id, kp, ki, kd, torque_enabled);
    let n = script.len() as int;
    let run = configure_run(n, bus);
    assert(n >= 2);
    assert forall|k: int| 0 <= k < run.len() implies #[trigger] configure_step(
        id,
        kp,
        ki,
        kd,
        torque_enabled,
        run.take(k),
    ) == ConfigureStepView::Next(script[k]) by {
        let sofar = run.take(k);
        if k >= 1 {
            assert(sofar[0] == run[0]);
            assert(run[0] == bus[0]);
            assert(run.len() > 1);
            assert(bus[0] is Written);
        }
    }
}

/// An actuator bank of serial bus servos.
pub struct ZBotActuator {
    servo: Servo,
}

impl ZBotActuator {
    /// An actuator bank on a bus that has been opened.
    pub fn new() -> (a: ZBotActuator) {
        ZBotActuator { servo: Servo::new() }
    }

    /// The driver of the servos.
    pub fn servo(&self) -> (s: &Servo) {
        &self.servo
    }

    /// The servo operation a command stands for.
    pub fn command_kind(command: &ActuatorCommand) -> (kind: ServoCommand)
        ensures
            kind == spec_command_kind(*command),
    {
        if command.position.is_some() {
            ServoCommand::Move
        } else if command.velocity.is_some() {
            ServoCommand::Spin
        } else {
            ServoCommand::Nothing
        }
    }

    /// Folds the outcomes of the servo operations of a batch into its
    /// results: exactly one result per command, in the order of the
    /// commands. A command without a reported outcome is reported as
    /// failed.
    pub fn command_actuators(
        commands: &Vec<ActuatorCommand>,
        outcomes: &Vec<Result<(), String>>,
    ) -> (results: Vec<ActionResult>)
        ensures
            results@.len() == commands@.len(),
            forall|i: int|
                0 <= i < commands@.len() ==> (#[trigger] results@[i])@ == servo_result(
                    commands@[i],
                    outcome_at(outcomes@, i),
                ),
    {
        let mut results: Vec<ActionResult> = Vec::new();
        let mut i: usize = 0;
        while i < commands.len()
            invariant
                i <= commands@.len(),
                results@.len() == i,
                forall|k: int|
                    0 <= k < i ==> (#[trigger] results@[k])@ == servo_result(
                        commands@[k],
                        outcome_at(outcomes@, k),
                    ),
            decreases commands@.len() - i,
        {
            let actuator_id = commands[i].actuator_id;
            let error = if i < outcomes.len() {
                match &outcomes[i] {
                    Ok(_) => None,
                    Err(why) => Some(
                        Error { code: ErrorCode::HardwareFailure, message: why.clone() },
                    ),
                }
            } else {
                Some(
                    Error {
                        code: ErrorCode::Unknown,
                        message: String::from_str("No outcome reported"),
                    },
                )
            };
            results.push(ActionResult { actuator_id, success: error.is_none(), error });
            i = i + 1;
        }
        results
    }

    /// The writes that configure servo `id`, in order.
    pub fn plan_configuration(
        id: u8,
        kp: Option<u8>,
        ki: Option<u8>,
        kd: Option<u8>,
        torque_enabled: Option<bool>,
    ) -> (script: Vec<BusRequest>)
        ensures
            script@.map_values(|r: BusRequest| r@) == configure_script(
                id,
                kp,
                ki,
                kd,
                torque_enabled,
            ),
    {
        let mut script: Vec<BusRequest> = Vec::new();
        script.push(
            register_write(id, ServoRegister::LockMark, MemoryLockState::Unlocked.value()),
        );
        if let Some(v) = kp {
            script.push(register_write(id, ServoRegister::PProportionalCoeff, v));
        }
        if let Some(v) = ki {
            script.push(register_write(id, ServoRegister::IIntegralCoeff, v));
        }
        if let Some(v) = kd {
            script.push(register_write(id, ServoRegister::DDifferentialCoeff, v));
        }
        if let Some(on) = torque_enabled {
            let mode = if on {
                TorqueMode::Enabled
            } else {
                TorqueMode::Disabled
            };
            script.push(register_write(id, ServoRegister::TorqueSwitch, mode.value()));
        }
        script.push(register_write(id, ServoRegister::LockMark, MemoryLockState::Locked.value()));
        assert(script@.map_values(|r: BusRequest| r@) =~= configure_script(
            id,
            kp,
            ki,
            kd,
            torque_enabled,
        ));
        script
    }

    /// What the configuration of servo `id` asks for next, or how it ended,
    /// given the replies to the writes that went out so far.
    pub fn configure_step(
        id: u8,
        kp: Option<u8>,
        ki: Option<u8>,
        kd: Option<u8>,
        torque_enabled: Option<bool>,
        replies: &Vec<BusReply>,
    ) -> (step: ConfigureStep)
        ensures
            step@ == self::configure_step(id, kp, ki, kd, torque_enabled, reply_views(replies@)),
    {
        let script = ZBotActuator::plan_configuration(id, kp, ki, kd, torque_enabled);
        let ghost views = script@.map_values(|r: BusRequest| r@);
        if replies.len() >= 1 && !is_written(replies, 0) {
            return ConfigureStep::Done(Err(Status::internal("Failed to write to servo")));
        }
        let sent: usize = replies.len();
        if sent < script.len() {
            assert(views[sent as int] == script@[sent as int]@);
            return ConfigureStep::Next(copy_request(&script[sent]));
        }
        ConfigureStep::Done(ZBotActuator::configure_actuator(script.len(), replies))
    }

    /// What a configuration of `writes` writes answers, given the replies
    /// to them.
    pub fn configure_actuator(writes: usize, replies: &Vec<BusReply>) -> (r: Result<
        ActionResponse,
        Status,
    >)
        ensures
            match configure_outcome(writes as int, reply_views(replies@)) {
                Ok(response) => r is Ok && r->Ok_0@ == response,
                Err(status) => r is Err && r->Err_0@ == status,
            },
    {
        let ghost views = reply_views(replies@);
        if writes == 0 || !is_written(replies, 0) || !is_written(replies, writes - 1) {
            return Err(Status::internal("Failed to write to servo"));
        }
        let mut i: usize = 1;
        while i < writes - 1
            invariant
                1 <= i,
                1 <= writes,
                views == reply_views(replies@),
                written(views, 0),
                written(views, writes - 1),
                forall|k: int| 0 < k < i ==> written(views, k),
            decreases writes - i,
        {
            if !is_written(replies, i) {
                return Ok(
                    ActionResponse {
                        success: false,
                        error: Some(
                            Error {
                                code: ErrorCode::HardwareFailure,
                                message: String::from_str("Failed to write to servo"),
                            },
                        ),
                    },
                );
            }
            i = i + 1;
        }
        Ok(ActionResponse::ok())
    }

    /// Calibration is not offered.
    pub fn calibrate_actuator(&self) -> (e: HalError)
        ensures
            e@ == (ErrorView {
                code: ErrorCode::NotImplemented,
                message: "Calibration not yet implemented"@,
            }),
    {
        HalError::new(
            ErrorCode::NotImplemented,
            String::from_str("Calibration not yet implemented"),
        )
    }

    /// The sign and the magnitude of a speed as the servo reports it.
    pub fn speed_parts(raw: u16) -> (parts: (bool, u16))
        ensures
            parts == spec_speed_parts(raw),
    {
        (raw >= 0x8000, raw % 0x8000)
    }

    /// The state reported for a servo that does not answer.
    pub fn offline_state(actuator_id: u32) -> (s: ActuatorStateResponse)
        ensures
            s == spec_offline_state(actuator_id),
    {
        ActuatorStateResponse {
            actuator_id,
            online: false,
            position: None,
            velocity: None,
            torque: None,
            temperature: None,
            voltage: None,
            current: None,
        }
    }

    /// The state reported for a servo that answers, from its converted
    /// readings. The servo reports no torque.
    pub fn online_state(
        actuator_id: u32,
        position: Double,
        velocity: Double,
        temperature: Double,
        voltage: Single,
        current: Single,
    ) -> (s: ActuatorStateResponse)
        ensures
            s == (ActuatorStateResponse {
                actuator_id,
                online: true,
                position: Some(position),
                velocity: Some(velocity),
                torque: None,
                temperature: Some(temperature),
                voltage: Some(voltage),
                current: Some(current),
            }),
    {
        ActuatorStateResponse {
            actuator_id,
            online: true,
            position: Some(position),
            velocity: Some(velocity),
            torque: None,
            temperature: Some(temperature),
            voltage: Some(voltage),
            current: Some(current),
        }
    }
}

fn register_write(id: u8, register: ServoRegister, value: u8) -> (request: BusRequest)
    ensures
        request@ == write1(id, register, value),
{
    let mut data: Vec<u8> = Vec::new();
    data.push(value);
    assert(data@ =~= seq![value]);
    BusRequest::Write { id, address: register.address(), data }
}

fn is_written(replies: &Vec<BusReply>, i: usize) -> (r: bool)
    ensures
        r == written(reply_views(replies@), i as int),
{
    if i < replies.len() {
        assert(reply_views(replies@)[i as int] == replies@[i as int]@);
        match &replies[i] {
            BusReply::Written => true,
            _ => false,
        }
    } else {
        false
    }
}

} // verus!
