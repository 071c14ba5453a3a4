//! Register-level conversations with serial bus servos.
//!
//! The bus itself is driven outside this module. Every operation here is a
//! conversation: given the replies received so far, it says which request
//! goes out next, or how the operation ended. The caller sends each request,
//! appends the reply, and asks again until the operation is done.

use crate::error::{ErrorCode, ErrorView, HalError};
use vstd::prelude::*;
use vstd::string::*;

verus! {

/// A register of a servo.
#[derive(Clone, Copy, Debug, PartialEq, Eq, Structural)]
pub enum ServoRegister {
    ID,
    MinAngleLimit,
    MaxAngleLimit,
    PProportionalCoeff,
    DDifferentialCoeff,
    IIntegralCoeff,
    TorqueSwitch,
    TargetLocation,
    RunningSpeed,
    LockMark,
    CurrentLocation,
    CurrentSpeed,
    CurrentLoad,
    CurrentVoltage,
    CurrentTemperature,
    CurrentCurrent,
}

impl ServoRegister {
    /// The address of the register in the servo's memory table.
    pub open spec fn spec_address(self) -> u8 {
        match self {
            ServoRegister::ID => 0x05,
            ServoRegister::MinAngleLimit => 0x09,
            ServoRegister::MaxAngleLimit => 0x0B,
            ServoRegister::PProportionalCoeff => 0x15,
            ServoRegister::DDifferentialCoeff => 0x16,
            ServoRegister::IIntegralCoeff => 0x17,
            ServoRegister::TorqueSwitch => 0x28,
            ServoRegister::TargetLocation => 0x2A,
            ServoRegister::RunningSpeed => 0x2E,
            ServoRegister::LockMark => 0x37,
            ServoRegister::CurrentLocation => 0x38,
            ServoRegister::CurrentSpeed => 0x3A,
            ServoRegister::CurrentLoad => 0x3C,
            ServoRegister::CurrentVoltage => 0x3E,
            ServoRegister::CurrentTemperature => 0x3F,
            ServoRegister::CurrentCurrent => 0x45,
        }
    }

    /// The address of the register in the servo's memory table.
    #[verifier::when_used_as_spec(spec_address)]
    pub fn address(self) -> (a: u8)
        ensures
            a == self.spec_address(),
    {
        match self {
            ServoRegister::ID => 0x05,
            ServoRegister::MinAngleLimit => 0x09,
            ServoRegister::MaxAngleLimit => 0x0B,
            ServoRegister::PProportionalCoeff => 0x15,
            ServoRegister::DDifferentialCoeff => 0x16,
            ServoRegister::IIntegralCoeff => 0x17,
            ServoRegister::TorqueSwitch => 0x28,
            ServoRegister::TargetLocation => 0x2A,
            ServoRegister::RunningSpeed => 0x2E,
            ServoRegister::LockMark => 0x37,
            ServoRegister::CurrentLocation => 0x38,
            ServoRegister::CurrentSpeed => 0x3A,
            ServoRegister::CurrentLoad => 0x3C,
            ServoRegister::CurrentVoltage => 0x3E,
            ServoRegister::CurrentTemperature => 0x3F,
            ServoRegister::CurrentCurrent => 0x45,
        }
    }
}

/// Whether the persistent part of a servo's memory accepts writes.
#[derive(Clone, Copy, Debug, PartialEq, Eq, Structural)]
pub enum MemoryLockState {
    Unlocked,
    Locked,
}

impl MemoryLockState {
    /// The value of the lock register for this state.
    pub open spec fn spec_value(self) -> u8 {
        match self {
            MemoryLockState::Unlocked => 0,
            MemoryLockState::Locked => 1,
        }
    }

    /// The value of the lock register for this state.
    #[verifier::when_used_as_spec(spec_value)]
    pub fn value(self) -> (v: u8)
        ensures
            v == self.spec_value(),
    {
        match self {
            MemoryLockState::Unlocked => 0,
            MemoryLockState::Locked => 1,
        }
    }
}

/// How a servo holds its shaft.
#[derive(Clone, Copy, Debug, PartialEq, Eq, Structural)]
pub enum TorqueMode {
    Disabled,
    Enabled,
    Stiff,
}

impl TorqueMode {
    /// The value of the torque register for this mode.
    pub open spec fn spec_value(self) -> u8 {
        match self {
            TorqueMode::Disabled => 0,
            TorqueMode::Enabled => 1,
            TorqueMode::Stiff => 2,
        }
    }

    /// The value of the torque register for this mode.
    #[verifier::when_used_as_spec(spec_value)]
    pub fn value(self) -> (v: u8)
        ensures
            v == self.spec_value(),
    {
        match self {
            TorqueMode::Disabled => 0,
            TorqueMode::Enabled => 1,
            TorqueMode::Stiff => 2,
        }
    }
}

/// The way a servo turns.
#[derive(Clone, Copy, Debug, PartialEq, Eq, Structural)]
pub enum ServoDirection {
    Clockwise,
    Counterclockwise,
}

impl ServoDirection {
    /// The sign the bus takes for this direction.
    pub open spec fn spec_sign(self) -> i32 {
        match self {
            ServoDirection::Clockwise => 1i32,
            ServoDirection::Counterclockwise => (-1i32) as i32,
        }
    }

    /// The sign the bus takes for this direction.
    #[verifier::when_used_as_spec(spec_sign)]
    pub fn sign(self) -> (s: i32)
        ensures
            s == self.spec_sign(),
    {
        match self {
            ServoDirection::Clockwise => 1,
            ServoDirection::Counterclockwise => -1,
        }
    }
}

/// What a servo does with its target.
#[derive(Clone, Copy, Debug, PartialEq, Eq, Structural)]
pub enum ServoMode {
    Position,
    ConstantSpeed,
    PWMOpenLoop,
    StepServo,
}

impl ServoMode {
    /// The value of the mode register for this mode.
    pub open spec fn spec_value(self) -> u8 {
        match self {
            ServoMode::Position => 0,
            ServoMode::ConstantSpeed => 1,
            ServoMode::PWMOpenLoop => 2,
            ServoMode::StepServo => 3,
        }
    }

    /// The value of the mode register for this mode.
    #[verifier::when_used_as_spec(spec_value)]
    pub fn value(self) -> (v: u8)
        ensures
            v == self.spec_value(),
    {
        match self {
            ServoMode::Position => 0,
            ServoMode::ConstantSpeed => 1,
            ServoMode::PWMOpenLoop => 2,
            ServoMode::StepServo => 3,
        }
    }
}

/// The run-time part of a servo's memory, as one read returns it.
#[derive(Clone, Copy, Debug, PartialEq, Eq, Structural)]
pub struct ServoInfo {
    pub torque_switch: u8,
    pub acceleration: u8,
    pub target_location: i16,
    pub running_time: u16,
    pub running_speed: u16,
    pub torque_limit: u16,
    pub lock_mark: u8,
    pub current_location: i16,
    pub current_speed: i16,
    pub current_load: i16,
    pub current_voltage: u8,
    pub current_temperature: u8,
    pub async_write_flag: u8,
    pub servo_status: u8,
    pub mobile_sign: u8,
    pub current_current: u16,
}

/// How many servos one bus carries.
pub const MAX_SERVOS: usize = 16;

/// The run-time memory of every servo of the bus, as the periodic read-out
/// last saw it.
#[derive(Clone, Copy, Debug)]
pub struct ServoData {
    pub servo: [ServoInfo; MAX_SERVOS],
    /// How many rounds the read-out has made.
    pub task_run_count: u32,
}

/// One write to several servos at once: for each slot a servo, a target
/// position, a time and a speed.
#[derive(Clone, Copy, Debug)]
pub struct ServoMultipleWriteCommand {
    /// Non-zero where only the positions are to be written.
    pub only_write_positions: u8,
    pub ids: [u8; MAX_SERVOS],
    pub positions: [i16; MAX_SERVOS],
    pub times: [u16; MAX_SERVOS],
    pub speeds: [u16; MAX_SERVOS],
}

/// The model of a [`BusRequest`].
pub enum BusRequestView {
    Write { id: u8, address: u8, data: Seq<u8> },
    Read { id: u8, address: u8, length: u8 },
    Move { id: u8, position: i16, time: u16, speed: u16 },
    SetMode { id: u8, mode: u8 },
    SetSpeed { id: u8, speed: u16, direction: i32 },
    EnableReadout,
    DisableReadout,
    EnableMovement,
    DisableMovement,
    ReadInfo { id: u8 },
    ReadContinuous,
    WriteMultiple(ServoMultipleWriteCommand),
}

/// One request on the bus.
#[derive(Debug)]
pub enum BusRequest {
    /// Write `data` to the memory of servo `id`, starting at `address`.
    Write { id: u8, address: u8, data: Vec<u8> },
    /// Read `length` bytes from the memory of servo `id`, starting at
    /// `address`.
    Read { id: u8, address: u8, length: u8 },
    /// Move servo `id` to `position` within `time` at `speed`.
    Move { id: u8, position: i16, time: u16, speed: u16 },
    /// Put servo `id` into the mode with the given register value.
    SetMode { id: u8, mode: u8 },
    /// Turn servo `id` at `speed`, forwards for a positive `direction`.
    SetSpeed { id: u8, speed: u16, direction: i32 },
    /// Start the periodic read-out of all servos.
    EnableReadout,
    /// Stop the periodic read-out of all servos.
    DisableReadout,
    /// Let the servos move.
    EnableMovement,
    /// Keep the servos from moving.
    DisableMovement,
    /// Read the run-time part of the memory of servo `id`.
    ReadInfo { id: u8 },
    /// Read what the periodic read-out last saw of every servo.
    ReadContinuous,
    /// Write to several servos at once.
    WriteMultiple(ServoMultipleWriteCommand),
}

impl View for BusRequest {
    type V = BusRequestView;

    open spec fn view(&self) -> BusRequestView {
        match self {
            BusRequest::Write { id, address, data } => BusRequestView::Write {
                id: *id,
                address: *address,
                data: data@,
            },
            BusRequest::Read { id, address, length } => BusRequestView::Read {
                id: *id,
                address: *address,
                length: *length,
            },
            BusRequest::Move { id, position, time, speed } => BusRequestView::Move {
                id: *id,
                position: *position,
                time: *time,
                speed: *speed,
            },
            BusRequest::SetMode { id, mode } => BusRequestView::SetMode { id: *id, mode: *mode },
            BusRequest::SetSpeed { id, speed, direction } => BusRequestView::SetSpeed {
                id: *id,
                speed: *speed,
                direction: *direction,
            },
            BusRequest::EnableReadout => BusRequestView::EnableReadout,
            BusRequest::DisableReadout => BusRequestView::DisableReadout,
            BusRequest::EnableMovement => BusRequestView::EnableMovement,
            BusRequest::DisableMovement => BusRequestView::DisableMovement,
            BusRequest::ReadInfo { id } => BusRequestView::ReadInfo { id: *id },
            BusRequest::ReadContinuous => BusRequestView::ReadContinuous,
            BusRequest::WriteMultiple(command) => BusRequestView::WriteMultiple(*command),
        }
    }
}

/// The model of a [`BusReply`].
pub enum BusReplyView {
    Written,
    Data(Seq<u8>),
    Info(ServoInfo),
    Continuous(ServoData),
    Failed,
}

/// The reply to one request.
#[derive(Debug)]
pub enum BusReply {
    /// The write went through.
    Written,
    /// The bytes that were read.
    Data(Vec<u8>),
    /// The run-time memory that was read.
    Info(ServoInfo),
    /// What the periodic read-out last saw.
    Continuous(ServoData),
    /// The servo did not answer, or refused.
    Failed,
}

impl View for BusReply {
    type V = BusReplyView;

    open spec fn view(&self) -> BusReplyView {
        match self {
            BusReply::Written => BusReplyView::Written,
            BusReply::Data(d) => BusReplyView::Data(d@),
            BusReply::Info(i) => BusReplyView::Info(*i),
            BusReply::Continuous(d) => BusReplyView::Continuous(*d),
            BusReply::Failed => BusReplyView::Failed,
        }
    }
}

/// The models of a run of replies.
pub open spec fn reply_views(replies: Seq<BusReply>) -> Seq<BusReplyView> {
    replies.map_values(|r: BusReply| r@)
}

/// Whether a reply answers a request: a read of bytes is answered by
/// exactly as many bytes as were asked for, a read of the run-time memory by
/// that memory, a read of the periodic read-out by what it saw, and
/// everything else by its acknowledgement.
pub open spec fn answers(request: BusRequestView, reply: BusReplyView) -> bool {
    match request {
        BusRequestView::Read { length, .. } => reply is Data && reply->Data_0.len() == length,
        BusRequestView::ReadInfo { .. } => reply is Info,
        BusRequestView::ReadContinuous => reply is Continuous,
        _ => reply is Written,
    }
}

/// How far a conversation has come.
pub enum Progress {
    /// The request at this position goes out next.
    Next(int),
    /// The request at this position was not answered.
    Failed(int),
    /// Every request was answered.
    Complete,
}

/// How far the conversation `script` has come with `replies`, looking at
/// the requests from position `from` on: the first request that is not
/// answered decides.
pub open spec fn progress_from(
    script: Seq<BusRequestView>,
    replies: Seq<BusReplyView>,
    from: int,
) -> Progress
    decreases script.len() - from,
{
    if from < 0 || from >= script.len() {
        Progress::Complete
    } else if from >= replies.len() {
        Progress::Next(from)
    } else if !answers(script[from], replies[from]) {
        Progress::Failed(from)
    } else {
        progress_from(script, replies, from + 1)
    }
}

/// How far the conversation `script` has come with `replies`.
pub open spec fn progress(script: Seq<BusRequestView>, replies: Seq<BusReplyView>) -> Progress {
    progress_from(script, replies, 0)
}

/// The failure of a write.
pub open spec fn write_failed() -> ErrorView {
    ErrorView { code: ErrorCode::HardwareFailure, message: "Failed to write to servo"@ }
}

/// The failure of a read.
pub open spec fn read_failed() -> ErrorView {
    ErrorView { code: ErrorCode::HardwareFailure, message: "Failed to read from servo"@ }
}

/// A write of one byte to a register.
pub open spec fn write1(id: u8, register: ServoRegister, value: u8) -> BusRequestView {
    BusRequestView::Write { id, address: register.spec_address(), data: seq![value] }
}

/// A read of `length` bytes from a register.
pub open spec fn read_of(id: u8, register: ServoRegister, length: u8) -> BusRequestView {
    BusRequestView::Read { id, address: register.spec_address(), length }
}

/// The signed number that two bytes stand for, least significant first.
pub open spec fn le_i16(lo: u8, hi: u8) -> i16 {
    let v = lo as int + 256 * (hi as int);
    if v >= 32768 {
        (v - 65536) as i16
    } else {
        v as i16
    }
}

/// The conversation that sets the control gains of a servo: unlock, the
/// three gains, lock.
pub open spec fn set_pid_script(id: u8, p: u8, i: u8, d: u8) -> Seq<BusRequestView> {
    seq![
        write1(id, ServoRegister::LockMark, MemoryLockState::Unlocked.spec_value()),
        write1(id, ServoRegister::PProportionalCoeff, p),
        write1(id, ServoRegister::IIntegralCoeff, i),
        write1(id, ServoRegister::DDifferentialCoeff, d),
        write1(id, ServoRegister::LockMark, MemoryLockState::Locked.spec_value()),
    ]
}

/// The conversation that reads the control gains of a servo.
pub open spec fn read_pid_script(id: u8) -> Seq<BusRequestView> {
    seq![
        read_of(id, ServoRegister::PProportionalCoeff, 1),
        read_of(id, ServoRegister::IIntegralCoeff, 1),
        read_of(id, ServoRegister::DDifferentialCoeff, 1),
    ]
}

/// The conversation that reads the angle limits of a servo.
pub open spec fn read_angle_limits_script(id: u8) -> Seq<BusRequestView> {
    seq![
        read_of(id, ServoRegister::MinAngleLimit, 2),
        read_of(id, ServoRegister::MaxAngleLimit, 2),
    ]
}

/// The model of a [`Step`] whose result is viewed through `T`.
pub enum StepView<T> {
    Next(BusRequestView),
    Done(Result<T, ErrorView>),
}

/// What an operation asks for next, or how it ended.
#[derive(Debug)]
pub enum Step<T> {
    /// Send this request and come back with its reply.
    Next(BusRequest),
    /// The operation is over.
    Done(Result<T, HalError>),
}

impl<T> Step<T> {
    /// The model of this step.
    pub open spec fn view(&self) -> StepView<T> {
        match self {
            Step::Next(request) => StepView::Next(request@),
            Step::Done(Ok(value)) => StepView::Done(Ok(*value)),
            Step::Done(Err(e)) => StepView::Done(Err(e@)),
        }
    }
}

/// The step of a conversation of writes only: the next write, the failure
/// of a write, or the end.
pub open spec fn write_step(script: Seq<BusRequestView>, replies: Seq<BusReplyView>) -> StepView<
    (),
> {
    match progress(script, replies) {
        Progress::Next(k) => StepView::Next(script[k]),
        Progress::Failed(_) => StepView::Done(Err(write_failed())),
        Progress::Complete => StepView::Done(Ok(())),
    }
}

/// The step of an operation of one request that is acknowledged: the
/// request, then success, or `failure` where it is not acknowledged.
pub open spec fn command_step(
    request: BusRequestView,
    replies: Seq<BusReplyView>,
    failure: Seq<char>,
) -> StepView<()> {
    match progress(seq![request], replies) {
        Progress::Next(_) => StepView::Next(request),
        Progress::Failed(_) => StepView::Done(
            Err(ErrorView { code: ErrorCode::HardwareFailure, message: failure }),
        ),
        Progress::Complete => StepView::Done(Ok(())),
    }
}

/// The step of a read of bytes: the request, then the bytes, or the failure
/// of a read.
pub open spec fn read_step(request: BusRequestView, replies: Seq<BusReplyView>) -> StepView<
    Seq<u8>,
> {
    match progress(seq![request], replies) {
        Progress::Next(_) => StepView::Next(request),
        Progress::Failed(_) => StepView::Done(Err(read_failed())),
        Progress::Complete => StepView::Done(Ok(replies[0]->Data_0)),
    }
}

/// The step of a read of the run-time memory.
pub open spec fn read_info_step(id: u8, replies: Seq<BusReplyView>) -> StepView<ServoInfo> {
    let request = BusRequestView::ReadInfo { id };
    match progress(seq![request], replies) {
        Progress::Next(_) => StepView::Next(request),
        Progress::Failed(_) => StepView::Done(
            Err(
                ErrorView {
                    code: ErrorCode::HardwareFailure,
                    message: "Failed to read servo info"@,
                },
            ),
        ),
        Progress::Complete => StepView::Done(Ok(replies[0]->Info_0)),
    }
}

/// The step of a read of the periodic read-out.
pub open spec fn read_continuous_step(replies: Seq<BusReplyView>) -> StepView<ServoData> {
    let request = BusRequestView::ReadContinuous;
    match progress(seq![request], replies) {
        Progress::Next(_) => StepView::Next(request),
        Progress::Failed(_) => StepView::Done(
            Err(
                ErrorView {
                    code: ErrorCode::HardwareFailure,
                    message: "Failed to read continuous servo data"@,
                },
            ),
        ),
        Progress::Complete => StepView::Done(Ok(replies[0]->Continuous_0)),
    }
}

/// The step of the conversation that reads the gains.
pub open spec fn read_pid_step(id: u8, replies: Seq<BusReplyView>) -> StepView<(u8, u8, u8)> {
    match progress(read_pid_script(id), replies) {
        Progress::Next(k) => StepView::Next(read_pid_script(id)[k]),
        Progress::Failed(_) => StepView::Done(Err(read_failed())),
        Progress::Complete => StepView::Done(
            Ok((replies[0]->Data_0[0], replies[1]->Data_0[0], replies[2]->Data_0[0])),
        ),
    }
}

/// The step of the conversation that reads the angle limits.
pub open spec fn read_angle_limits_step(id: u8, replies: Seq<BusReplyView>) -> StepView<
    (i16, i16),
> {
    match progress(read_angle_limits_script(id), replies) {
        Progress::Next(k) => StepView::Next(read_angle_limits_script(id)[k]),
        Progress::Failed(_) => StepView::Done(Err(read_failed())),
        Progress::Complete => StepView::Done(
            Ok(
                (
                    le_i16(replies[0]->Data_0[0], replies[0]->Data_0[1]),
                    le_i16(replies[1]->Data_0[0], replies[1]->Data_0[1]),
                ),
            ),
        ),
    }
}

/// The step of the conversation that looks for a servo: it is there exactly
/// where it answers a read of its number with that number; a servo that
/// does not answer is not there.
pub open spec fn scan_step(id: u8, replies: Seq<BusReplyView>) -> StepView<bool> {
    let script = seq![read_of(id, ServoRegister::ID, 1)];
    match progress(script, replies) {
        Progress::Next(k) => StepView::Next(script[k]),
        Progress::Failed(_) => StepView::Done(Ok(false)),
        Progress::Complete => StepView::Done(Ok(replies[0]->Data_0[0] == id)),
    }
}

/// Where a conversation stands, with positions as machine numbers.
enum Position {
    Next(usize),
    Failed(usize),
    Complete,
}

fn reply_answers(request: &BusRequest, reply: &BusReply) -> (r: bool)
    ensures
        r == answers(request@, reply@),
{
    match request {
        BusRequest::Read { length, .. } => match reply {
            BusReply::Data(d) => d.len() == *length as usize,
            _ => false,
        },
        BusRequest::ReadInfo { .. } => match reply {
            BusReply::Info(_) => true,
            _ => false,
        },
        BusRequest::ReadContinuous => match reply {
            BusReply::Continuous(_) => true,
            _ => false,
        },
        _ => match reply {
            BusReply::Written => true,
            _ => false,
        },
    }
}

/// The models of a run of requests.
pub open spec fn request_views(script: Seq<BusRequest>) -> Seq<BusRequestView> {
    script.map_values(|r: BusRequest| r@)
}

fn advance(script: &Vec<BusRequest>, replies: &Vec<BusReply>) -> (at: Position)
    ensures
        match at {
            Position::Next(k) => k < script@.len() && progress(
                request_views(script@),
                reply_views(replies@),
            ) == Progress::Next(k as int),
            Position::Failed(k) => k < script@.len() && progress(
                request_views(script@),
                reply_views(replies@),
            ) == Progress::Failed(k as int),
            Position::Complete => progress(request_views(script@), reply_views(replies@))
                == Progress::Complete && replies@.len() >= script@.len() && forall|k: int|
                0 <= k < script@.len() ==> answers(
                    #[trigger] request_views(script@)[k],
                    reply_views(replies@)[k],
                ),
        },
{
    let ghost s = request_views(script@);
    let ghost r = reply_views(replies@);
    let mut i: usize = 0;
    while i < script.len()
        invariant
            i <= script@.len(),
            s == request_views(script@),
            r == reply_views(replies@),
            progress(s, r) == progress_from(s, r, i as int),
            i <= replies@.len(),
            forall|k: int| 0 <= k < i ==> answers(#[trigger] s[k], r[k]),
        decreases script@.len() - i,
    {
        if i >= replies.len() {
            return Position::Next(i);
        }
        assert(s[i as int] == script@[i as int]@);
        assert(r[i as int] == replies@[i as int]@);
        if !reply_answers(&script[i], &replies[i]) {
            return Position::Failed(i);
        }
        i = i + 1;
    }
    Position::Complete
}

fn failure(message: &str) -> (e: HalError)
    ensures
        e@ == (ErrorView { code: ErrorCode::HardwareFailure, message: message@ }),
{
    HalError::new(ErrorCode::HardwareFailure, String::from_str(message))
}

fn write_request(id: u8, register: ServoRegister, value: u8) -> (request: BusRequest)
    ensures
        request@ == write1(id, register, value),
{
    let mut data: Vec<u8> = Vec::new();
    data.push(value);
    assert(data@ =~= seq![value]);
    BusRequest::Write { id, address: register.address(), data }
}

fn read_request(id: u8, register: ServoRegister, length: u8) -> (request: BusRequest)
    ensures
        request@ == read_of(id, register, length),
{
    BusRequest::Read { id, address: register.address(), length }
}

/// A request like `request`.
pub fn copy_request(request: &BusRequest) -> (copy: BusRequest)
    ensures
        copy@ == request@,
{
    match request {
        BusRequest::Write { id, address, data } => {
            let mut bytes: Vec<u8> = Vec::new();
            let mut i: usize = 0;
            while i < data.len()
                invariant
                    i <= data@.len(),
                    bytes@ == data@.subrange(0, i as int),
                decreases data@.len() - i,
            {
                bytes.push(data[i]);
                i = i + 1;
                assert(bytes@ =~= data@.subrange(0, i as int));
            }
            assert(data@.subrange(0, i as int) =~= data@);
            BusRequest::Write { id: *id, address: *address, data: bytes }
        },
        BusRequest::Read { id, address, length } => BusRequest::Read {
            id: *id,
            address: *address,
            length: *length,
        },
        BusRequest::Move { id, position, time, speed } => BusRequest::Move {
            id: *id,
            position: *position,
            time: *time,
            speed: *speed,
        },
        BusRequest::SetMode { id, mode } => BusRequest::SetMode { id: *id, mode: *mode },
        BusRequest::SetSpeed { id, speed, direction } => BusRequest::SetSpeed {
            id: *id,
            speed: *speed,
            direction: *direction,
        },
        BusRequest::EnableReadout => BusRequest::EnableReadout,
        BusRequest::DisableReadout => BusRequest::DisableReadout,
        BusRequest::EnableMovement => BusRequest::EnableMovement,
        BusRequest::DisableMovement => BusRequest::DisableMovement,
        BusRequest::ReadInfo { id } => BusRequest::ReadInfo { id: *id },
        BusRequest::ReadContinuous => BusRequest::ReadContinuous,
        BusRequest::WriteMultiple(command) => BusRequest::WriteMultiple(*command),
    }
}

fn write_conversation(script: &Vec<BusRequest>, replies: &Vec<BusReply>) -> (step: Step<()>)
    ensures
        step@ == write_step(request_views(script@), reply_views(replies@)),
{
    match advance(script, replies) {
        Position::Next(k) => {
            assert(request_views(script@)[k as int] == script@[k as int]@);
            Step::Next(copy_request(&script[k]))
        },
        Position::Failed(_) => Step::Done(Err(failure("Failed to write to servo"))),
        Position::Complete => Step::Done(Ok(())),
    }
}

fn command(request: BusRequest, replies: &Vec<BusReply>, failure_message: &str) -> (step: Step<()>)
    ensures
        step@ == command_step(request@, reply_views(replies@), failure_message@),
{
    let mut script: Vec<BusRequest> = Vec::new();
    script.push(request);
    assert(request_views(script@) =~= seq![request@]);
    match advance(&script, replies) {
        Position::Next(k) => {
            assert(request_views(script@)[k as int] == script@[k as int]@);
            Step::Next(copy_request(&script[k]))
        },
        Position::Failed(_) => Step::Done(Err(failure(failure_message))),
        Position::Complete => Step::Done(Ok(())),
    }
}

fn first_byte(reply: &BusReply) -> (b: u8)
    requires
        reply@ is Data,
        reply@->Data_0.len() >= 1,
    ensures
        b == reply@->Data_0[0],
{
    match reply {
        BusReply::Data(d) => d[0],
        _ => 0,
    }
}

fn first_word(reply: &BusReply) -> (w: i16)
    requires
        reply@ is Data,
        reply@->Data_0.len() >= 2,
    ensures
        w == le_i16(reply@->Data_0[0], reply@->Data_0[1]),
{
    match reply {
        BusReply::Data(d) => {
            let lo: u8 = d[0];
            let hi: u8 = d[1];
            let v: u32 = lo as u32 + 256 * (hi as u32);
            if v >= 32768 {
                (v as i32 - 65536) as i16
            } else {
                v as i16
            }
        },
        _ => 0,
    }
}

/// The driver of the servos on one bus.
#[derive(Debug)]
pub struct Servo {
    _private: (),
}

impl Servo {
    /// A driver for a bus that has been opened.
    pub fn new() -> (s: Servo) {
        Servo { _private: () }
    }

    /// Writes `data` to a register of servo `id`.
    pub fn write(
        &self,
        id: u8,
        register: ServoRegister,
        data: &Vec<u8>,
        replies: &Vec<BusReply>,
    ) -> (step: Step<()>)
        ensures
            step@ == write_step(
                seq![BusRequestView::Write { id, address: register.spec_address(), data: data@ }],
                reply_views(replies@),
            ),
    {
        let mut bytes: Vec<u8> = Vec::new();
        let mut i: usize = 0;
        while i < data.len()
            invariant
                i <= data@.len(),
                bytes@ == data@.subrange(0, i as int),
            decreases data@.len() - i,
        {
            bytes.push(data[i]);
            i = i + 1;
            assert(bytes@ =~= data@.subrange(0, i as int));
        }
        assert(data@.subrange(0, i as int) =~= data@);
        let mut script: Vec<BusRequest> = Vec::new();
        script.push(BusRequest::Write { id, address: register.address(), data: bytes });
        assert(request_views(script@) =~= seq![
            BusRequestView::Write { id, address: register.spec_address(), data: data@ },
        ]);
        write_conversation(&script, replies)
    }

    /// Reads `length` bytes from a register of servo `id`.
    pub fn read(
        &self,
        id: u8,
        register: ServoRegister,
        length: u8,
        replies: &Vec<BusReply>,
    ) -> (step: Step<Vec<u8>>)
        ensures
            match read_step(read_of(id, register, length), reply_views(replies@)) {
                StepView::Next(request) => step is Next && step->Next_0@ == request,
                StepView::Done(Ok(bytes)) => step is Done && step->Done_0 is Ok
                    && step->Done_0->Ok_0@ == bytes,
                StepView::Done(Err(e)) => step is Done && step->Done_0 is Err
                    && step->Done_0->Err_0@ == e,
            },
    {
        let mut script: Vec<BusRequest> = Vec::new();
        script.push(read_request(id, register, length));
        assert(request_views(script@) =~= seq![read_of(id, register, length)]);
        match advance(&script, replies) {
            Position::Next(k) => {
                assert(request_views(script@)[k as int] == script@[k as int]@);
                Step::Next(copy_request(&script[k]))
            },
            Position::Failed(_) => Step::Done(Err(failure("Failed to read from servo"))),
            Position::Complete => {
                let ghost s = request_views(script@);
                let ghost r = reply_views(replies@);
                assert(answers(s[0], r[0]));
                assert(r[0] == replies@[0]@);
                match &replies[0] {
                    BusReply::Data(d) => {
                        let mut bytes: Vec<u8> = Vec::new();
                        let mut i: usize = 0;
                        while i < d.len()
                            invariant
                                i <= d@.len(),
                                bytes@ == d@.subrange(0, i as int),
                            decreases d@.len() - i,
                        {
                            bytes.push(d[i]);
                            i = i + 1;
                            assert(bytes@ =~= d@.subrange(0, i as int));
                        }
                        assert(d@.subrange(0, i as int) =~= d@);
                        Step::Done(Ok(bytes))
                    },
                    _ => Step::Done(Err(failure("Failed to read from servo"))),
                }
            },
        }
    }

    /// Moves servo `id` to `position` within `time` at `speed`.
    pub fn move_servo(
        &self,
        id: u8,
        position: i16,
        time: u16,
        speed: u16,
        replies: &Vec<BusReply>,
    ) -> (step: Step<()>)
        ensures
            step@ == command_step(
                BusRequestView::Move { id, position, time, speed },
                reply_views(replies@),
                "Failed to move servo"@,
            ),
    {
        command(BusRequest::Move { id, position, time, speed }, replies, "Failed to move servo")
    }

    /// Starts the periodic read-out of all servos.
    pub fn enable_readout(&self, replies: &Vec<BusReply>) -> (step: Step<()>)
        ensures
            step@ == command_step(
                BusRequestView::EnableReadout,
                reply_views(replies@),
                "Failed to enable servo readout"@,
            ),
    {
        command(BusRequest::EnableReadout, replies, "Failed to enable servo readout")
    }

    /// Stops the periodic read-out of all servos.
    pub fn disable_readout(&self, replies: &Vec<BusReply>) -> (step: Step<()>)
        ensures
            step@ == command_step(
                BusRequestView::DisableReadout,
                reply_views(replies@),
                "Failed to disable servo readout"@,
            ),
    {
        command(BusRequest::DisableReadout, replies, "Failed to disable servo readout")
    }

    /// Lets the servos move.
    pub fn enable_movement(&self, replies: &Vec<BusReply>) -> (step: Step<()>)
        ensures
            step@ == command_step(
                BusRequestView::EnableMovement,
                reply_views(replies@),
                "Failed to enable servo movement"@,
            ),
    {
        command(BusRequest::EnableMovement, replies, "Failed to enable servo movement")
    }

    /// Keeps the servos from moving.
    pub fn disable_movement(&self, replies: &Vec<BusReply>) -> (step: Step<()>)
        ensures
            step@ == command_step(
                BusRequestView::DisableMovement,
                reply_views(replies@),
                "Failed to disable servo movement"@,
            ),
    {
        command(BusRequest::DisableMovement, replies, "Failed to disable servo movement")
    }

    /// Puts servo `id` into `mode`.
    pub fn set_mode(&self, id: u8, mode: ServoMode, replies: &Vec<BusReply>) -> (step: Step<()>)
        ensures
            step@ == command_step(
                BusRequestView::SetMode { id, mode: mode.spec_value() },
                reply_views(replies@),
                "Failed to set servo mode"@,
            ),
    {
        command(BusRequest::SetMode { id, mode: mode.value() }, replies, "Failed to set servo mode")
    }

    /// Turns servo `id` at `speed` in the given direction.
    pub fn set_speed(
        &self,
        id: u8,
        speed: u16,
        direction: ServoDirection,
        replies: &Vec<BusReply>,
    ) -> (step: Step<()>)
        ensures
            step@ == command_step(
                BusRequestView::SetSpeed { id, speed, direction: direction.spec_sign() },
                reply_views(replies@),
                "Failed to set servo speed"@,
            ),
    {
        command(
            BusRequest::SetSpeed { id, speed, direction: direction.sign() },
            replies,
            "Failed to set servo speed",
        )
    }

    /// Reads the run-time part of the memory of servo `id`.
    pub fn read_info(&self, id: u8, replies: &Vec<BusReply>) -> (step: Step<ServoInfo>)
        ensures
            step@ == read_info_step(id, reply_views(replies@)),
    {
        let mut script: Vec<BusRequest> = Vec::new();
        script.push(BusRequest::ReadInfo { id });
        assert(request_views(script@) =~= seq![BusRequestView::ReadInfo { id }]);
        match advance(&script, replies) {
            Position::Next(k) => {
                assert(request_views(script@)[k as int] == script@[k as int]@);
                Step::Next(copy_request(&script[k]))
            },
            Position::Failed(_) => Step::Done(Err(failure("Failed to read servo info"))),
            Position::Complete => {
                let ghost s = request_views(script@);
                let ghost r = reply_views(replies@);
                assert(answers(s[0], r[0]));
                assert(r[0] == replies@[0]@);
                match &replies[0] {
                    BusReply::Info(info) => Step::Done(Ok(*info)),
                    _ => Step::Done(Err(failure("Failed to read servo info"))),
                }
            },
        }
    }

    /// Reads what the periodic read-out last saw of every servo.
    pub fn read_continuous(&self, replies: &Vec<BusReply>) -> (step: Step<ServoData>)
        ensures
            step@ == read_continuous_step(reply_views(replies@)),
    {
        let mut script: Vec<BusRequest> = Vec::new();
        script.push(BusRequest::ReadContinuous);
        assert(request_views(script@) =~= seq![BusRequestView::ReadContinuous]);
        match advance(&script, replies) {
            Position::Next(k) => {
                assert(request_views(script@)[k as int] == script@[k as int]@);
                Step::Next(copy_request(&script[k]))
            },
            Position::Failed(_) => Step::Done(
                Err(failure("Failed to read continuous servo data")),
            ),
            Position::Complete => {
                let ghost s = request_views(script@);
                let ghost r = reply_views(replies@);
                assert(answers(s[0], r[0]));
                assert(r[0] == replies@[0]@);
                match &replies[0] {
                    BusReply::Continuous(data) => Step::Done(Ok(*data)),
                    _ => Step::Done(Err(failure("Failed to read continuous servo data"))),
                }
            },
        }
    }

    /// Writes to several servos at once.
    pub fn write_multiple(&self, cmd: &ServoMultipleWriteCommand, replies: &Vec<BusReply>) -> (step:
        Step<()>)
        ensures
            step@ == command_step(
                BusRequestView::WriteMultiple(*cmd),
                reply_views(replies@),
                "Failed to write multiple servo positions"@,
            ),
    {
        command(BusRequest::WriteMultiple(*cmd), replies, "Failed to write multiple servo positions")
    }

    /// Reads the control gains of servo `id`: proportional, integral,
    /// differential.
    pub fn read_pid(&self, id: u8, replies: &Vec<BusReply>) -> (step: Step<(u8, u8, u8)>)
        ensures
            step@ == read_pid_step(id, reply_views(replies@)),
    {
        let mut script: Vec<BusRequest> = Vec::new();
        script.push(read_request(id, ServoRegister::PProportionalCoeff, 1));
        script.push(read_request(id, ServoRegister::IIntegralCoeff, 1));
        script.push(read_request(id, ServoRegister::DDifferentialCoeff, 1));
        assert(request_views(script@) =~= read_pid_script(id));
        match advance(&script, replies) {
            Position::Next(k) => {
                assert(request_views(script@)[k as int] == script@[k as int]@);
                Step::Next(copy_request(&script[k]))
            },
            Position::Failed(_) => Step::Done(Err(failure("Failed to read from servo"))),
            Position::Complete => {
                let ghost s = request_views(script@);
                let ghost r = reply_views(replies@);
                assert(answers(s[0], r[0]) && answers(s[1], r[1]) && answers(s[2], r[2]));
                assert(r[0] == replies@[0]@ && r[1] == replies@[1]@ && r[2] == replies@[2]@);
                let p = first_byte(&replies[0]);
                let i = first_byte(&replies[1]);
                let d = first_byte(&replies[2]);
                Step::Done(Ok((p, i, d)))
            },
        }
    }

    /// Sets the control gains of servo `id`, unlocking its memory before and
    /// locking it after. The first write that fails ends the operation.
    pub fn set_pid(&self, id: u8, p: u8, i: u8, d: u8, replies: &Vec<BusReply>) -> (step: Step<()>)
        ensures
            step@ == write_step(set_pid_script(id, p, i, d), reply_views(replies@)),
    {
        let mut script: Vec<BusRequest> = Vec::new();
        script.push(write_request(id, ServoRegister::LockMark, MemoryLockState::Unlocked.value()));
        script.push(write_request(id, ServoRegister::PProportionalCoeff, p));
        script.push(write_request(id, ServoRegister::IIntegralCoeff, i));
        script.push(write_request(id, ServoRegister::DDifferentialCoeff, d));
        script.push(write_request(id, ServoRegister::LockMark, MemoryLockState::Locked.value()));
        assert(request_views(script@) =~= set_pid_script(id, p, i, d));
        write_conversation(&script, replies)
    }

    /// Locks or unlocks the persistent memory of servo `id`.
    pub fn set_memory_lock(&self, id: u8, state: MemoryLockState, replies: &Vec<BusReply>) -> (step:
        Step<()>)
        ensures
            step@ == write_step(
                seq![write1(id, ServoRegister::LockMark, state.spec_value())],
                reply_views(replies@),
            ),
    {
        let mut script: Vec<BusRequest> = Vec::new();
        script.push(write_request(id, ServoRegister::LockMark, state.value()));
        assert(request_views(script@) =~= seq![
            write1(id, ServoRegister::LockMark, state.spec_value()),
        ]);
        write_conversation(&script, replies)
    }

    /// Reads the lower and the upper angle limit of servo `id`.
    pub fn read_angle_limits(&self, id: u8, replies: &Vec<BusReply>) -> (step: Step<(i16, i16)>)
        ensures
            step@ == read_angle_limits_step(id, reply_views(replies@)),
    {
        let mut script: Vec<BusRequest> = Vec::new();
        script.push(read_request(id, ServoRegister::MinAngleLimit, 2));
        script.push(read_request(id, ServoRegister::MaxAngleLimit, 2));
        assert(request_views(script@) =~= read_angle_limits_script(id));
        match advance(&script, replies) {
            Position::Next(k) => {
                assert(request_views(script@)[k as int] == script@[k as int]@);
                Step::Next(copy_request(&script[k]))
            },
            Position::Failed(_) => Step::Done(Err(failure("Failed to read from servo"))),
            Position::Complete => {
                let ghost s = request_views(script@);
                let ghost r = reply_views(replies@);
                assert(answers(s[0], r[0]) && answers(s[1], r[1]));
                assert(r[0] == replies@[0]@ && r[1] == replies@[1]@);
                let min_limit = first_word(&replies[0]);
                let max_limit = first_word(&replies[1]);
                Step::Done(Ok((min_limit, max_limit)))
            },
        }
    }

    /// Sets how servo `id` holds its shaft.
    pub fn set_torque_mode(&self, id: u8, mode: TorqueMode, replies: &Vec<BusReply>) -> (step: Step<
        (),
    >)
        ensures
            step@ == write_step(
                seq![write1(id, ServoRegister::TorqueSwitch, mode.spec_value())],
                reply_views(replies@),
            ),
    {
        let mut script: Vec<BusRequest> = Vec::new();
        script.push(write_request(id, ServoRegister::TorqueSwitch, mode.value()));
        assert(request_views(script@) =~= seq![
            write1(id, ServoRegister::TorqueSwitch, mode.spec_value()),
        ]);
        write_conversation(&script, replies)
    }

    /// Writes a two-byte value to a register of servo `id`, least
    /// significant byte first.
    pub fn write_servo_memory(
        &self,
        id: u8,
        register: ServoRegister,
        value: u16,
        replies: &Vec<BusReply>,
    ) -> (step: Step<()>)
        ensures
            step@ == write_step(
                seq![
                    BusRequestView::Write {
                        id,
                        address: register.spec_address(),
                        data: seq![(value % 256) as u8, (value / 256) as u8],
                    },
                ],
                reply_views(replies@),
            ),
    {
        let mut data: Vec<u8> = Vec::new();
        data.push((value % 256) as u8);
        data.push((value / 256) as u8);
        assert(data@ =~= seq![(value % 256) as u8, (value / 256) as u8]);
        let mut script: Vec<BusRequest> = Vec::new();
        script.push(BusRequest::Write { id, address: register.address(), data });
        assert(request_views(script@) =~= seq![
            BusRequestView::Write {
                id,
                address: register.spec_address(),
                data: seq![(value % 256) as u8, (value / 256) as u8],
            },
        ]);
        write_conversation(&script, replies)
    }

    /// Looks for servo `id` on the bus.
    pub fn scan(&self, id: u8, replies: &Vec<BusReply>) -> (step: Step<bool>)
        ensures
            step@ == scan_step(id, reply_views(replies@)),
    {
        let mut script: Vec<BusRequest> = Vec::new();
        script.push(read_request(id, ServoRegister::ID, 1));
        assert(request_views(script@) =~= seq![read_of(id, ServoRegister::ID, 1)]);
        match advance(&script, replies) {
            Position::Next(k) => {
                assert(request_views(script@)[k as int] == script@[k as int]@);
                Step::Next(copy_request(&script[k]))
            },
            Position::Failed(_) => Step::Done(Ok(false)),
            Position::Complete => {
                let ghost s = request_views(script@);
                let ghost r = reply_views(replies@);
                assert(answers(s[0], r[0]));
                assert(r[0] == replies@[0]@);
                let found = first_byte(&replies[0]);
                Step::Done(Ok(found == id))
            },
        }
    }
}

} // verus!
