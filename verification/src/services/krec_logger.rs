//! The frame recorder: correlates independently published telemetry into
//! frames keyed by the inference step, and keeps the recording that is
//! written out at every checkpoint.

use crate::scalar::{or_zero, Double, Single};
use crate::telemetry_types::{ActuatorCommand, ActuatorState, ImuValues, ImuValuesView, Quaternion};
use crate::text::str_contains;
use vstd::prelude::*;
use vstd::string::*;

verus! {

/// Number of recorded frames between two forced checkpoints.
pub const CHECKPOINT_INTERVAL: usize = 500;

/// A three-axis reading.
#[derive(Clone, Copy, Debug)]
pub struct Vec3 {
    pub x: Double,
    pub y: Double,
    pub z: Double,
}

/// An orientation as recorded.
#[derive(Clone, Copy, Debug)]
pub struct ImuQuaternion {
    pub x: Double,
    pub y: Double,
    pub z: Double,
    pub w: Double,
}

/// The inertial part of a frame.
#[derive(Clone, Copy, Debug)]
pub struct FrameImu {
    pub accel: Option<Vec3>,
    pub gyro: Option<Vec3>,
    pub mag: Option<Vec3>,
    pub quaternion: Option<ImuQuaternion>,
}

/// The state of one actuator as recorded.
#[derive(Clone, Copy, Debug)]
pub struct FrameState {
    pub actuator_id: u32,
    pub online: bool,
    pub position: Option<Double>,
    pub velocity: Option<Double>,
    pub torque: Option<Double>,
    pub temperature: Option<Double>,
    pub voltage: Option<Single>,
    pub current: Option<Single>,
}

/// One actuator command as recorded. A target that the command left out is
/// recorded as zero.
#[derive(Clone, Copy, Debug)]
pub struct FrameCommand {
    pub actuator_id: u32,
    pub position: Double,
    pub velocity: Double,
    pub torque: Double,
}

/// The model of a [`Frame`].
pub struct FrameView {
    pub video_timestamp: u64,
    pub frame_number: u64,
    pub inference_step: u64,
    pub actuator_states: Seq<FrameState>,
    pub actuator_commands: Seq<FrameCommand>,
    pub imu_values: Option<FrameImu>,
}

/// One correlated snapshot of telemetry.
#[derive(Debug)]
pub struct Frame {
    pub video_timestamp: u64,
    pub frame_number: u64,
    pub inference_step: u64,
    pub actuator_states: Vec<FrameState>,
    pub actuator_commands: Vec<FrameCommand>,
    pub imu_values: Option<FrameImu>,
}

impl View for Frame {
    type V = FrameView;

    open spec fn view(&self) -> FrameView {
        FrameView {
            video_timestamp: self.video_timestamp,
            frame_number: self.frame_number,
            inference_step: self.inference_step,
            actuator_states: self.actuator_states@,
            actuator_commands: self.actuator_commands@,
            imu_values: self.imu_values,
        }
    }
}

/// The frame that holds nothing.
pub open spec fn empty_frame() -> FrameView {
    FrameView {
        video_timestamp: 0,
        frame_number: 0,
        inference_step: 0,
        actuator_states: Seq::empty(),
        actuator_commands: Seq::empty(),
        imu_values: None,
    }
}

impl FrameView {
    /// Whether no sample has been merged into the frame.
    pub open spec fn holds_nothing(self) -> bool {
        &&& self.imu_values is None
        &&& self.actuator_states.len() == 0
        &&& self.actuator_commands.len() == 0
    }
}

impl Frame {
    /// The frame that holds nothing.
    pub fn empty() -> (f: Frame)
        ensures
            f@ == empty_frame(),
    {
        Frame {
            video_timestamp: 0,
            frame_number: 0,
            inference_step: 0,
            actuator_states: Vec::new(),
            actuator_commands: Vec::new(),
            imu_values: None,
        }
    }

    /// Whether no sample has been merged into the frame.
    pub fn holds_nothing(&self) -> (r: bool)
        ensures
            r == self@.holds_nothing(),
    {
        self.imu_values.is_none() && self.actuator_states.len() == 0
            && self.actuator_commands.len() == 0
    }
}

/// The model of an [`ActuatorConfig`].
pub struct ActuatorConfigView {
    pub actuator_id: u32,
    pub kp: Option<Double>,
    pub kd: Option<Double>,
    pub ki: Option<Double>,
    pub max_torque: Option<Double>,
    pub name: Option<Seq<char>>,
}

/// How one actuator was configured while the recording was made.
#[derive(Debug)]
pub struct ActuatorConfig {
    pub actuator_id: u32,
    pub kp: Option<Double>,
    pub kd: Option<Double>,
    pub ki: Option<Double>,
    /// Largest torque, in newton metres.
    pub max_torque: Option<Double>,
    pub name: Option<String>,
}

impl View for ActuatorConfig {
    type V = ActuatorConfigView;

    open spec fn view(&self) -> ActuatorConfigView {
        ActuatorConfigView {
            actuator_id: self.actuator_id,
            kp: self.kp,
            kd: self.kd,
            ki: self.ki,
            max_torque: self.max_torque,
            name: crate::hal::text_view(self.name),
        }
    }
}

/// The models of a run of actuator configurations.
pub open spec fn config_views(configs: Seq<ActuatorConfig>) -> Seq<ActuatorConfigView> {
    configs.map_values(|c: ActuatorConfig| c@)
}

/// The model of a [`Header`].
pub struct HeaderView {
    pub uuid: Seq<char>,
    pub task: Seq<char>,
    pub robot_platform: Seq<char>,
    pub robot_serial: Seq<char>,
    pub start_timestamp: u64,
    pub end_timestamp: u64,
    pub actuator_configs: Seq<ActuatorConfigView>,
}

/// The leading record of a recording.
#[derive(Debug)]
pub struct Header {
    pub uuid: String,
    pub task: String,
    pub robot_platform: String,
    pub robot_serial: String,
    /// Nanoseconds since the epoch at which the recording began.
    pub start_timestamp: u64,
    /// Nanoseconds since the epoch at which the recording was stopped; zero
    /// until then.
    pub end_timestamp: u64,
    /// The manifest of actuator configurations.
    pub actuator_configs: Vec<ActuatorConfig>,
}

impl View for Header {
    type V = HeaderView;

    open spec fn view(&self) -> HeaderView {
        HeaderView {
            uuid: self.uuid@,
            task: self.task@,
            robot_platform: self.robot_platform@,
            robot_serial: self.robot_serial@,
            start_timestamp: self.start_timestamp,
            end_timestamp: self.end_timestamp,
            actuator_configs: config_views(self.actuator_configs@),
        }
    }
}

impl HeaderView {
    /// Whether two headers name the same recording of the same robot, with
    /// the same manifest.
    pub open spec fn same_identity(self, other: HeaderView) -> bool {
        &&& self.uuid == other.uuid
        &&& self.task == other.task
        &&& self.robot_platform == other.robot_platform
        &&& self.robot_serial == other.robot_serial
        &&& self.start_timestamp == other.start_timestamp
        &&& self.actuator_configs == other.actuator_configs
    }
}

/// The stream a message was published on, told by its topic.
#[derive(Clone, Copy, Debug, PartialEq, Eq, Structural)]
pub enum TopicKind {
    ImuValues,
    ImuQuaternion,
    ActuatorState,
    ActuatorCommand,
    /// A topic the recorder has no use for.
    Other,
}

/// The stream that a topic belongs to: the first of the four stream
/// suffixes that occurs anywhere in the topic decides.
pub open spec fn topic_kind(topic: Seq<char>) -> TopicKind {
    if crate::text::contains(topic, "/imu/values"@) {
        TopicKind::ImuValues
    } else if crate::text::contains(topic, "/imu/quaternion"@) {
        TopicKind::ImuQuaternion
    } else if crate::text::contains(topic, "/actuator/state"@) {
        TopicKind::ActuatorState
    } else if crate::text::contains(topic, "/actuator/command"@) {
        TopicKind::ActuatorCommand
    } else {
        TopicKind::Other
    }
}

/// Tells which stream a topic belongs to, and so how its payload is to be
/// decoded.
pub fn classify_topic(topic: &str) -> (kind: TopicKind)
    ensures
        kind == topic_kind(topic@),
{
    if str_contains(topic, "/imu/values") {
        TopicKind::ImuValues
    } else if str_contains(topic, "/imu/quaternion") {
        TopicKind::ImuQuaternion
    } else if str_contains(topic, "/actuator/state") {
        TopicKind::ActuatorState
    } else if str_contains(topic, "/actuator/command") {
        TopicKind::ActuatorCommand
    } else {
        TopicKind::Other
    }
}

/// The model of a [`Payload`].
pub enum PayloadView {
    ImuValues(ImuValuesView),
    ImuQuaternion(Quaternion),
    ActuatorStates(Seq<ActuatorState>),
    ActuatorCommands(Seq<ActuatorCommand>),
}

/// The decoded content of one telemetry message.
#[derive(Debug)]
pub enum Payload {
    ImuValues(ImuValues),
    ImuQuaternion(Quaternion),
    ActuatorStates(Vec<ActuatorState>),
    ActuatorCommands(Vec<ActuatorCommand>),
}

impl View for Payload {
    type V = PayloadView;

    open spec fn view(&self) -> PayloadView {
        match self {
            Payload::ImuValues(v) => PayloadView::ImuValues(v@),
            Payload::ImuQuaternion(q) => PayloadView::ImuQuaternion(*q),
            Payload::ActuatorStates(s) => PayloadView::ActuatorStates(s@),
            Payload::ActuatorCommands(c) => PayloadView::ActuatorCommands(c@),
        }
    }
}

/// The model of a [`Message`].
pub struct MessageView {
    pub frame_number: u64,
    pub video_timestamp: u64,
    pub inference_step: u64,
    pub payload: PayloadView,
}

/// One decoded telemetry message: the correlation counters it was published
/// with, and its content.
#[derive(Debug)]
pub struct Message {
    pub frame_number: u64,
    pub video_timestamp: u64,
    pub inference_step: u64,
    pub payload: Payload,
}

impl View for Message {
    type V = MessageView;

    open spec fn view(&self) -> MessageView {
        MessageView {
            frame_number: self.frame_number,
            video_timestamp: self.video_timestamp,
            inference_step: self.inference_step,
            payload: self.payload@,
        }
    }
}

/// The orientation that an inertial part holds, if it holds one.
pub open spec fn quaternion_of(imu: Option<FrameImu>) -> Option<ImuQuaternion> {
    match imu {
        Some(i) => i.quaternion,
        None => None,
    }
}

/// The inertial part after a sample arrived: acceleration and angular rate
/// as sampled; the magnetic field only where its first component was
/// measured (missing components then count as zero); the orientation as it
/// was before.
pub open spec fn recorded_imu(imu: Option<FrameImu>, v: ImuValuesView) -> FrameImu {
    FrameImu {
        accel: Some(Vec3 { x: v.accel_x, y: v.accel_y, z: v.accel_z }),
        gyro: Some(Vec3 { x: v.gyro_x, y: v.gyro_y, z: v.gyro_z }),
        mag: if v.mag_x is Some {
            Some(Vec3 { x: or_zero(v.mag_x), y: or_zero(v.mag_y), z: or_zero(v.mag_z) })
        } else {
            None
        },
        quaternion: quaternion_of(imu),
    }
}

/// The inertial part after an orientation arrived: what was there, or
/// nothing, with the orientation set.
pub open spec fn with_quaternion(imu: Option<FrameImu>, q: Quaternion) -> FrameImu {
    let base = match imu {
        Some(i) => i,
        None => FrameImu { accel: None, gyro: None, mag: None, quaternion: None },
    };
    FrameImu {
        quaternion: Some(ImuQuaternion { x: q.x, y: q.y, z: q.z, w: q.w }),
        ..base
    }
}

/// The recorded form of a published actuator state.
pub open spec fn recorded_state(s: ActuatorState) -> FrameState {
    FrameState {
        actuator_id: s.actuator_id,
        online: s.online,
        position: s.position,
        velocity: s.velocity,
        torque: s.torque,
        temperature: s.temperature,
        voltage: s.voltage,
        current: s.current,
    }
}

/// The recorded form of a published actuator command.
pub open spec fn recorded_command(c: ActuatorCommand) -> FrameCommand {
    FrameCommand {
        actuator_id: c.actuator_id,
        position: or_zero(c.position),
        velocity: or_zero(c.velocity),
        torque: or_zero(c.torque),
    }
}

/// The frame after one message was merged into it. Each stream touches only
/// its own part of the frame; a command message also sets the frame's three
/// counters to those it was published with.
pub open spec fn merged(frame: FrameView, m: MessageView) -> FrameView {
    match m.payload {
        PayloadView::ImuValues(v) => FrameView {
            imu_values: Some(recorded_imu(frame.imu_values, v)),
            ..frame
        },
        PayloadView::ImuQuaternion(q) => FrameView {
            imu_values: Some(with_quaternion(frame.imu_values, q)),
            ..frame
        },
        PayloadView::ActuatorStates(s) => FrameView {
            actuator_states: frame.actuator_states + s.map_values(
                |x: ActuatorState| recorded_state(x),
            ),
            ..frame
        },
        PayloadView::ActuatorCommands(c) => FrameView {
            inference_step: m.inference_step,
            video_timestamp: m.video_timestamp,
            frame_number: m.frame_number,
            actuator_commands: frame.actuator_commands + c.map_values(
                |x: ActuatorCommand| recorded_command(x),
            ),
            ..frame
        },
    }
}

fn push_states(into: &mut Vec<FrameState>, states: &Vec<ActuatorState>)
    ensures
        final(into)@ == old(into)@ + states@.map_values(|x: ActuatorState| recorded_state(x)),
{
    let mut i: usize = 0;
    while i < states.len()
        invariant
            i <= states@.len(),
            into@ == old(into)@ + states@.subrange(0, i as int).map_values(
                |x: ActuatorState| recorded_state(x),
            ),
        decreases states@.len() - i,
    {
        let s = &states[i];
        into.push(
            FrameState {
                actuator_id: s.actuator_id,
                online: s.online,
                position: s.position,
                velocity: s.velocity,
                torque: s.torque,
                temperature: s.temperature,
                voltage: s.voltage,
                current: s.current,
            },
        );
        i = i + 1;
        assert(into@ =~= old(into)@ + states@.subrange(0, i as int).map_values(
            |x: ActuatorState| recorded_state(x),
        ));
    }
    assert(states@.subrange(0, i as int) =~= states@);
}

fn push_commands(into: &mut Vec<FrameCommand>, commands: &Vec<ActuatorCommand>)
    ensures
        final(into)@ == old(into)@ + commands@.map_values(
            |x: ActuatorCommand| recorded_command(x),
        ),
{
    let mut i: usize = 0;
    while i < commands.len()
        invariant
            i <= commands@.len(),
            into@ == old(into)@ + commands@.subrange(0, i as int).map_values(
                |x: ActuatorCommand| recorded_command(x),
            ),
        decreases commands@.len() - i,
    {
        let c = &commands[i];
        into.push(
            FrameCommand {
                actuator_id: c.actuator_id,
                position: or_zero(c.position),
                velocity: or_zero(c.velocity),
                torque: or_zero(c.torque),
            },
        );
        i = i + 1;
        assert(into@ =~= old(into)@ + commands@.subrange(0, i as int).map_values(
            |x: ActuatorCommand| recorded_command(x),
        ));
    }
    assert(commands@.subrange(0, i as int) =~= commands@);
}

/// Arrival order across streams does not matter: two messages of different
/// streams leave the same frame whichever of them is merged first.
pub proof fn law_streams_commute(frame: FrameView, a: MessageView, b: MessageView)
    requires
        a.payload.kind() != b.payload.kind(),
    ensures
        merged(merged(frame, a), b) == merged(merged(frame, b), a),
{
    assert(merged(merged(frame, a), b).actuator_states =~= merged(
        merged(frame, b),
        a,
    ).actuator_states);
    assert(merged(merged(frame, a), b).actuator_commands =~= merged(
        merged(frame, b),
        a,
    ).actuator_commands);
}

/// Merges one message into a frame.
pub fn merge(frame: &mut Frame, message: &Message)
    ensures
        final(frame)@ == merged(old(frame)@, message@),
{
    match &message.payload {
        Payload::ImuValues(v) => {
            let mag = if v.mag_x.is_some() {
                Some(Vec3 { x: or_zero(v.mag_x), y: or_zero(v.mag_y), z: or_zero(v.mag_z) })
            } else {
                None
            };
            let quaternion = match frame.imu_values {
                Some(i) => i.quaternion,
                None => None,
            };
            frame.imu_values = Some(
                FrameImu {
                    accel: Some(Vec3 { x: v.accel_x, y: v.accel_y, z: v.accel_z }),
                    gyro: Some(Vec3 { x: v.gyro_x, y: v.gyro_y, z: v.gyro_z }),
                    mag,
                    quaternion,
                },
            );
        },
        Payload::ImuQuaternion(q) => {
            let base = match frame.imu_values {
                Some(i) => i,
                None => FrameImu { accel: None, gyro: None, mag: None, quaternion: None },
            };
            frame.imu_values = Some(
                FrameImu {
                    accel: base.accel,
                    gyro: base.gyro,
                    mag: base.mag,
                    quaternion: Some(ImuQuaternion { x: q.x, y: q.y, z: q.z, w: q.w }),
                },
            );
        },
        Payload::ActuatorStates(s) => {
            push_states(&mut frame.actuator_states, s);
        },
        Payload::ActuatorCommands(c) => {
            frame.inference_step = message.inference_step;
            frame.video_timestamp = message.video_timestamp;
            frame.frame_number = message.frame_number;
            push_commands(&mut frame.actuator_commands, c);
        },
    }
}


/// The model of a [`TelemetryLogger`].
pub struct RecorderView {
    /// The leading record of the recording.
    pub header: HeaderView,
    /// The frames recorded so far, oldest first.
    pub frames: Seq<FrameView>,
    /// The frame in progress.
    pub current: FrameView,
    /// The step at which a frame was last recorded; zero before the first.
    pub last_step: u64,
    /// Where checkpoints are written.
    pub output_path: Seq<char>,
    /// The steps carried by the messages merged into the frame in progress.
    pub pending: Seq<u64>,
    /// For each recorded frame, the steps carried by the messages it was
    /// built from.
    pub sources: Seq<Seq<u64>>,
}

impl RecorderView {
    /// What holds of every recorder: recorded frames are in step order and
    /// none lies beyond the last recorded step; a frame holds only data
    /// published at or before its own step; and whatever waits in the frame
    /// in progress was published at or before the last recorded step.
    pub open spec fn wf(self) -> bool {
        &&& self.sources.len() == self.frames.len()
        &&& forall|i: int, j: int|
            0 <= i < j < self.frames.len() ==> self.frames[i].inference_step
                <= self.frames[j].inference_step
        &&& forall|i: int|
            0 <= i < self.frames.len() ==> #[trigger] self.frames[i].inference_step
                <= self.last_step
        &&& forall|i: int, k: int|
            0 <= i < self.sources.len() && 0 <= k < self.sources[i].len()
                ==> #[trigger] self.sources[i][k] <= self.frames[i].inference_step
        &&& forall|k: int|
            0 <= k < self.pending.len() ==> #[trigger] self.pending[k] <= self.last_step
    }

    /// Whether `m` closes the frame in progress: it carries a step beyond
    /// the last recorded one.
    pub open spec fn closes_frame(self, m: MessageView) -> bool {
        m.inference_step > self.last_step
    }
}

/// The recorder after one message. The message is merged into the frame in
/// progress. If it carries a step beyond the last recorded one, the frame
/// takes that step as its own, is appended to the recording, and an empty
/// frame takes its place.
pub open spec fn ingested(s: RecorderView, m: MessageView) -> RecorderView {
    let frame = merged(s.current, m);
    if s.closes_frame(m) {
        RecorderView {
            frames: s.frames.push(FrameView { inference_step: m.inference_step, ..frame }),
            current: empty_frame(),
            last_step: m.inference_step,
            pending: Seq::empty(),
            sources: s.sources.push(s.pending.push(m.inference_step)),
            ..s
        }
    } else {
        RecorderView { current: frame, pending: s.pending.push(m.inference_step), ..s }
    }
}

/// The recorder after a stop at time `now`: the header's end is set, and a
/// frame in progress that holds anything is appended under the last recorded
/// step. Recorded frames stay as they are.
pub open spec fn stopped(s: RecorderView, now: u64) -> RecorderView {
    let header = HeaderView { end_timestamp: now, ..s.header };
    if s.current.holds_nothing() {
        RecorderView { header, ..s }
    } else {
        RecorderView {
            header,
            frames: s.frames.push(FrameView { inference_step: s.last_step, ..s.current }),
            current: empty_frame(),
            pending: Seq::empty(),
            sources: s.sources.push(s.pending),
            ..s
        }
    }
}

/// The recorder after a sequence of messages, first to last.
pub open spec fn run(s: RecorderView, msgs: Seq<MessageView>) -> RecorderView
    decreases msgs.len(),
{
    if msgs.len() == 0 {
        s
    } else {
        run(ingested(s, msgs[0]), msgs.drop_first())
    }
}

/// How many messages of a sequence carry a step beyond every step before
/// them and beyond `last`.
pub open spec fn rises(last: u64, msgs: Seq<MessageView>) -> nat
    decreases msgs.len(),
{
    if msgs.len() == 0 {
        0
    } else if msgs[0].inference_step > last {
        1 + rises(msgs[0].inference_step, msgs.drop_first())
    } else {
        rises(last, msgs.drop_first())
    }
}

/// What one call of [`TelemetryLogger::ingest`] did.
#[derive(Clone, Copy, Debug, PartialEq, Eq, Structural)]
pub struct Ingested {
    /// A frame was appended to the recording.
    pub flushed: bool,
    /// The recording is due to be written out.
    pub checkpoint: bool,
}

/// What became of a message that arrived under a topic.
#[derive(Clone, Copy, Debug, PartialEq, Eq, Structural)]
pub enum Taken {
    /// The message was dropped; the caller logs a warning.
    Dropped,
    /// The message was merged into the frame in progress.
    Merged(Ingested),
}

impl PayloadView {
    /// The stream that a payload belongs to.
    pub open spec fn kind(self) -> TopicKind {
        match self {
            PayloadView::ImuValues(_) => TopicKind::ImuValues,
            PayloadView::ImuQuaternion(_) => TopicKind::ImuQuaternion,
            PayloadView::ActuatorStates(_) => TopicKind::ActuatorState,
            PayloadView::ActuatorCommands(_) => TopicKind::ActuatorCommand,
        }
    }
}

impl Payload {
    /// The stream that a payload belongs to.
    pub fn kind(&self) -> (k: TopicKind)
        ensures
            k == self@.kind(),
    {
        match self {
            Payload::ImuValues(_) => TopicKind::ImuValues,
            Payload::ImuQuaternion(_) => TopicKind::ImuQuaternion,
            Payload::ActuatorStates(_) => TopicKind::ActuatorState,
            Payload::ActuatorCommands(_) => TopicKind::ActuatorCommand,
        }
    }
}

/// The message that is taken in for what arrived under a topic: the decoded
/// message where there is one and it is of the stream the topic names.
pub open spec fn accepted(topic: Seq<char>, decoded: Option<Message>) -> Option<Message> {
    match decoded {
        Some(m) => if m@.payload.kind() == topic_kind(topic) {
            Some(m)
        } else {
            None
        },
        None => None,
    }
}

/// The frame recorder.
pub struct TelemetryLogger {
    header: Header,
    frames: Vec<Frame>,
    current_frame: Frame,
    current_inference_step: u64,
    output_path: String,
    pending: Ghost<Seq<u64>>,
    sources: Ghost<Seq<Seq<u64>>>,
}

/// The models of a run of frames.
pub open spec fn frame_views(frames: Seq<Frame>) -> Seq<FrameView> {
    frames.map_values(|f: Frame| f@)
}

impl View for TelemetryLogger {
    type V = RecorderView;

    closed spec fn view(&self) -> RecorderView {
        RecorderView {
            header: self.header@,
            frames: frame_views(self.frames@),
            current: self.current_frame@,
            last_step: self.current_inference_step,
            output_path: self.output_path@,
            pending: self.pending@,
            sources: self.sources@,
        }
    }
}

/// The three topics a recorder listens to for the robot `name`-`serial`:
/// inertial samples, actuator states and actuator commands.
pub open spec fn subscription_topics(name: Seq<char>, serial: Seq<char>) -> Seq<Seq<char>> {
    let prefix = "robots/"@ + name + "-"@ + serial;
    seq![
        prefix + "/imu/values"@,
        prefix + "/actuator/state"@,
        prefix + "/actuator/command"@,
    ]
}

fn robot_topic(name: &str, serial: &str, suffix: &str) -> (t: String)
    ensures
        t@ == "robots/"@ + name@ + "-"@ + serial@ + suffix@,
{
    let mut t = String::from_str("robots/");
    t.append(name);
    t.append("-");
    t.append(serial);
    t.append(suffix);
    t
}

impl TelemetryLogger {
    /// A recorder for one recording of one robot, started at `start`
    /// (nanoseconds since the epoch). Nothing is recorded yet, the header's
    /// end is zero and its manifest is empty.
    pub fn new(
        uuid: String,
        action: String,
        output_path: String,
        robot_name: String,
        robot_serial: String,
        start: u64,
    ) -> (logger: TelemetryLogger)
        ensures
            logger@.wf(),
            logger@ == (RecorderView {
                header: HeaderView {
                    uuid: uuid@,
                    task: action@,
                    robot_platform: robot_name@,
                    robot_serial: robot_serial@,
                    start_timestamp: start,
                    end_timestamp: 0,
                    actuator_configs: Seq::empty(),
                },
                frames: Seq::empty(),
                current: empty_frame(),
                last_step: 0,
                output_path: output_path@,
                pending: Seq::empty(),
                sources: Seq::empty(),
            }),
    {
        let logger = TelemetryLogger::with_manifest(
            uuid,
            action,
            output_path,
            robot_name,
            robot_serial,
            start,
            Vec::new(),
        );
        assert(logger@.header.actuator_configs =~= Seq::empty());
        logger
    }

    /// A recorder like that of [`TelemetryLogger::new`], with the manifest
    /// of actuator configurations that its header carries.
    pub fn with_manifest(
        uuid: String,
        action: String,
        output_path: String,
        robot_name: String,
        robot_serial: String,
        start: u64,
        actuator_configs: Vec<ActuatorConfig>,
    ) -> (logger: TelemetryLogger)
        ensures
            logger@.wf(),
            logger@ == (RecorderView {
                header: HeaderView {
                    uuid: uuid@,
                    task: action@,
                    robot_platform: robot_name@,
                    robot_serial: robot_serial@,
                    start_timestamp: start,
                    end_timestamp: 0,
                    actuator_configs: config_views(actuator_configs@),
                },
                frames: Seq::empty(),
                current: empty_frame(),
                last_step: 0,
                output_path: output_path@,
                pending: Seq::empty(),
                sources: Seq::empty(),
            }),
    {
        let logger = TelemetryLogger {
            header: Header {
                uuid,
                task: action,
                robot_platform: robot_name,
                robot_serial,
                start_timestamp: start,
                end_timestamp: 0,
                actuator_configs,
            },
            frames: Vec::new(),
            current_frame: Frame::empty(),
            current_inference_step: 0,
            output_path,
            pending: Ghost(Seq::empty()),
            sources: Ghost(Seq::empty()),
        };
        assert(frame_views(logger.frames@) =~= Seq::empty());
        logger
    }

    /// The topics to subscribe to, in the order inertial samples, actuator
    /// states, actuator commands.
    pub fn subscriptions(&self) -> (topics: Vec<String>)
        ensures
            topics@.map_values(|t: String| t@) == subscription_topics(
                self@.header.robot_platform,
                self@.header.robot_serial,
            ),
    {
        let name = self.header.robot_platform.as_str();
        let serial = self.header.robot_serial.as_str();
        let mut topics: Vec<String> = Vec::new();
        topics.push(robot_topic(name, serial, "/imu/values"));
        topics.push(robot_topic(name, serial, "/actuator/state"));
        topics.push(robot_topic(name, serial, "/actuator/command"));
        assert(topics@.map_values(|t: String| t@) =~= subscription_topics(
            self@.header.robot_platform,
            self@.header.robot_serial,
        ));
        topics
    }

    /// Takes in one decoded message.
    pub fn ingest(&mut self, message: &Message) -> (done: Ingested)
        ensures
            final(self)@ == ingested(old(self)@, message@),
            old(self)@.wf() ==> final(self)@.wf(),
            done.flushed == old(self)@.closes_frame(message@),
            done.checkpoint == (done.flushed && final(self)@.frames.len() % (
            CHECKPOINT_INTERVAL as nat) == 0),
    {
        let ghost before = self@;
        merge(&mut self.current_frame, message);
        if message.inference_step > self.current_inference_step {
            let mut frame = Frame::empty();
            core::mem::swap(&mut frame, &mut self.current_frame);
            frame.inference_step = message.inference_step;
            self.frames.push(frame);
            self.current_inference_step = message.inference_step;
            proof {
                let built_from = self.pending@.push(message.inference_step);
                self.sources = Ghost(self.sources@.push(built_from));
                self.pending = Ghost(Seq::empty());
                assert(self@.frames =~= ingested(before, message@).frames);
                if before.wf() {
                    lemma_ingested_wf(before, message@);
                }
            }
            let checkpoint = self.frames.len() % CHECKPOINT_INTERVAL == 0;
            Ingested { flushed: true, checkpoint }
        } else {
            proof {
                self.pending = Ghost(self.pending@.push(message.inference_step));
                if before.wf() {
                    lemma_ingested_wf(before, message@);
                }
            }
            Ingested { flushed: false, checkpoint: false }
        }
    }

    /// Takes in what arrived under `topic`: the decoded message, or `None`
    /// where the payload did not decode. A payload that did not decode, or
    /// that is not of the stream its topic names, is dropped: the recorder
    /// stays exactly as it is.
    pub fn on_publish(&mut self, topic: &str, decoded: Option<Message>) -> (taken: Taken)
        ensures
            old(self)@.wf() ==> final(self)@.wf(),
            match accepted(topic@, decoded) {
                None => taken == Taken::Dropped && final(self)@ == old(self)@,
                Some(m) => final(self)@ == ingested(old(self)@, m@) && taken == Taken::Merged(
                    Ingested {
                        flushed: old(self)@.closes_frame(m@),
                        checkpoint: old(self)@.closes_frame(m@) && final(self)@.frames.len() % (
                        CHECKPOINT_INTERVAL as nat) == 0,
                    },
                ),
            },
    {
        let kind = classify_topic(topic);
        match decoded {
            None => Taken::Dropped,
            Some(message) => {
                if message.payload.kind() == kind {
                    Taken::Merged(self.ingest(&message))
                } else {
                    Taken::Dropped
                }
            },
        }
    }

    /// Stops the recording at time `now` (nanoseconds since the epoch). The
    /// recording is due to be written out afterwards, whatever its length.
    pub fn stop(&mut self, now: u64) -> (done: Ingested)
        ensures
            final(self)@ == stopped(old(self)@, now),
            old(self)@.wf() ==> final(self)@.wf(),
            done.flushed == !old(self)@.current.holds_nothing(),
            done.checkpoint,
    {
        let ghost before = self@;
        self.header.end_timestamp = now;
        let flushed = !self.current_frame.holds_nothing();
        if flushed {
            let mut frame = Frame::empty();
            core::mem::swap(&mut frame, &mut self.current_frame);
            frame.inference_step = self.current_inference_step;
            self.frames.push(frame);
            proof {
                self.sources = Ghost(self.sources@.push(self.pending@));
                self.pending = Ghost(Seq::empty());
                assert(self@.frames =~= stopped(before, now).frames);
            }
        }
        proof {
            if before.wf() {
                lemma_stopped_wf(before, now);
            }
        }
        Ingested { flushed, checkpoint: true }
    }

    /// The leading record of the recording.
    pub fn header(&self) -> (h: &Header)
        ensures
            h@ == self@.header,
    {
        &self.header
    }

    /// The frames recorded so far, oldest first.
    pub fn frames(&self) -> (f: &Vec<Frame>)
        ensures
            frame_views(f@) == self@.frames,
    {
        &self.frames
    }

    /// The frame in progress.
    pub fn current_frame(&self) -> (f: &Frame)
        ensures
            f@ == self@.current,
    {
        &self.current_frame
    }

    /// The step at which a frame was last recorded.
    pub fn current_inference_step(&self) -> (step: u64)
        ensures
            step == self@.last_step,
    {
        self.current_inference_step
    }

    /// Where checkpoints are written.
    pub fn output_path(&self) -> (p: &str)
        ensures
            p@ == self@.output_path,
    {
        self.output_path.as_str()
    }
}

/// Taking in a message keeps a recorder well formed.
pub proof fn lemma_ingested_wf(s: RecorderView, m: MessageView)
    requires
        s.wf(),
    ensures
        ingested(s, m).wf(),
{
    let t = ingested(s, m);
    if s.closes_frame(m) {
        assert forall|i: int, k: int| 0 <= i < t.sources.len() && 0 <= k < t.sources[i].len() implies (
        #[trigger] t.sources[i][k]) <= t.frames[i].inference_step by {
            if i < s.sources.len() {
                assert(t.sources[i] == s.sources[i]);
                assert(t.frames[i] == s.frames[i]);
            } else {
                if k < s.pending.len() {
                    assert(t.sources[i][k] == s.pending[k]);
                }
            }
        }
        assert forall|i: int, j: int| 0 <= i < j < t.frames.len() implies t.frames[i].inference_step
            <= t.frames[j].inference_step by {
            assert(t.frames[i] == s.frames[i]);
            if j < s.frames.len() {
                assert(t.frames[j] == s.frames[j]);
            }
        }
        assert forall|i: int| 0 <= i < t.frames.len() implies #[trigger] t.frames[i].inference_step
            <= t.last_step by {
            if i < s.frames.len() {
                assert(t.frames[i] == s.frames[i]);
            }
        }
    } else {
        assert forall|k: int| 0 <= k < t.pending.len() implies #[trigger] t.pending[k]
            <= t.last_step by {
            if k < s.pending.len() {
                assert(t.pending[k] == s.pending[k]);
            }
        }
    }
}

/// Stopping keeps a recorder well formed.
pub proof fn lemma_stopped_wf(s: RecorderView, now: u64)
    requires
        s.wf(),
    ensures
        stopped(s, now).wf(),
{
    let t = stopped(s, now);
    if !s.current.holds_nothing() {
        assert forall|i: int, k: int| 0 <= i < t.sources.len() && 0 <= k < t.sources[i].len() implies (
        #[trigger] t.sources[i][k]) <= t.frames[i].inference_step by {
            if i < s.sources.len() {
                assert(t.sources[i] == s.sources[i]);
                assert(t.frames[i] == s.frames[i]);
            } else {
                assert(t.sources[i][k] == s.pending[k]);
            }
        }
        assert forall|i: int, j: int| 0 <= i < j < t.frames.len() implies t.frames[i].inference_step
            <= t.frames[j].inference_step by {
            assert(t.frames[i] == s.frames[i]);
            if j < s.frames.len() {
                assert(t.frames[j] == s.frames[j]);
            }
        }
        assert forall|i: int| 0 <= i < t.frames.len() implies #[trigger] t.frames[i].inference_step
            <= t.last_step by {
            if i < s.frames.len() {
                assert(t.frames[i] == s.frames[i]);
            }
        }
    }
}

/// Every state reached by taking in messages is well formed: recorded
/// frames stay in step order, and no frame holds data published after its
/// own step.
pub proof fn law_run_wf(s: RecorderView, msgs: Seq<MessageView>)
    requires
        s.wf(),
    ensures
        run(s, msgs).wf(),
    decreases msgs.len(),
{
    if msgs.len() > 0 {
        lemma_ingested_wf(s, msgs[0]);
        law_run_wf(ingested(s, msgs[0]), msgs.drop_first());
    }
}

/// Taking in messages records exactly one frame for each message that
/// carries a step beyond all steps seen before it.
pub proof fn law_flush_count(s: RecorderView, msgs: Seq<MessageView>)
    ensures
        run(s, msgs).frames.len() == s.frames.len() + rises(s.last_step, msgs),
    decreases msgs.len(),
{
    if msgs.len() > 0 {
        law_flush_count(ingested(s, msgs[0]), msgs.drop_first());
    }
}

/// Taking in messages never alters what is already recorded: the header,
/// the output path and every recorded frame stay as they are.
pub proof fn law_recorded_frames_kept(s: RecorderView, msgs: Seq<MessageView>)
    ensures
        run(s, msgs).header == s.header,
        run(s, msgs).output_path == s.output_path,
        run(s, msgs).frames.len() >= s.frames.len(),
        run(s, msgs).frames.subrange(0, s.frames.len() as int) == s.frames,
        run(s, msgs).last_step >= s.last_step,
    decreases msgs.len(),
{
    if msgs.len() > 0 {
        let s1 = ingested(s, msgs[0]);
        law_recorded_frames_kept(s1, msgs.drop_first());
        let t = run(s1, msgs.drop_first());
        assert(s1.frames.subrange(0, s.frames.len() as int) =~= s.frames);
        assert(t.frames.subrange(0, s.frames.len() as int) =~= t.frames.subrange(
            0,
            s1.frames.len() as int,
        ).subrange(0, s.frames.len() as int));
    } else {
        assert(s.frames.subrange(0, s.frames.len() as int) =~= s.frames);
    }
}

/// The frames recorded while taking in messages carry strictly increasing
/// steps, each beyond the step that was last recorded before.
pub proof fn law_monotonic_flush(s: RecorderView, msgs: Seq<MessageView>)
    requires
        s.wf(),
    ensures
        forall|i: int|
            s.frames.len() <= i < run(s, msgs).frames.len() ==> #[trigger] run(
                s,
                msgs,
            ).frames[i].inference_step > s.last_step,
        forall|i: int, j: int|
            s.frames.len() <= i < j < run(s, msgs).frames.len() ==> run(
                s,
                msgs,
            ).frames[i].inference_step < run(s, msgs).frames[j].inference_step,
    decreases msgs.len(),
{
    if msgs.len() > 0 {
        let s1 = ingested(s, msgs[0]);
        let rest = msgs.drop_first();
        let t = run(s1, rest);
        lemma_ingested_wf(s, msgs[0]);
        law_monotonic_flush(s1, rest);
        law_recorded_frames_kept(s1, rest);
        let n = s.frames.len() as int;
        if s.closes_frame(msgs[0]) {
            assert(t.frames.subrange(0, s1.frames.len() as int)[n] == t.frames[n]);
            assert(s1.frames[n].inference_step == s1.last_step);
            assert forall|i: int| n <= i < t.frames.len() implies (
            #[trigger] t.frames[i]).inference_step > s.last_step by {
                if i > n {
                    assert(t.frames[i].inference_step > s1.last_step);
                }
            }
            assert forall|i: int, j: int| n <= i < j < t.frames.len() implies (
            #[trigger] t.frames[i]).inference_step < (#[trigger] t.frames[j]).inference_step by {
                assert(t.frames[j].inference_step > s1.last_step);
            }
        }
    }
}

/// Stopping a recording patches only the end of its header: the identity
/// and the start stay, the end becomes the stop time, and every frame
/// recorded before is found unaltered at its place. Where the clock reads
/// later at the stop than at the start, the end lies after the start.
pub proof fn law_header_round_trip(s: RecorderView, now: u64)
    ensures
        stopped(s, now).header.same_identity(s.header),
        stopped(s, now).header.end_timestamp == now,
        now > s.header.start_timestamp ==> stopped(s, now).header.end_timestamp > stopped(
            s,
            now,
        ).header.start_timestamp,
        stopped(s, now).frames.len() >= s.frames.len(),
        stopped(s, now).frames.subrange(0, s.frames.len() as int) == s.frames,
{
    assert(stopped(s, now).frames.subrange(0, s.frames.len() as int) =~= s.frames);
}

/// How many messages of a sequence carry a step beyond the step of the
/// message before them; the first is held against `last`.
pub open spec fn consecutive_increases(last: u64, msgs: Seq<MessageView>) -> nat
    decreases msgs.len(),
{
    if msgs.len() == 0 {
        0
    } else if msgs[0].inference_step > last {
        1 + consecutive_increases(msgs[0].inference_step, msgs.drop_first())
    } else {
        consecutive_increases(msgs[0].inference_step, msgs.drop_first())
    }
}

/// Whether the steps of a sequence of messages never fall, starting from
/// `last`.
pub open spec fn never_falls(last: u64, msgs: Seq<MessageView>) -> bool {
    &&& msgs.len() > 0 ==> last <= msgs[0].inference_step
    &&& forall|i: int, j: int|
        0 <= i <= j < msgs.len() ==> msgs[i].inference_step <= msgs[j].inference_step
}

/// Where the steps of the messages never fall, exactly one frame is
/// recorded for each increase of the step from one message to the next.
pub proof fn law_one_frame_per_increase(s: RecorderView, msgs: Seq<MessageView>)
    requires
        never_falls(s.last_step, msgs),
    ensures
        run(s, msgs).frames.len() == s.frames.len() + consecutive_increases(s.last_step, msgs),
{
    law_flush_count(s, msgs);
    lemma_rises_are_increases(s.last_step, msgs);
}

/// Where the steps never fall, the running maximum is the step of the
/// message before, so rising above the one is rising above the other.
pub proof fn lemma_rises_are_increases(last: u64, msgs: Seq<MessageView>)
    requires
        never_falls(last, msgs),
    ensures
        rises(last, msgs) == consecutive_increases(last, msgs),
    decreases msgs.len(),
{
    if msgs.len() > 0 {
        let rest = msgs.drop_first();
        let first = msgs[0].inference_step;
        assert forall|i: int, j: int| 0 <= i <= j < rest.len() implies rest[i].inference_step
            <= rest[j].inference_step by {
            assert(rest[i] == msgs[i + 1]);
            assert(rest[j] == msgs[j + 1]);
        }
        if rest.len() > 0 {
            assert(rest[0] == msgs[1]);
        }
        assert(never_falls(first, rest));
        lemma_rises_are_increases(first, rest);
        if first <= last {
            assert(first == last);
        }
    }
}

/// Whether a text holds no slash.
pub open spec fn no_slash(s: Seq<char>) -> bool {
    forall|i: int| 0 <= i < s.len() ==> s[i] != '/'
}

/// Where a needle stands in a text, the text holds the needle's characters
/// from there on.
proof fn lemma_occurrence(hay: Seq<char>, needle: Seq<char>, i: int, k: int)
    requires
        crate::text::occurs_at(hay, needle, i),
        0 <= k < needle.len(),
    ensures
        hay[i + k] == needle[k],
{
    assert(hay.subrange(i, i + needle.len())[k] == hay[i + k]);
}

/// A needle that starts with a slash, holds a second slash and no hyphen,
/// and does not stand in `suffix`, does not stand in the topic
/// `robots/<name>-<serial><suffix>` of a robot whose name and serial hold no
/// slash.
proof fn lemma_not_in_topic(
    name: Seq<char>,
    serial: Seq<char>,
    suffix: Seq<char>,
    needle: Seq<char>,
)
    requires
        no_slash(name),
        no_slash(serial),
        slashed(needle),
        forall|j: int| !crate::text::occurs_at(suffix, needle, j),
    ensures
        !crate::text::contains("robots/"@ + name + "-"@ + serial + suffix, needle),
{
    reveal_strlit("robots/");
    reveal_strlit("-");
    let head = "robots/"@ + name + "-"@ + serial;
    let topic = head + suffix;
    let hyphen = 7 + name.len();
    assert(topic[hyphen as int] == '-');
    assert forall|i: int| !crate::text::occurs_at(topic, needle, i) by {
        if crate::text::occurs_at(topic, needle, i) {
            lemma_occurrence(topic, needle, i, 0);
            if i < head.len() {
                if i < 6 {
                    assert(topic[i] == "robots/"@[i]);
                } else if i == 6 {
                    let e = choose|e: int| 1 <= e < needle.len() && needle[e] == '/';
                    if 6 + needle.len() > hyphen {
                        lemma_occurrence(topic, needle, i, hyphen - 6);
                    } else {
                        lemma_occurrence(topic, needle, i, e);
                        assert(topic[6 + e] == name[e - 1]);
                    }
                } else if i < hyphen {
                    assert(topic[i] == name[i - 7]);
                } else if i == hyphen {
                } else {
                    assert(topic[i] == serial[i - hyphen - 1]);
                }
            } else {
                let j = i - head.len();
                assert(suffix.subrange(j, j + needle.len()) =~= topic.subrange(
                    i,
                    i + needle.len(),
                ));
                assert(crate::text::occurs_at(suffix, needle, j));
            }
        }
    }
}

/// A suffix stands at the end of the topic it closes.
proof fn lemma_suffix_in_topic(head: Seq<char>, suffix: Seq<char>)
    ensures
        crate::text::contains(head + suffix, suffix),
{
    assert((head + suffix).subrange(head.len() as int, (head.len() + suffix.len()) as int)
        =~= suffix);
    assert(crate::text::occurs_at(head + suffix, suffix, head.len() as int));
}

/// Whether a needle starts with a slash, holds a second slash, and holds
/// no hyphen.
spec fn slashed(needle: Seq<char>) -> bool {
    &&& needle.len() >= 2
    &&& needle[0] == '/'
    &&& exists|e: int| 1 <= e < needle.len() && needle[e] == '/'
    &&& forall|k: int| 0 <= k < needle.len() ==> needle[k] != '-'
}

proof fn lemma_values_slashed()
    ensures
        slashed("/imu/values"@),
{
    reveal_strlit("/imu/values");
    assert("/imu/values"@[4] == '/');
}

proof fn lemma_quaternion_slashed()
    ensures
        slashed("/imu/quaternion"@),
{
    reveal_strlit("/imu/quaternion");
    assert("/imu/quaternion"@[4] == '/');
}

proof fn lemma_state_slashed()
    ensures
        slashed("/actuator/state"@),
{
    reveal_strlit("/actuator/state");
    assert("/actuator/state"@[9] == '/');
}

/// No suffix of the inertial streams stands in a suffix of the actuator
/// streams: after each slash of the latter comes another letter than after
/// the first slash of the former.
proof fn lemma_imu_not_in_actuator(suffix: Seq<char>, needle: Seq<char>)
    requires
        suffix == "/actuator/state"@ || suffix == "/actuator/command"@,
        needle == "/imu/values"@ || needle == "/imu/quaternion"@,
    ensures
        forall|j: int| !crate::text::occurs_at(suffix, needle, j),
{
    reveal_strlit("/imu/values");
    reveal_strlit("/imu/quaternion");
    reveal_strlit("/actuator/state");
    reveal_strlit("/actuator/command");
    assert forall|j: int| !crate::text::occurs_at(suffix, needle, j) by {
        if crate::text::occurs_at(suffix, needle, j) {
            lemma_occurrence(suffix, needle, j, 0);
            lemma_occurrence(suffix, needle, j, 1);
            assert(suffix[j] == '/');
            assert(j == 0 || j == 9);
        }
    }
}

/// The suffix of the state stream does not stand in the suffix of the
/// command stream.
proof fn lemma_state_not_in_command()
    ensures
        forall|j: int| !crate::text::occurs_at("/actuator/command"@, "/actuator/state"@, j),
{
    reveal_strlit("/actuator/state");
    reveal_strlit("/actuator/command");
    let command = "/actuator/command"@;
    let state = "/actuator/state"@;
    assert forall|j: int| !crate::text::occurs_at(command, state, j) by {
        if crate::text::occurs_at(command, state, j) {
            lemma_occurrence(command, state, j, 0);
            lemma_occurrence(command, state, j, 1);
            lemma_occurrence(command, state, j, 10);
            assert(command[j] == '/');
            assert(j == 0 || j == 9);
        }
    }
}

/// The topic of a robot that ends in `suffix`.
pub open spec fn topic_with(name: Seq<char>, serial: Seq<char>, suffix: Seq<char>) -> Seq<char> {
    "robots/"@ + name + "-"@ + serial + suffix
}

proof fn lemma_values_topic(name: Seq<char>, serial: Seq<char>)
    ensures
        topic_kind(topic_with(name, serial, "/imu/values"@)) == TopicKind::ImuValues,
{
    lemma_suffix_in_topic("robots/"@ + name + "-"@ + serial, "/imu/values"@);
}

proof fn lemma_state_topic(name: Seq<char>, serial: Seq<char>)
    requires
        no_slash(name),
        no_slash(serial),
    ensures
        topic_kind(topic_with(name, serial, "/actuator/state"@)) == TopicKind::ActuatorState,
{
    let state = "/actuator/state"@;
    let topic = topic_with(name, serial, state);
    assert(!crate::text::contains(topic, "/imu/values"@)) by {
        lemma_values_slashed();
        lemma_imu_not_in_actuator(state, "/imu/values"@);
        lemma_not_in_topic(name, serial, state, "/imu/values"@);
    }
    assert(!crate::text::contains(topic, "/imu/quaternion"@)) by {
        lemma_quaternion_slashed();
        lemma_imu_not_in_actuator(state, "/imu/quaternion"@);
        lemma_not_in_topic(name, serial, state, "/imu/quaternion"@);
    }
    assert(crate::text::contains(topic, state)) by {
        lemma_suffix_in_topic("robots/"@ + name + "-"@ + serial, state);
    }
}

proof fn lemma_command_topic(name: Seq<char>, serial: Seq<char>)
    requires
        no_slash(name),
        no_slash(serial),
    ensures
        topic_kind(topic_with(name, serial, "/actuator/command"@)) == TopicKind::ActuatorCommand,
{
    let command = "/actuator/command"@;
    let topic = topic_with(name, serial, command);
    assert(!crate::text::contains(topic, "/imu/values"@)) by {
        lemma_values_slashed();
        lemma_imu_not_in_actuator(command, "/imu/values"@);
        lemma_not_in_topic(name, serial, command, "/imu/values"@);
    }
    assert(!crate::text::contains(topic, "/imu/quaternion"@)) by {
        lemma_quaternion_slashed();
        lemma_imu_not_in_actuator(command, "/imu/quaternion"@);
        lemma_not_in_topic(name, serial, command, "/imu/quaternion"@);
    }
    assert(!crate::text::contains(topic, "/actuator/state"@)) by {
        lemma_state_slashed();
        lemma_state_not_in_command();
        lemma_not_in_topic(name, serial, command, "/actuator/state"@);
    }
    assert(crate::text::contains(topic, command)) by {
        lemma_suffix_in_topic("robots/"@ + name + "-"@ + serial, command);
    }
}

/// A recorder understands what it subscribes to: for a robot whose name
/// and serial hold no slash, its three topics are told as inertial samples,
/// actuator states and actuator commands, in this order.
pub proof fn law_subscriptions_are_understood(name: Seq<char>, serial: Seq<char>)
    requires
        no_slash(name),
        no_slash(serial),
    ensures
        topic_kind(subscription_topics(name, serial)[0]) == TopicKind::ImuValues,
        topic_kind(subscription_topics(name, serial)[1]) == TopicKind::ActuatorState,
        topic_kind(subscription_topics(name, serial)[2]) == TopicKind::ActuatorCommand,
{
    lemma_values_topic(name, serial);
    lemma_state_topic(name, serial);
    lemma_command_topic(name, serial);
    let topics = subscription_topics(name, serial);
    assert(topics[0] == topic_with(name, serial, "/imu/values"@));
    assert(topics[1] == topic_with(name, serial, "/actuator/state"@));
    assert(topics[2] == topic_with(name, serial, "/actuator/command"@));
}

} // verus!
