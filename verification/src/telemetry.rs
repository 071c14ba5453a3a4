//! The telemetry bus: topic naming, correlation counters and the envelope
//! that every published payload travels in.
//!
//! Publishing is fire and forget. The functions here decide what is sent and
//! under which topic; sending is left to the transport, whose failure never
//! fails the request that caused the message.

use crate::telemetry_types::{
    ActuatorCommand, ActuatorState, EulerAngles, ImuValues, ImuValuesView, Quaternion,
};
use vstd::prelude::*;
use vstd::string::*;

verus! {

/// Seconds between two keep-alive probes on the transport connection.
pub const KEEP_ALIVE_SECONDS: u64 = 5;

/// Number of requests the transport client may hold unsent.
pub const CLIENT_CAPACITY: usize = 10;

/// The identity of a robot on the bus: platform name, a hyphen, serial.
pub open spec fn spec_robot_identity(name: Seq<char>, serial: Seq<char>) -> Seq<char> {
    name + "-"@ + serial
}

/// The identity of a robot on the bus.
pub fn robot_identity(name: &str, serial: &str) -> (id: String)
    ensures
        id@ == spec_robot_identity(name@, serial@),
{
    let mut id = String::from_str(name);
    id.append("-");
    id.append(serial);
    id
}

/// The full topic for `topic` of the robot `robot_id`.
pub open spec fn spec_full_topic(robot_id: Seq<char>, topic: Seq<char>) -> Seq<char> {
    "robots/"@ + robot_id + "/"@ + topic
}

/// The name under which the robot `robot_id` connects to the transport.
pub open spec fn spec_client_id(robot_id: Seq<char>) -> Seq<char> {
    "kos-"@ + robot_id
}

/// How to connect to the transport.
#[derive(Debug)]
pub struct MqttSettings {
    pub client_id: String,
    pub host: String,
    pub port: u16,
    pub keep_alive_seconds: u64,
    pub capacity: usize,
}

/// The model of a [`Telemetry`].
pub struct TelemetryView {
    pub robot_id: Seq<char>,
    pub frame_number: u64,
    pub video_timestamp: u64,
    pub inference_step: u64,
}

/// The publishing side of the bus for one robot.
pub struct Telemetry {
    robot_id: String,
    frame_number: u64,
    video_timestamp: u64,
    inference_step: u64,
}

impl View for Telemetry {
    type V = TelemetryView;

    closed spec fn view(&self) -> TelemetryView {
        TelemetryView {
            robot_id: self.robot_id@,
            frame_number: self.frame_number,
            video_timestamp: self.video_timestamp,
            inference_step: self.inference_step,
        }
    }
}

/// How hard the transport tries to deliver a message.
#[derive(Clone, Copy, Debug, PartialEq, Eq, Structural)]
pub enum QoS {
    AtMostOnce,
    AtLeastOnce,
    ExactlyOnce,
}

/// A payload and the envelope it is published in.
#[derive(Debug)]
pub struct TelemetryPayload<T> {
    /// The full topic to publish under.
    pub topic: String,
    /// The delivery quality to publish with.
    pub qos: QoS,
    /// Whether the broker keeps the message for later subscribers.
    pub retain: bool,
    pub frame_number: u64,
    pub video_timestamp: u64,
    pub inference_step: u64,
    pub data: T,
}

/// The successor of a counter; the largest value is followed by zero.
pub open spec fn next_count(n: u64) -> u64 {
    if n == u64::MAX {
        0
    } else {
        (n + 1) as u64
    }
}

impl Telemetry {
    /// The publishing side for the robot `robot_id`, all counters at zero.
    pub fn new(robot_id: &str) -> (t: Telemetry)
        ensures
            t@ == (TelemetryView {
                robot_id: robot_id@,
                frame_number: 0,
                video_timestamp: 0,
                inference_step: 0,
            }),
    {
        Telemetry {
            robot_id: String::from_str(robot_id),
            frame_number: 0,
            video_timestamp: 0,
            inference_step: 0,
        }
    }

    /// Makes `bus` the publishing side of the robot `robot_id`, with all
    /// counters at zero, and tells how to connect to the transport. An
    /// earlier initialization is replaced.
    pub fn initialize(
        bus: &mut TelemetryBus,
        robot_id: &str,
        mqtt_host: &str,
        mqtt_port: u16,
    ) -> (s: MqttSettings)
        ensures
            final(bus)@ == Some(
                TelemetryView {
                    robot_id: robot_id@,
                    frame_number: 0,
                    video_timestamp: 0,
                    inference_step: 0,
                },
            ),
            s.client_id@ == spec_client_id(robot_id@),
            s.host@ == mqtt_host@,
            s.port == mqtt_port,
            s.keep_alive_seconds == KEEP_ALIVE_SECONDS,
            s.capacity == CLIENT_CAPACITY,
    {
        bus.initialize(robot_id, mqtt_host, mqtt_port)
    }

    /// The publishing side of `bus`, or `None` before its initialization.
    pub fn get(bus: &TelemetryBus) -> (t: Option<&Telemetry>)
        ensures
            match t {
                Some(t) => bus@ == Some(t@),
                None => bus@ is None,
            },
    {
        bus.get()
    }

    /// How to connect to the transport at `mqtt_host`:`mqtt_port` for this
    /// robot.
    pub fn settings(&self, mqtt_host: &str, mqtt_port: u16) -> (s: MqttSettings)
        ensures
            s.client_id@ == spec_client_id(self@.robot_id),
            s.host@ == mqtt_host@,
            s.port == mqtt_port,
            s.keep_alive_seconds == KEEP_ALIVE_SECONDS,
            s.capacity == CLIENT_CAPACITY,
    {
        let mut client_id = String::from_str("kos-");
        client_id.append(self.robot_id.as_str());
        MqttSettings {
            client_id,
            host: String::from_str(mqtt_host),
            port: mqtt_port,
            keep_alive_seconds: KEEP_ALIVE_SECONDS,
            capacity: CLIENT_CAPACITY,
        }
    }

    /// The identity of the robot.
    pub fn robot_id(&self) -> (id: &str)
        ensures
            id@ == self@.robot_id,
    {
        self.robot_id.as_str()
    }

    /// The full topic for `topic`.
    pub fn full_topic(&self, topic: &str) -> (t: String)
        ensures
            t@ == spec_full_topic(self@.robot_id, topic@),
    {
        let mut t = String::from_str("robots/");
        t.append(self.robot_id.as_str());
        t.append("/");
        t.append(topic);
        t
    }

    /// Wraps `payload` for publishing under `topic`: the full topic, the
    /// three counters as they stand, delivered at least once and not
    /// retained.
    pub fn publish<T>(&self, topic: &str, payload: T) -> (p: TelemetryPayload<T>)
        ensures
            p.topic@ == spec_full_topic(self@.robot_id, topic@),
            p.qos == QoS::AtLeastOnce,
            !p.retain,
            p.frame_number == self@.frame_number,
            p.video_timestamp == self@.video_timestamp,
            p.inference_step == self@.inference_step,
            p.data == payload,
    {
        TelemetryPayload {
            topic: self.full_topic(topic),
            qos: QoS::AtLeastOnce,
            retain: false,
            frame_number: self.frame_number,
            video_timestamp: self.video_timestamp,
            inference_step: self.inference_step,
            data: payload,
        }
    }

    /// Sets the frame counter.
    pub fn update_frame_number(&mut self, new_frame_number: u64)
        ensures
            final(self)@ == (TelemetryView { frame_number: new_frame_number, ..old(self)@ }),
    {
        self.frame_number = new_frame_number;
    }

    /// Sets the video timestamp.
    pub fn update_video_timestamp(&mut self, new_video_timestamp: u64)
        ensures
            final(self)@ == (TelemetryView { video_timestamp: new_video_timestamp, ..old(self)@ }),
    {
        self.video_timestamp = new_video_timestamp;
    }

    /// Sets the inference step.
    pub fn update_inference_step(&mut self, new_inference_step: u64)
        ensures
            final(self)@ == (TelemetryView { inference_step: new_inference_step, ..old(self)@ }),
    {
        self.inference_step = new_inference_step;
    }

    /// The frame counter.
    pub fn get_frame_number(&self) -> (n: u64)
        ensures
            n == self@.frame_number,
    {
        self.frame_number
    }

    /// The video timestamp.
    pub fn get_video_timestamp(&self) -> (n: u64)
        ensures
            n == self@.video_timestamp,
    {
        self.video_timestamp
    }

    /// The inference step.
    pub fn get_inference_step(&self) -> (n: u64)
        ensures
            n == self@.inference_step,
    {
        self.inference_step
    }

    /// Advances the frame counter by one.
    pub fn increment_frame_number(&mut self)
        ensures
            final(self)@ == (TelemetryView {
                frame_number: next_count(old(self)@.frame_number),
                ..old(self)@
            }),
    {
        self.frame_number = if self.frame_number == u64::MAX {
            0
        } else {
            self.frame_number + 1
        };
    }

    /// Advances the inference step by one.
    pub fn increment_inference_step(&mut self)
        ensures
            final(self)@ == (TelemetryView {
                inference_step: next_count(old(self)@.inference_step),
                ..old(self)@
            }),
    {
        self.inference_step = if self.inference_step == u64::MAX {
            0
        } else {
            self.inference_step + 1
        };
    }
}

/// The process-wide bus: either not yet initialized, or the publishing side
/// of one robot.
pub struct TelemetryBus {
    current: Option<Telemetry>,
}

impl View for TelemetryBus {
    type V = Option<TelemetryView>;

    closed spec fn view(&self) -> Option<TelemetryView> {
        match self.current {
            Some(t) => Some(t@),
            None => None,
        }
    }
}

impl TelemetryBus {
    /// A bus that is not yet initialized.
    pub fn new() -> (bus: TelemetryBus)
        ensures
            bus@ is None,
    {
        TelemetryBus { current: None }
    }

    /// Makes the bus the publishing side of the robot `robot_id`, with all
    /// counters at zero, and tells how to connect to the transport. An
    /// earlier initialization is replaced.
    pub fn initialize(&mut self, robot_id: &str, mqtt_host: &str, mqtt_port: u16) -> (s:
        MqttSettings)
        ensures
            final(self)@ == Some(
                TelemetryView {
                    robot_id: robot_id@,
                    frame_number: 0,
                    video_timestamp: 0,
                    inference_step: 0,
                },
            ),
            s.client_id@ == spec_client_id(robot_id@),
            s.host@ == mqtt_host@,
            s.port == mqtt_port,
            s.keep_alive_seconds == KEEP_ALIVE_SECONDS,
            s.capacity == CLIENT_CAPACITY,
    {
        let telemetry = Telemetry::new(robot_id);
        let settings = telemetry.settings(mqtt_host, mqtt_port);
        self.current = Some(telemetry);
        settings
    }

    /// Whether the bus has been initialized.
    pub fn is_initialized(&self) -> (r: bool)
        ensures
            r == (self@ is Some),
    {
        self.current.is_some()
    }

    /// The publishing side for a change of its counters, or `None` before
    /// initialization.
    pub fn get_mut(&mut self) -> (t: Option<&mut Telemetry>)
        ensures
            match t {
                Some(t) => old(self)@ == Some(t@) && final(self)@ == Some(final(t)@),
                None => old(self)@ is None && final(self)@ is None,
            },
    {
        self.current.as_mut()
    }

    /// The publishing side, or `None` before initialization.
    pub fn get(&self) -> (t: Option<&Telemetry>)
        ensures
            match t {
                Some(t) => self@ == Some(t@),
                None => self@ is None,
            },
    {
        self.current.as_ref()
    }
}

/// The model of a [`TelemetryEvent`].
pub enum TelemetryEventView {
    ActuatorCommand(Seq<ActuatorCommand>),
    ActuatorState(Seq<ActuatorState>),
    ImuValues(ImuValuesView),
    ImuEuler(EulerAngles),
    ImuQuaternion(Quaternion),
}

/// What a request handler hands to the bus after a state report or a state
/// change.
#[derive(Debug)]
pub enum TelemetryEvent {
    ActuatorCommand(Vec<ActuatorCommand>),
    ActuatorState(Vec<ActuatorState>),
    ImuValues(ImuValues),
    ImuEuler(EulerAngles),
    ImuQuaternion(Quaternion),
}

impl View for TelemetryEvent {
    type V = TelemetryEventView;

    open spec fn view(&self) -> TelemetryEventView {
        match self {
            TelemetryEvent::ActuatorCommand(c) => TelemetryEventView::ActuatorCommand(c@),
            TelemetryEvent::ActuatorState(s) => TelemetryEventView::ActuatorState(s@),
            TelemetryEvent::ImuValues(v) => TelemetryEventView::ImuValues(v@),
            TelemetryEvent::ImuEuler(e) => TelemetryEventView::ImuEuler(*e),
            TelemetryEvent::ImuQuaternion(q) => TelemetryEventView::ImuQuaternion(*q),
        }
    }
}

impl TelemetryEventView {
    /// The topic an event is published under, relative to the robot.
    pub open spec fn topic(self) -> Seq<char> {
        match self {
            TelemetryEventView::ActuatorCommand(_) => "actuator/command"@,
            TelemetryEventView::ActuatorState(_) => "actuator/state"@,
            TelemetryEventView::ImuValues(_) => "imu/values"@,
            TelemetryEventView::ImuEuler(_) => "imu/euler"@,
            TelemetryEventView::ImuQuaternion(_) => "imu/quaternion"@,
        }
    }
}

impl TelemetryEvent {
    /// The topic this event is published under, relative to the robot.
    pub fn topic(&self) -> (t: &'static str)
        ensures
            t@ == self@.topic(),
    {
        match self {
            TelemetryEvent::ActuatorCommand(_) => "actuator/command",
            TelemetryEvent::ActuatorState(_) => "actuator/state",
            TelemetryEvent::ImuValues(_) => "imu/values",
            TelemetryEvent::ImuEuler(_) => "imu/euler",
            TelemetryEvent::ImuQuaternion(_) => "imu/quaternion",
        }
    }
}

} // verus!
