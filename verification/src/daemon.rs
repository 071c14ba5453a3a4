//! Bringing the daemon up and down in the right order.

use crate::error::HalError;
use crate::platform::{Lifecycle, Platform, ServiceEnum};
use crate::services::krec_logger::{stopped, TelemetryLogger};
use crate::services::operations::OperationsServiceImpl;
use crate::telemetry::{
    robot_identity, spec_client_id, spec_robot_identity, MqttSettings, TelemetryBus, TelemetryView,
    CLIENT_CAPACITY, KEEP_ALIVE_SECONDS,
};
use vstd::prelude::*;
use vstd::string::*;

verus! {

/// Where the daemon listens for requests.
pub const SERVER_ADDRESS: &'static str = "0.0.0.0:50051";

/// The host of the telemetry broker.
pub const MQTT_HOST: &'static str = "localhost";

/// The port of the telemetry broker.
pub const MQTT_PORT: u16 = 1883;

/// The name under which the frame recorder connects to the broker.
pub const RECORDER_CLIENT_ID: &'static str = "kos-telemetry-logger";

/// The log level used where none is given.
pub const DEFAULT_LOG_LEVEL: &'static str = "info";

/// The command line of the daemon.
#[derive(Debug)]
pub struct Args {
    /// Whether records also go to a log file.
    pub log: bool,
    /// The level to log at: trace, debug, info, warn or error.
    pub log_level: String,
}

impl Args {
    /// The command line with nothing given: no log file, level `info`.
    pub fn defaults() -> (a: Args)
        ensures
            !a.log,
            a.log_level@ == DEFAULT_LOG_LEVEL@,
    {
        Args { log: false, log_level: String::from_str(DEFAULT_LOG_LEVEL) }
    }
}

/// How the frame recorder connects to the broker.
pub fn recorder_settings() -> (s: MqttSettings)
    ensures
        s.client_id@ == RECORDER_CLIENT_ID@,
        s.host@ == MQTT_HOST@,
        s.port == MQTT_PORT,
        s.keep_alive_seconds == KEEP_ALIVE_SECONDS,
        s.capacity == CLIENT_CAPACITY,
{
    MqttSettings {
        client_id: String::from_str(RECORDER_CLIENT_ID),
        host: String::from_str(MQTT_HOST),
        port: MQTT_PORT,
        keep_alive_seconds: KEEP_ALIVE_SECONDS,
        capacity: CLIENT_CAPACITY,
    }
}

/// Whether `r` is what bringing a platform up answers where setting the
/// platform up ended in `outcome`: the settings of the telemetry client on
/// success, the platform's own failure otherwise.
pub open spec fn brought_up(
    outcome: Result<(), HalError>,
    r: Result<MqttSettings, HalError>,
) -> bool {
    match outcome {
        Ok(_) => r is Ok,
        Err(e) => r == Err::<MqttSettings, HalError>(e),
    }
}

/// Brings a freshly constructed platform up: the telemetry bus is
/// initialized under the identity of the robot, then the platform is
/// initialized, once, with the ledger as it stands. The bus stays
/// initialized also where the platform fails.
pub fn bring_up<P: Platform>(
    platform: &mut P,
    bus: &mut TelemetryBus,
    operations: &mut OperationsServiceImpl,
) -> (r: Result<MqttSettings, HalError>)
    requires
        old(platform).lifecycle() == Lifecycle::Created,
    ensures
        final(bus)@ == Some(
            TelemetryView {
                robot_id: spec_robot_identity(
                    old(platform).identity().0,
                    old(platform).identity().1,
                ),
                frame_number: 0,
                video_timestamp: 0,
                inference_step: 0,
            },
        ),
        final(platform).identity() == old(platform).identity(),
        r is Ok ==> final(platform).lifecycle() == Lifecycle::Initialized
            && r->Ok_0.client_id@ == spec_client_id(final(bus)@->0.robot_id) && r->Ok_0.host@
            == MQTT_HOST@ && r->Ok_0.port == MQTT_PORT && r->Ok_0.keep_alive_seconds
            == KEEP_ALIVE_SECONDS && r->Ok_0.capacity == CLIENT_CAPACITY,
        r is Err ==> final(platform).lifecycle() == Lifecycle::Created,
        exists|outcome: Result<(), HalError>| #[trigger]
            old(platform).initializes(
                &*final(platform),
                old(operations)@,
                final(operations)@,
                outcome,
            ) && brought_up(outcome, r),
{
    let name = platform.name();
    let serial = platform.serial();
    let identity = robot_identity(name, serial.as_str());
    let settings = bus.initialize(identity.as_str(), MQTT_HOST, MQTT_PORT);
    let outcome = platform.initialize(operations);
    let ghost asked = outcome;
    let r = match outcome {
        Ok(_) => Ok(settings),
        Err(e) => Err(e),
    };
    assert(old(platform).initializes(&*platform, old(operations)@, operations@, asked)
        && brought_up(asked, r));
    r
}

/// Creates the service set of an initialized platform, all or nothing:
/// the platform is asked once, with the ledger as it stands, and what it
/// answers and does to itself and to the ledger is all that happens.
pub fn serve<P: Platform>(platform: &mut P, operations: &mut OperationsServiceImpl) -> (r: Result<
    Vec<ServiceEnum>,
    HalError,
>)
    requires
        old(platform).lifecycle() == Lifecycle::Initialized,
    ensures
        r is Ok ==> final(platform).lifecycle() == Lifecycle::Serving,
        r is Err ==> final(platform).lifecycle() == Lifecycle::Initialized,
        final(platform).identity() == old(platform).identity(),
        old(platform).creates_services(
            &*final(platform),
            old(operations)@,
            final(operations)@,
            r,
        ),
{
    platform.create_services(operations)
}

/// Brings the daemon down at time `now`: a running recording is stopped,
/// which records its frame in progress and sets the end of its header, and
/// then the platform is shut down, whatever state it is in; what the
/// platform answers is the result.
pub fn shut_down<P: Platform>(
    platform: &mut P,
    recorder: Option<&mut TelemetryLogger>,
    now: u64,
) -> (r: Result<(), HalError>)
    ensures
        final(platform).lifecycle() == Lifecycle::ShutDown,
        final(platform).identity() == old(platform).identity(),
        recorder is Some ==> final(recorder->0)@ == stopped(old(recorder->0)@, now),
        recorder is Some && old(recorder->0)@.wf() ==> final(recorder->0)@.wf(),
        old(platform).shuts_down(&*final(platform), r),
{
    match recorder {
        Some(logger) => {
            let _ = logger.stop(now);
        },
        None => {},
    }
    platform.shutdown()
}

} // verus!
