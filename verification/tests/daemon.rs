use kos::daemon::{
    bring_up, recorder_settings, serve, shut_down, Args, DEFAULT_LOG_LEVEL, MQTT_HOST, MQTT_PORT,
    SERVER_ADDRESS,
};
use kos::platform::{Lifecycle, ServiceEnum};
use kos::platforms::kbot::KbotPlatform;
use kos::platforms::stub::StubPlatform;
use kos::services::krec_logger::{Message, Payload, TelemetryLogger};
use kos::services::operations::OperationsServiceImpl;
use kos::telemetry::TelemetryBus;

#[test]
fn defaults() {
    let args = Args::defaults();
    assert!(!args.log);
    assert_eq!(args.log_level, "info");
    assert_eq!(DEFAULT_LOG_LEVEL, "info");
    assert_eq!(SERVER_ADDRESS, "0.0.0.0:50051");
    assert_eq!(MQTT_HOST, "localhost");
    assert_eq!(MQTT_PORT, 1883);
    let s = recorder_settings();
    assert_eq!(s.client_id, "kos-telemetry-logger");
    assert_eq!(s.host, "localhost");
    assert_eq!(s.port, 1883);
    assert_eq!(s.keep_alive_seconds, 5);
    assert_eq!(s.capacity, 10);
}

#[test]
fn bring_up_initializes_bus_then_platform() {
    let mut platform = StubPlatform::new();
    let mut bus = TelemetryBus::new();
    let mut ledger = OperationsServiceImpl::new();
    let settings = bring_up(&mut platform, &mut bus, &mut ledger).unwrap();
    assert_eq!(settings.client_id, "kos-Stub-00000000");
    assert_eq!(settings.host, "localhost");
    assert_eq!(settings.port, 1883);
    assert_eq!(bus.get().unwrap().robot_id(), "Stub-00000000");
    assert_eq!(platform.stage(), Lifecycle::Initialized);
    let kinds = serve(&mut platform, &mut ledger).unwrap();
    assert_eq!(kinds.len(), 4);
    assert_eq!(platform.stage(), Lifecycle::Serving);
}

#[test]
fn serving_fails_as_a_whole() {
    let mut platform = KbotPlatform::new();
    let mut bus = TelemetryBus::new();
    let mut ledger = OperationsServiceImpl::new();
    bring_up(&mut platform, &mut bus, &mut ledger).unwrap();
    assert_eq!(bus.get().unwrap().robot_id(), "KBot-00000000");
    platform.report(ServiceEnum::ProcessManager, Ok(()));
    platform.report(ServiceEnum::Actuator, Err("can2 down".to_string()));
    assert!(serve(&mut platform, &mut ledger).is_err());
    assert_eq!(platform.stage(), Lifecycle::Initialized);
}

#[test]
fn shut_down_stops_the_recording_first() {
    let mut platform = StubPlatform::new();
    let mut recorder = TelemetryLogger::new(
        "u".to_string(),
        "a".to_string(),
        "p".to_string(),
        "Stub".to_string(),
        "0".to_string(),
        100,
    );
    recorder.ingest(&Message {
        frame_number: 0,
        video_timestamp: 0,
        inference_step: 0,
        payload: Payload::ActuatorStates(vec![]),
    });
    recorder.ingest(&Message {
        frame_number: 1,
        video_timestamp: 2,
        inference_step: 0,
        payload: Payload::ActuatorCommands(vec![kos::telemetry_types::ActuatorCommand {
            actuator_id: 1,
            position: None,
            velocity: None,
            torque: None,
        }]),
    });
    shut_down(&mut platform, Some(&mut recorder), 900).unwrap();
    assert_eq!(platform.stage(), Lifecycle::ShutDown);
    assert_eq!(recorder.header().end_timestamp, 900);
    assert_eq!(recorder.frames().len(), 1);
    let mut other = StubPlatform::new();
    shut_down(&mut other, None, 0).unwrap();
    assert_eq!(other.stage(), Lifecycle::ShutDown);
}
