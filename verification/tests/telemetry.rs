use kos::hal::IMU;
use kos::platforms::stub::imu::StubIMU;
use kos::scalar::Double;
use kos::services::imu::IMUServiceImpl;
use kos::services::krec_logger::{classify_topic, TopicKind};
use kos::telemetry_types::{EulerAngles, ImuValues, Quaternion};
use kos::telemetry::{
    robot_identity, QoS, Telemetry, TelemetryBus, TelemetryEvent, CLIENT_CAPACITY,
    KEEP_ALIVE_SECONDS,
};

#[test]
fn topics_are_namespaced_by_the_robot() {
    let t = Telemetry::new("Stub-00000000");
    assert_eq!(t.full_topic("imu/euler"), "robots/Stub-00000000/imu/euler");
    assert_eq!(t.full_topic("actuator/command"), "robots/Stub-00000000/actuator/command");
    assert_eq!(t.full_topic(""), "robots/Stub-00000000/");
    assert_eq!(t.robot_id(), "Stub-00000000");
}

#[test]
fn identity_is_name_and_serial() {
    assert_eq!(robot_identity("KBot", "00000000"), "KBot-00000000");
    assert_eq!(robot_identity("", ""), "-");
}

#[test]
fn counters_start_at_zero_and_are_set_independently() {
    let mut t = Telemetry::new("r");
    assert_eq!((t.get_frame_number(), t.get_video_timestamp(), t.get_inference_step()), (0, 0, 0));
    t.update_frame_number(5);
    t.update_video_timestamp(6);
    t.update_inference_step(7);
    assert_eq!((t.get_frame_number(), t.get_video_timestamp(), t.get_inference_step()), (5, 6, 7));
    t.increment_frame_number();
    t.increment_inference_step();
    assert_eq!((t.get_frame_number(), t.get_video_timestamp(), t.get_inference_step()), (6, 6, 8));
}

#[test]
fn counters_wrap_at_the_largest_value() {
    let mut t = Telemetry::new("r");
    t.update_frame_number(u64::MAX);
    t.increment_frame_number();
    assert_eq!(t.get_frame_number(), 0);
    t.update_inference_step(u64::MAX);
    t.increment_inference_step();
    assert_eq!(t.get_inference_step(), 0);
}

#[test]
fn a_payload_travels_with_the_counters_as_they_stand() {
    let mut t = Telemetry::new("Stub-1");
    t.update_frame_number(3);
    t.update_video_timestamp(44);
    t.update_inference_step(9);
    let p = t.publish("imu/values", vec![1u8, 2]);
    assert_eq!(p.topic, "robots/Stub-1/imu/values");
    assert_eq!(p.qos, QoS::AtLeastOnce);
    assert!(!p.retain);
    assert_eq!(p.frame_number, 3);
    assert_eq!(p.video_timestamp, 44);
    assert_eq!(p.inference_step, 9);
    assert_eq!(p.data, vec![1, 2]);
}

#[test]
fn the_bus_is_uninitialized_until_told() {
    let mut bus = TelemetryBus::new();
    assert!(!bus.is_initialized());
    assert!(bus.get().is_none());
    let settings = bus.initialize("Stub-00000000", "localhost", 1883);
    assert!(bus.is_initialized());
    assert_eq!(settings.client_id, "kos-Stub-00000000");
    assert_eq!(settings.host, "localhost");
    assert_eq!(settings.port, 1883);
    assert_eq!(settings.keep_alive_seconds, 5);
    assert_eq!(settings.capacity, 10);
    assert_eq!(KEEP_ALIVE_SECONDS, 5);
    assert_eq!(CLIENT_CAPACITY, 10);
    let t = bus.get().unwrap();
    assert_eq!(t.robot_id(), "Stub-00000000");
    assert_eq!(t.get_frame_number(), 0);
}

#[test]
fn a_second_initialization_replaces_the_first() {
    let mut bus = TelemetryBus::new();
    bus.initialize("a", "h", 1);
    bus.initialize("b", "h", 2);
    assert_eq!(bus.get().unwrap().robot_id(), "b");
}

#[test]
fn imu_read() {
    let mut imu = StubIMU::new();
    let euler = imu.get_euler().unwrap();
    assert_eq!(f64::from_bits(euler.roll.to_bits()), 0.0);
    assert_eq!(f64::from_bits(euler.pitch.to_bits()), 30.0);
    assert_eq!(f64::from_bits(euler.yaw.to_bits()), 0.0);
    assert!(euler.error.is_none());

    let mut service = IMUServiceImpl::new(StubIMU::new());
    let (answer, event) = service.get_euler();
    let answer = answer.unwrap();
    assert_eq!(answer.pitch, Double::from_bits(30.0f64.to_bits()));
    let event = event.unwrap();
    assert_eq!(event.topic(), "imu/euler");
    match &event {
        TelemetryEvent::ImuEuler(e) => {
            assert_eq!(f64::from_bits(e.roll.to_bits()), 0.0);
            assert_eq!(f64::from_bits(e.pitch.to_bits()), 30.0);
            assert_eq!(f64::from_bits(e.yaw.to_bits()), 0.0);
        }
        other => panic!("unexpected event {other:?}"),
    }
    let mut bus = TelemetryBus::new();
    bus.initialize("Stub-00000000", "localhost", 1883);
    let topic = bus.get().unwrap().full_topic(event.topic());
    assert_eq!(topic, "robots/Stub-00000000/imu/euler");
    assert_eq!(classify_topic(&topic), TopicKind::Other);
}

#[test]
fn event_topics() {
    let z = Double::zero();
    assert_eq!(TelemetryEvent::ActuatorCommand(vec![]).topic(), "actuator/command");
    assert_eq!(TelemetryEvent::ActuatorState(vec![]).topic(), "actuator/state");
    assert_eq!(
        TelemetryEvent::ImuEuler(EulerAngles { roll: z, pitch: z, yaw: z }).topic(),
        "imu/euler"
    );
    assert_eq!(
        TelemetryEvent::ImuQuaternion(Quaternion { x: z, y: z, z, w: z }).topic(),
        "imu/quaternion"
    );
    let values = ImuValues {
        accel_x: z,
        accel_y: z,
        accel_z: z,
        gyro_x: z,
        gyro_y: z,
        gyro_z: z,
        mag_x: None,
        mag_y: None,
        mag_z: None,
        error: None,
    };
    assert_eq!(TelemetryEvent::ImuValues(values).topic(), "imu/values");
}

#[test]
fn the_bus_through_its_publishing_side() {
    let mut bus = TelemetryBus::new();
    assert!(Telemetry::get(&bus).is_none());
    let settings = Telemetry::initialize(&mut bus, "KBot-00000000", "broker", 8883);
    assert_eq!(settings.client_id, "kos-KBot-00000000");
    assert_eq!(settings.host, "broker");
    assert_eq!(settings.port, 8883);
    assert_eq!(Telemetry::get(&bus).unwrap().robot_id(), "KBot-00000000");
    bus.get_mut().unwrap().update_inference_step(12);
    assert_eq!(bus.get().unwrap().get_inference_step(), 12);
}
