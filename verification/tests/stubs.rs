use kos::error::ErrorCode;
use kos::hal::{
    Actuator, ActuatorCommand, ConfigureActuatorRequest, Duration, Policy, PolicyParameter,
    ProcessManager, Speech, IMU,
};
use kos::platforms::kbot::hexmove::{ImuData, KBotIMU};
use kos::platforms::sim::imu::SimIMU;
use kos::platforms::stub::actuator::StubActuator;
use kos::platforms::stub::imu::StubIMU;
use kos::platforms::stub::policy::StubPolicy;
use kos::platforms::stub::process_manager::StubProcessManager;
use kos::platforms::stub::speech::StubSpeech;
use kos::scalar::{Double, Single};
use kos::services::operations::OperationsServiceImpl;

fn is_uuid(text: &str) -> bool {
    let bytes = text.as_bytes();
    bytes.len() == 36
        && bytes.iter().enumerate().all(|(i, b)| match i {
            8 | 13 | 18 | 23 => *b == b'-',
            _ => b.is_ascii_hexdigit() && !b.is_ascii_uppercase(),
        })
        && bytes[14] == b'4'
}

#[test]
fn recording_starts_once() {
    let mut pm = StubProcessManager::new();
    let first = pm.start_with("clip-1".to_string());
    assert_eq!(first.clip_uuid.as_deref(), Some("clip-1"));
    assert!(first.error.is_none());
    let second = pm.start_with("clip-2".to_string());
    assert!(second.clip_uuid.is_none());
    let e = second.error.unwrap();
    assert_eq!(e.code, ErrorCode::InvalidArgument);
    assert_eq!(e.message, "KClip is already started");
    let stopped = pm.stop();
    assert_eq!(stopped.clip_uuid.as_deref(), Some("clip-1"));
    assert!(stopped.error.is_none());
}

#[test]
fn stopping_without_a_recording_is_refused() {
    let mut pm = StubProcessManager::new();
    let r = pm.stop();
    assert!(r.clip_uuid.is_none());
    let e = r.error.unwrap();
    assert_eq!(e.code, ErrorCode::InvalidArgument);
    assert_eq!(e.message, "KClip is not running");
}

#[test]
fn recordings_get_fresh_identifiers() {
    let mut pm = StubProcessManager::new();
    let a = pm.start_kclip("wave".to_string()).unwrap().clip_uuid.unwrap();
    assert!(is_uuid(&a), "{a}");
    assert_eq!(pm.stop_kclip().unwrap().clip_uuid, Some(a.clone()));
    let b = pm.start_kclip("wave".to_string()).unwrap().clip_uuid.unwrap();
    assert!(is_uuid(&b));
    assert_ne!(a, b);
    assert!(pm.start_kclip("again".to_string()).unwrap().error.is_some());
}

#[test]
fn policy_remembers_its_parameters() {
    let mut p = StubPolicy::new();
    assert!(p.state().state.is_empty());
    let scale = Single::from_bits(0.5f32.to_bits());
    let r = p.start_with("id-1".to_string(), "walk".to_string(), scale, 200, true);
    assert_eq!(r.policy_uuid.as_deref(), Some("id-1"));
    assert!(r.error.is_none());
    let state = p.state();
    assert!(state.error.is_none());
    let keys: Vec<&str> = state.state.iter().map(|e| e.0.as_str()).collect();
    assert_eq!(keys, vec!["action", "action_scale", "episode_length", "dry_run"]);
    assert!(matches!(&state.state[0].1, PolicyParameter::Text(t) if t == "walk"));
    assert!(matches!(&state.state[1].1, PolicyParameter::Scale(s) if *s == scale));
    assert!(matches!(&state.state[2].1, PolicyParameter::Count(200)));
    assert!(matches!(&state.state[3].1, PolicyParameter::Flag(true)));
}

#[test]
fn policy_starts_once_and_forgets_on_stop() {
    let mut p = StubPolicy::new();
    let z = Single::zero();
    p.start_with("id-1".to_string(), "walk".to_string(), z, 1, false);
    let again = p.start_with("id-2".to_string(), "run".to_string(), z, 2, false);
    assert!(again.policy_uuid.is_none());
    let e = again.error.unwrap();
    assert_eq!(e.code, ErrorCode::InvalidArgument);
    assert_eq!(e.message, "Policy is already running");
    assert!(matches!(&p.state().state[0].1, PolicyParameter::Text(t) if t == "walk"));
    let stopped = p.stop();
    assert_eq!(stopped.policy_uuid.as_deref(), Some("id-1"));
    assert!(p.state().state.is_empty());
    let e = p.stop().error.unwrap();
    assert_eq!(e.code, ErrorCode::InvalidArgument);
    assert_eq!(e.message, "Policy is not running");
}

#[test]
fn policy_through_the_capability() {
    let mut p = StubPolicy::new();
    let started = p.start_policy("walk".to_string(), Single::zero(), -3, false).unwrap();
    let uuid = started.policy_uuid.unwrap();
    assert!(is_uuid(&uuid));
    assert_eq!(p.get_state().unwrap().state.len(), 4);
    assert!(matches!(&p.get_state().unwrap().state[2].1, PolicyParameter::Count(-3)));
    assert_eq!(p.stop_policy().unwrap().policy_uuid, Some(uuid));
}

#[test]
fn speech_names_a_file() {
    let s = StubSpeech::new();
    let r = s.synthesize_with("abc", "hello");
    assert_eq!(r.output_file, "/tmp/speech_abc.wav");
    assert!(r.error.is_none());
    let mut s = StubSpeech::new();
    let file = s.synthesize("hello".to_string()).unwrap().output_file;
    assert!(file.starts_with("/tmp/speech_") && file.ends_with(".wav"));
    assert!(is_uuid(&file["/tmp/speech_".len()..file.len() - ".wav".len()]));
}

#[test]
fn stub_imu_values() {
    let mut imu = StubIMU::new();
    let v = imu.get_values().unwrap();
    assert_eq!(f64::from_bits(v.accel_x.to_bits()), 1.0);
    assert_eq!(f64::from_bits(v.accel_y.to_bits()), 2.0);
    assert_eq!(f64::from_bits(v.accel_z.to_bits()), 3.0);
    assert_eq!(f64::from_bits(v.gyro_x.to_bits()), 0.0);
    assert!(v.mag_x.is_none() && v.mag_y.is_none() && v.mag_z.is_none());
    assert!(v.error.is_none());
    let q = imu.get_quaternion().unwrap();
    assert_eq!(f64::from_bits(q.w.to_bits()), 1.0);
    assert_eq!(f64::from_bits(q.x.to_bits()), 0.0);
    let a = imu.get_advanced_values().unwrap();
    assert!(a.lin_acc_x.is_none() && a.grav_z.is_none() && a.temp.is_none());
    let z = imu
        .zero(Some(Duration { secs: 1, nanos: 0 }), Some(3), None, None, None)
        .unwrap();
    assert!(z.success && z.error.is_none());
}

#[test]
fn simulated_imu_is_not_implemented() {
    let mut imu = SimIMU::new();
    let mut ledger = OperationsServiceImpl::new();
    let e = imu.get_values().unwrap_err();
    assert_eq!(e.code(), ErrorCode::NotImplemented);
    assert_eq!(e.message(), "not yet implemented");
    assert_eq!(imu.get_euler().unwrap_err().code(), ErrorCode::NotImplemented);
    assert_eq!(imu.get_quaternion().unwrap_err().code(), ErrorCode::NotImplemented);
    assert_eq!(imu.get_advanced_values().unwrap_err().code(), ErrorCode::NotImplemented);
    assert_eq!(imu.calibrate(&mut ledger).unwrap_err().code(), ErrorCode::NotImplemented);
    assert_eq!(
        imu.zero(None, None, None, None, None).unwrap_err().code(),
        ErrorCode::NotImplemented
    );
}

#[test]
fn stub_actuator_accepts_every_command() {
    let mut a = StubActuator::new();
    let commands: Vec<ActuatorCommand> = [4u32, 4, 9]
        .iter()
        .map(|id| ActuatorCommand {
            actuator_id: *id,
            position: Some(Double::zero()),
            velocity: None,
            torque: None,
        })
        .collect();
    let results = a.command_actuators(commands).unwrap();
    assert_eq!(results.len(), 3);
    assert_eq!(results.iter().map(|r| r.actuator_id).collect::<Vec<_>>(), vec![4, 4, 9]);
    assert!(results.iter().all(|r| r.success && r.error.is_none()));
    assert!(a.command_actuators(vec![]).unwrap().is_empty());
}

#[test]
fn stub_actuator_state_and_configuration() {
    let mut a = StubActuator::new();
    let states = a.get_actuators_state(vec![5, 6]).unwrap();
    assert_eq!(states.len(), 1);
    assert_eq!(states[0].actuator_id, 1);
    assert!(states[0].online);
    assert_eq!(states[0].position, Some(Double::zero()));
    assert_eq!(states[0].voltage, Some(Single::zero()));
    let r = a
        .configure_actuator(ConfigureActuatorRequest {
            actuator_id: 1,
            kp: None,
            kd: None,
            ki: None,
            max_torque: None,
            protective_torque: None,
            protection_time: None,
            torque_enabled: Some(true),
        })
        .unwrap();
    assert!(r.success && r.error.is_none());
}

#[test]
fn bus_imu_addresses_must_fit_in_a_byte() {
    let imu = KBotIMU::new("can0", 1, 2).unwrap();
    assert_eq!(imu.interface(), "can0");
    assert_eq!(imu.can_id(), 1);
    assert_eq!(imu.model(), 2);
    assert!(KBotIMU::new("can0", 255, 255).is_ok());
    let e = KBotIMU::new("can0", 256, 1).err().unwrap();
    assert_eq!(e.code(), ErrorCode::InvalidArgument);
    assert_eq!(e.message(), "CAN ID 256 too large for u8");
    let e = KBotIMU::new("can0", 1, 70000).err().unwrap();
    assert_eq!(e.message(), "Model ID 70000 too large for u8");
    let e = KBotIMU::new("can0", 999, 999).err().unwrap();
    assert_eq!(e.message(), "CAN ID 999 too large for u8");
}

#[test]
fn bus_imu_reports_its_readings() {
    let imu = KBotIMU::new("can0", 1, 1).unwrap();
    let d = |v: f64| Double::from_bits(v.to_bits());
    let data = ImuData {
        x_velocity: d(0.1),
        y_velocity: d(0.2),
        z_velocity: d(0.3),
        x_angle: d(10.0),
        y_angle: d(20.0),
        z_angle: d(30.0),
    };
    let v = imu.get_values(data);
    assert_eq!((v.accel_x, v.accel_y, v.accel_z), (d(0.1), d(0.2), d(0.3)));
    assert_eq!((v.gyro_x, v.gyro_y, v.gyro_z), (d(0.0), d(0.0), d(0.0)));
    assert!(v.mag_x.is_none() && v.error.is_none());
    let e = imu.get_euler(data);
    assert_eq!((e.roll, e.pitch, e.yaw), (d(10.0), d(20.0), d(30.0)));
    let op = imu.calibrate();
    assert_eq!(op.name, "operations/calibrate_imu/0");
    assert!(op.done && op.metadata.is_none() && op.result.is_none());
    assert!(imu.zero().success);
    let e = imu.get_quaternion();
    assert_eq!(e.code(), ErrorCode::NotImplemented);
    assert_eq!(e.message(), "Not implemented");
}
