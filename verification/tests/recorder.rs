use kos::scalar::{Double, Single};
use kos::services::krec_logger::{
    classify_topic, ActuatorConfig, merge, Frame, Ingested, Message, Payload, Taken, TelemetryLogger, TopicKind,
    CHECKPOINT_INTERVAL,
};
use kos::telemetry_types::{ActuatorCommand, ActuatorState, ImuValues, Quaternion};

fn logger() -> TelemetryLogger {
    TelemetryLogger::new(
        "uuid-1".to_string(),
        "walk".to_string(),
        "out.krec".to_string(),
        "Stub".to_string(),
        "00000000".to_string(),
        1_000,
    )
}

fn d(value: f64) -> Double {
    Double::from_bits(value.to_bits())
}

fn command(step: u64) -> Message {
    Message {
        frame_number: step + 10,
        video_timestamp: step + 100,
        inference_step: step,
        payload: Payload::ActuatorCommands(vec![ActuatorCommand {
            actuator_id: 3,
            position: Some(d(1.5)),
            velocity: None,
            torque: None,
        }]),
    }
}

fn imu(step: u64, with_mag: bool) -> Message {
    Message {
        frame_number: 0,
        video_timestamp: 0,
        inference_step: step,
        payload: Payload::ImuValues(ImuValues {
            accel_x: d(1.0),
            accel_y: d(2.0),
            accel_z: d(3.0),
            gyro_x: d(0.1),
            gyro_y: d(0.2),
            gyro_z: d(0.3),
            mag_x: if with_mag { Some(d(7.0)) } else { None },
            mag_y: None,
            mag_z: if with_mag { Some(d(9.0)) } else { Some(d(5.0)) },
            error: None,
        }),
    }
}

fn quaternion(step: u64) -> Message {
    Message {
        frame_number: 0,
        video_timestamp: 0,
        inference_step: step,
        payload: Payload::ImuQuaternion(Quaternion { x: d(0.0), y: d(0.0), z: d(0.0), w: d(1.0) }),
    }
}

fn states(step: u64, ids: &[u32]) -> Message {
    Message {
        frame_number: 0,
        video_timestamp: 0,
        inference_step: step,
        payload: Payload::ActuatorStates(
            ids.iter()
                .map(|id| ActuatorState {
                    actuator_id: *id,
                    online: true,
                    position: Some(d(10.0)),
                    velocity: None,
                    torque: None,
                    temperature: Some(d(36.0)),
                    voltage: Some(Single::from_bits(12.0f32.to_bits())),
                    current: None,
                })
                .collect(),
        ),
    }
}

#[test]
fn new_recorder_holds_nothing() {
    let l = logger();
    assert_eq!(l.frames().len(), 0);
    assert_eq!(l.current_inference_step(), 0);
    assert!(l.current_frame().holds_nothing());
    assert_eq!(l.header().uuid, "uuid-1");
    assert_eq!(l.header().task, "walk");
    assert_eq!(l.header().robot_platform, "Stub");
    assert_eq!(l.header().robot_serial, "00000000");
    assert_eq!(l.header().start_timestamp, 1_000);
    assert_eq!(l.header().end_timestamp, 0);
    assert!(l.header().actuator_configs.is_empty());
    assert_eq!(l.output_path(), "out.krec");
}

#[test]
fn the_manifest_is_written_once_and_kept_through_the_stop() {
    let configs = vec![
        ActuatorConfig {
            actuator_id: 11,
            kp: Some(d(50.0)),
            kd: Some(d(1.0)),
            ki: None,
            max_torque: Some(d(20.0)),
            name: Some("left shoulder".to_string()),
        },
        ActuatorConfig { actuator_id: 12, kp: None, kd: None, ki: None, max_torque: None, name: None },
    ];
    let mut l = TelemetryLogger::with_manifest(
        "uuid-1".to_string(),
        "walk".to_string(),
        "out.krec".to_string(),
        "KBot".to_string(),
        "00000000".to_string(),
        7,
        configs,
    );
    assert_eq!(l.header().end_timestamp, 0);
    l.ingest(&command(1));
    l.stop(9);
    let h = l.header();
    assert_eq!(h.end_timestamp, 9);
    assert_eq!(h.actuator_configs.len(), 2);
    assert_eq!(h.actuator_configs[0].actuator_id, 11);
    assert_eq!(h.actuator_configs[0].kp, Some(d(50.0)));
    assert_eq!(h.actuator_configs[0].name.as_deref(), Some("left shoulder"));
    assert_eq!(h.actuator_configs[1].actuator_id, 12);
    assert!(h.actuator_configs[1].name.is_none());
}

#[test]
fn first_rise_records_a_frame() {
    let mut l = logger();
    let done = l.ingest(&command(1));
    assert!(done.flushed);
    assert!(!done.checkpoint);
    assert_eq!(l.frames().len(), 1);
    assert_eq!(l.frames()[0].inference_step, 1);
    assert_eq!(l.frames()[0].frame_number, 11);
    assert_eq!(l.frames()[0].video_timestamp, 101);
    assert_eq!(l.frames()[0].actuator_commands.len(), 1);
    assert_eq!(l.current_inference_step(), 1);
    assert!(l.current_frame().holds_nothing());
}

#[test]
fn same_step_is_kept_in_progress() {
    let mut l = logger();
    l.ingest(&command(4));
    let done = l.ingest(&command(4));
    assert!(!done.flushed);
    assert!(!done.checkpoint);
    assert_eq!(l.frames().len(), 1);
    assert_eq!(l.current_frame().actuator_commands.len(), 1);
    assert_eq!(l.current_frame().inference_step, 4);
}

#[test]
fn step_zero_never_flushes() {
    let mut l = logger();
    assert!(!l.ingest(&command(0)).flushed);
    assert!(!l.ingest(&imu(0, false)).flushed);
    assert_eq!(l.frames().len(), 0);
}

#[test]
fn one_frame_for_each_rise() {
    let mut l = logger();
    let steps = [1u64, 1, 2, 3, 2, 3, 5, 5, 4];
    let mut flushes = 0;
    for s in steps {
        if l.ingest(&command(s)).flushed {
            flushes += 1;
        }
    }
    assert_eq!(flushes, 4);
    assert_eq!(l.frames().len(), 4);
    let recorded: Vec<u64> = l.frames().iter().map(|f| f.inference_step).collect();
    assert_eq!(recorded, vec![1, 2, 3, 5]);
    assert_eq!(l.current_inference_step(), 5);
    assert_eq!(l.current_frame().actuator_commands.len(), 2);
}

#[test]
fn interleaved_topics_flush_on_the_running_maximum() {
    let mut l = logger();
    assert!(l.ingest(&command(1)).flushed);
    assert!(l.ingest(&command(2)).flushed);
    assert!(!l.ingest(&imu(1, false)).flushed);
    assert!(!l.ingest(&imu(2, false)).flushed);
    assert!(l.ingest(&states(3, &[1, 2])).flushed);
    assert_eq!(l.frames().len(), 3);
    let last = &l.frames()[2];
    assert_eq!(last.inference_step, 3);
    assert!(last.imu_values.is_some());
    assert_eq!(last.actuator_states.len(), 2);
    assert_eq!(last.actuator_commands.len(), 0);
}

#[test]
fn a_frame_closed_by_a_sample_takes_the_step_of_the_sample() {
    let mut l = logger();
    l.ingest(&command(2));
    l.ingest(&command(1));
    assert!(l.ingest(&imu(7, true)).flushed);
    let f = &l.frames()[1];
    assert_eq!(f.inference_step, 7);
    assert_eq!(f.frame_number, 11);
    assert_eq!(f.video_timestamp, 101);
}

#[test]
fn imu_sample_without_magnetometer() {
    let mut f = Frame::empty();
    merge(&mut f, &imu(0, false));
    let v = f.imu_values.unwrap();
    assert_eq!(v.accel.unwrap().x, d(1.0));
    assert_eq!(v.accel.unwrap().y, d(2.0));
    assert_eq!(v.accel.unwrap().z, d(3.0));
    assert_eq!(v.gyro.unwrap().z, d(0.3));
    assert!(v.mag.is_none());
    assert!(v.quaternion.is_none());
}

#[test]
fn imu_sample_with_partial_magnetometer_counts_gaps_as_zero() {
    let mut f = Frame::empty();
    merge(&mut f, &imu(0, true));
    let mag = f.imu_values.unwrap().mag.unwrap();
    assert_eq!(mag.x, d(7.0));
    assert_eq!(mag.y, d(0.0));
    assert_eq!(mag.z, d(9.0));
}

#[test]
fn quaternion_joins_the_sample_in_progress() {
    let mut f = Frame::empty();
    merge(&mut f, &imu(0, false));
    merge(&mut f, &quaternion(0));
    let v = f.imu_values.unwrap();
    assert!(v.accel.is_some());
    assert_eq!(v.quaternion.unwrap().w, d(1.0));
}

#[test]
fn quaternion_alone_opens_an_empty_sample() {
    let mut f = Frame::empty();
    merge(&mut f, &quaternion(0));
    let v = f.imu_values.unwrap();
    assert!(v.accel.is_none());
    assert!(v.gyro.is_none());
    assert!(v.mag.is_none());
    assert!(v.quaternion.is_some());
}

#[test]
fn a_sample_keeps_the_orientation_that_arrived_before_it() {
    let mut f = Frame::empty();
    merge(&mut f, &quaternion(0));
    merge(&mut f, &imu(0, false));
    let v = f.imu_values.unwrap();
    assert_eq!(v.quaternion.unwrap().w, d(1.0));
    assert_eq!(v.accel.unwrap().x, d(1.0));
    merge(&mut f, &imu(0, true));
    let v = f.imu_values.unwrap();
    assert!(v.mag.is_some());
    assert!(v.quaternion.is_some());
}

#[test]
fn streams_may_arrive_in_any_order() {
    let messages = [imu(0, true), quaternion(0), states(0, &[1, 2]), command(0)];
    let orders: [[usize; 4]; 4] = [[0, 1, 2, 3], [3, 2, 1, 0], [1, 0, 3, 2], [2, 3, 0, 1]];
    let mut seen = Vec::new();
    for order in orders {
        let mut f = Frame::empty();
        for i in order {
            merge(&mut f, &messages[i]);
        }
        seen.push(format!("{f:?}"));
    }
    assert!(seen.iter().all(|s| s == &seen[0]));
}

#[test]
fn states_are_appended_in_order() {
    let mut f = Frame::empty();
    merge(&mut f, &states(0, &[4, 5]));
    merge(&mut f, &states(0, &[6]));
    let ids: Vec<u32> = f.actuator_states.iter().map(|s| s.actuator_id).collect();
    assert_eq!(ids, vec![4, 5, 6]);
    assert_eq!(f.actuator_states[0].voltage, Some(Single::from_bits(12.0f32.to_bits())));
    assert_eq!(f.inference_step, 0);
}

#[test]
fn commands_record_missing_targets_as_zero() {
    let mut f = Frame::empty();
    merge(&mut f, &command(9));
    let c = f.actuator_commands[0];
    assert_eq!(c.actuator_id, 3);
    assert_eq!(c.position, d(1.5));
    assert_eq!(c.velocity, d(0.0));
    assert_eq!(c.torque, d(0.0));
    assert_eq!(f.inference_step, 9);
    assert_eq!(f.frame_number, 19);
    assert_eq!(f.video_timestamp, 109);
}

#[test]
fn checkpoint_is_due_every_five_hundred_frames() {
    let mut l = logger();
    let mut due = Vec::new();
    for s in 1..=1001u64 {
        let done = l.ingest(&command(s));
        assert!(done.flushed);
        if done.checkpoint {
            due.push(s);
        }
    }
    assert_eq!(CHECKPOINT_INTERVAL, 500);
    assert_eq!(due, vec![500, 1000]);
}

#[test]
fn stop_sets_the_end_and_keeps_identity_and_frames() {
    let mut l = logger();
    l.ingest(&command(1));
    l.ingest(&command(2));
    let before: Vec<(u64, u64, usize)> = l
        .frames()
        .iter()
        .map(|f| (f.inference_step, f.frame_number, f.actuator_commands.len()))
        .collect();
    l.stop(5_000);
    let h = l.header();
    assert_eq!(h.end_timestamp, 5_000);
    assert!(h.end_timestamp > h.start_timestamp);
    assert_eq!(h.uuid, "uuid-1");
    assert_eq!(h.task, "walk");
    assert_eq!(h.robot_platform, "Stub");
    assert_eq!(h.robot_serial, "00000000");
    assert_eq!(h.start_timestamp, 1_000);
    let after: Vec<(u64, u64, usize)> = l
        .frames()
        .iter()
        .map(|f| (f.inference_step, f.frame_number, f.actuator_commands.len()))
        .collect();
    assert_eq!(before, after);
}

#[test]
fn stop_records_the_frame_in_progress_under_the_last_step() {
    let mut l = logger();
    l.ingest(&command(3));
    l.ingest(&imu(2, false));
    let done = l.stop(9_000);
    assert!(done.flushed);
    assert!(done.checkpoint);
    assert_eq!(l.frames().len(), 2);
    assert_eq!(l.frames()[1].inference_step, 3);
    assert!(l.frames()[1].imu_values.is_some());
    assert!(l.current_frame().holds_nothing());
}

#[test]
fn stop_with_a_clock_that_went_back_still_sets_the_end() {
    let mut l = logger();
    let done = l.stop(10);
    assert!(!done.flushed);
    assert!(done.checkpoint);
    assert_eq!(l.header().end_timestamp, 10);
    assert_eq!(l.frames().len(), 0);
}

#[test]
fn topics_are_told_by_their_suffix() {
    assert_eq!(classify_topic("robots/Stub-00000000/imu/values"), TopicKind::ImuValues);
    assert_eq!(classify_topic("robots/Stub-00000000/imu/quaternion"), TopicKind::ImuQuaternion);
    assert_eq!(classify_topic("robots/Stub-00000000/actuator/state"), TopicKind::ActuatorState);
    assert_eq!(
        classify_topic("robots/Stub-00000000/actuator/command"),
        TopicKind::ActuatorCommand
    );
    assert_eq!(classify_topic("robots/Stub-00000000/imu/euler"), TopicKind::Other);
    assert_eq!(classify_topic(""), TopicKind::Other);
    assert_eq!(classify_topic("/imu/value"), TopicKind::Other);
}

#[test]
fn the_first_matching_suffix_decides() {
    assert_eq!(classify_topic("x/actuator/command/imu/values"), TopicKind::ImuValues);
    assert_eq!(classify_topic("x/actuator/command/actuator/state"), TopicKind::ActuatorState);
}

#[test]
fn recorder_subscribes_to_three_topics() {
    let l = logger();
    assert_eq!(
        l.subscriptions(),
        vec![
            "robots/Stub-00000000/imu/values".to_string(),
            "robots/Stub-00000000/actuator/state".to_string(),
            "robots/Stub-00000000/actuator/command".to_string(),
        ]
    );
    let kinds: Vec<TopicKind> = l.subscriptions().iter().map(|t| classify_topic(t)).collect();
    assert_eq!(
        kinds,
        vec![TopicKind::ImuValues, TopicKind::ActuatorState, TopicKind::ActuatorCommand]
    );
}

#[test]
fn a_slash_in_the_identity_may_mislead_the_classification() {
    let l = TelemetryLogger::new(
        "u".to_string(),
        "a".to_string(),
        "p".to_string(),
        "x/imu/values".to_string(),
        "1".to_string(),
        0,
    );
    let topics = l.subscriptions();
    assert_eq!(topics[1], "robots/x/imu/values-1/actuator/state");
    assert_eq!(classify_topic(&topics[1]), TopicKind::ImuValues);
}

#[test]
fn an_undecodable_payload_is_dropped_and_changes_nothing() {
    let mut l = logger();
    l.ingest(&command(2));
    l.ingest(&imu(1, true));
    let taken = l.on_publish("robots/Stub-00000000/actuator/command", None);
    assert_eq!(taken, Taken::Dropped);
    assert_eq!(l.frames().len(), 1);
    assert_eq!(l.current_inference_step(), 2);
    assert!(l.current_frame().imu_values.is_some());
    assert_eq!(l.current_frame().actuator_commands.len(), 0);
}

#[test]
fn a_payload_of_another_stream_is_dropped() {
    let mut l = logger();
    let taken = l.on_publish("robots/Stub-00000000/imu/values", Some(command(5)));
    assert_eq!(taken, Taken::Dropped);
    assert_eq!(l.frames().len(), 0);
    assert!(l.current_frame().holds_nothing());
    let taken = l.on_publish("robots/Stub-00000000/imu/euler", Some(imu(5, false)));
    assert_eq!(taken, Taken::Dropped);
}

#[test]
fn a_decoded_payload_of_the_right_stream_is_merged() {
    let mut l = logger();
    let taken = l.on_publish("robots/Stub-00000000/imu/values", Some(imu(0, false)));
    assert_eq!(taken, Taken::Merged(Ingested { flushed: false, checkpoint: false }));
    let taken = l.on_publish("robots/Stub-00000000/actuator/command", Some(command(1)));
    assert_eq!(taken, Taken::Merged(Ingested { flushed: true, checkpoint: false }));
    assert_eq!(l.frames().len(), 1);
    assert!(l.frames()[0].imu_values.is_some());
    assert_eq!(l.frames()[0].actuator_commands.len(), 1);
    let taken = l.on_publish("robots/Stub-00000000/imu/quaternion", Some(quaternion(1)));
    assert_eq!(taken, Taken::Merged(Ingested { flushed: false, checkpoint: false }));
    let taken = l.on_publish("robots/Stub-00000000/actuator/state", Some(states(1, &[1])));
    assert_eq!(taken, Taken::Merged(Ingested { flushed: false, checkpoint: false }));
}

#[test]
fn steps_that_never_fall_give_one_frame_per_increase() {
    let mut l = logger();
    let steps = [0u64, 0, 1, 1, 1, 4, 4, 9, 10, 10];
    for s in steps {
        l.ingest(&states(s, &[1]));
    }
    let increases = steps.windows(2).filter(|w| w[1] > w[0]).count();
    assert_eq!(increases, 4);
    assert_eq!(l.frames().len(), increases);
    let recorded: Vec<u64> = l.frames().iter().map(|f| f.inference_step).collect();
    assert_eq!(recorded, vec![1, 4, 9, 10]);
}
