use kos::error::ErrorCode;
use kos::platforms::zeroth_01::actuator::{ConfigureStep, ServoCommand, ZBotActuator};
use kos::platforms::zeroth_01::firmware::feetech::{
    BusReply, BusRequest, MemoryLockState, Servo, ServoData, ServoDirection, ServoInfo, ServoMode,
    ServoMultipleWriteCommand, ServoRegister, Step, TorqueMode, MAX_SERVOS,
};
use kos::hal::ActuatorCommand;
use kos::scalar::Double;

fn drive<T>(
    memory: &mut [u8; 256],
    present: bool,
    operation: impl Fn(&Vec<BusReply>) -> Step<T>,
) -> (Result<T, kos::error::HalError>, Vec<BusRequest>) {
    let mut replies = Vec::new();
    let mut sent = Vec::new();
    loop {
        match operation(&replies) {
            Step::Done(r) => return (r, sent),
            Step::Next(request) => {
                let reply = if !present {
                    BusReply::Failed
                } else {
                    match &request {
                        BusRequest::Write { address, data, .. } => {
                            for (i, b) in data.iter().enumerate() {
                                memory[*address as usize + i] = *b;
                            }
                            BusReply::Written
                        }
                        BusRequest::Read { address, length, .. } => BusReply::Data(
                            memory[*address as usize..*address as usize + *length as usize]
                                .to_vec(),
                        ),
                        BusRequest::ReadInfo { id } => BusReply::Info(ServoInfo {
                            torque_switch: 1,
                            acceleration: 0,
                            target_location: 100,
                            running_time: 0,
                            running_speed: 0,
                            torque_limit: 1000,
                            lock_mark: 1,
                            current_location: 99,
                            current_speed: -3,
                            current_load: 0,
                            current_voltage: 74,
                            current_temperature: 31,
                            async_write_flag: 0,
                            servo_status: 0,
                            mobile_sign: 0,
                            current_current: *id as u16,
                        }),
                        BusRequest::ReadContinuous => BusReply::Continuous(read_out(memory[0])),
                        _ => BusReply::Written,
                    }
                };
                sent.push(request);
                replies.push(reply);
            }
        }
    }
}

fn read_out(rounds: u8) -> ServoData {
    let idle = ServoInfo {
        torque_switch: 0,
        acceleration: 0,
        target_location: 0,
        running_time: 0,
        running_speed: 0,
        torque_limit: 0,
        lock_mark: 0,
        current_location: 0,
        current_speed: 0,
        current_load: 0,
        current_voltage: 0,
        current_temperature: 0,
        async_write_flag: 0,
        servo_status: 0,
        mobile_sign: 0,
        current_current: 0,
    };
    let mut servo = [idle; MAX_SERVOS];
    servo[3].current_location = 2048;
    servo[3].current_temperature = 40;
    ServoData { servo, task_run_count: rounds as u32 }
}

fn write(id: u8, address: u8, data: &[u8]) -> (u8, u8, Vec<u8>) {
    (id, address, data.to_vec())
}

fn writes_of(sent: &[BusRequest]) -> Vec<(u8, u8, Vec<u8>)> {
    sent.iter()
        .map(|r| match r {
            BusRequest::Write { id, address, data } => (*id, *address, data.clone()),
            other => panic!("unexpected request {other:?}"),
        })
        .collect()
}

#[test]
fn register_addresses() {
    assert_eq!(ServoRegister::ID.address(), 0x05);
    assert_eq!(ServoRegister::MinAngleLimit.address(), 0x09);
    assert_eq!(ServoRegister::MaxAngleLimit.address(), 0x0B);
    assert_eq!(ServoRegister::PProportionalCoeff.address(), 0x15);
    assert_eq!(ServoRegister::DDifferentialCoeff.address(), 0x16);
    assert_eq!(ServoRegister::IIntegralCoeff.address(), 0x17);
    assert_eq!(ServoRegister::TorqueSwitch.address(), 0x28);
    assert_eq!(ServoRegister::LockMark.address(), 0x37);
    assert_eq!(MemoryLockState::Unlocked.value(), 0);
    assert_eq!(MemoryLockState::Locked.value(), 1);
    assert_eq!(TorqueMode::Disabled.value(), 0);
    assert_eq!(TorqueMode::Enabled.value(), 1);
    assert_eq!(TorqueMode::Stiff.value(), 2);
}

#[test]
fn set_pid_unlocks_writes_and_locks() {
    let servo = Servo::new();
    let mut memory = [0u8; 256];
    let (r, sent) = drive(&mut memory, true, |replies| servo.set_pid(4, 32, 1, 16, replies));
    assert!(r.is_ok());
    assert_eq!(
        writes_of(&sent),
        vec![
            write(4, 0x37, &[0]),
            write(4, 0x15, &[32]),
            write(4, 0x17, &[1]),
            write(4, 0x16, &[16]),
            write(4, 0x37, &[1]),
        ]
    );
    let (r, _) = drive(&mut memory, true, |replies| servo.read_pid(4, replies));
    assert_eq!(r.unwrap(), (32, 1, 16));
}

#[test]
fn set_pid_stops_at_the_first_failed_write() {
    let servo = Servo::new();
    let replies = vec![BusReply::Written, BusReply::Written, BusReply::Failed];
    match servo.set_pid(4, 1, 2, 3, &replies) {
        Step::Done(Err(e)) => {
            assert_eq!(e.code(), ErrorCode::HardwareFailure);
            assert_eq!(e.message(), "Failed to write to servo");
        }
        other => panic!("unexpected step {other:?}"),
    }
    let mut memory = [0u8; 256];
    let (r, sent) = drive(&mut memory, false, |replies| servo.set_pid(4, 1, 2, 3, replies));
    assert!(r.is_err());
    assert_eq!(sent.len(), 1);
}

#[test]
fn set_pid_asks_for_one_write_at_a_time() {
    let servo = Servo::new();
    match servo.set_pid(9, 1, 2, 3, &vec![]) {
        Step::Next(BusRequest::Write { id, address, data }) => {
            assert_eq!((id, address, data), (9, 0x37, vec![0]));
        }
        other => panic!("unexpected step {other:?}"),
    }
    match servo.set_pid(9, 1, 2, 3, &vec![BusReply::Written, BusReply::Written]) {
        Step::Next(BusRequest::Write { id, address, data }) => {
            assert_eq!((id, address, data), (9, 0x17, vec![2]));
        }
        other => panic!("unexpected step {other:?}"),
    }
}

#[test]
fn a_read_answered_with_the_wrong_length_fails() {
    let servo = Servo::new();
    let replies = vec![BusReply::Data(vec![1, 2])];
    match servo.read_pid(1, &replies) {
        Step::Done(Err(e)) => assert_eq!(e.message(), "Failed to read from servo"),
        other => panic!("unexpected step {other:?}"),
    }
    match servo.read_pid(1, &vec![BusReply::Written]) {
        Step::Done(Err(_)) => {}
        other => panic!("unexpected step {other:?}"),
    }
}

#[test]
fn angle_limits_are_signed_and_least_significant_byte_first() {
    let servo = Servo::new();
    let mut memory = [0u8; 256];
    memory[0x09] = 0x00;
    memory[0x0A] = 0x80;
    memory[0x0B] = 0xFF;
    memory[0x0C] = 0x0F;
    let (r, sent) = drive(&mut memory, true, |replies| servo.read_angle_limits(2, replies));
    assert_eq!(r.unwrap(), (i16::MIN, 4095));
    assert_eq!(sent.len(), 2);
    memory[0x09] = 0xFF;
    memory[0x0A] = 0xFF;
    memory[0x0B] = 0x34;
    memory[0x0C] = 0x12;
    let (r, _) = drive(&mut memory, true, |replies| servo.read_angle_limits(2, replies));
    assert_eq!(r.unwrap(), (-1, 0x1234));
    assert_eq!(i16::from_le_bytes([0x34, 0x12]), 0x1234);
}

#[test]
fn memory_lock_and_torque_mode_are_single_writes() {
    let servo = Servo::new();
    let mut memory = [0u8; 256];
    let (r, sent) = drive(&mut memory, true, |replies| {
        servo.set_memory_lock(3, MemoryLockState::Locked, replies)
    });
    assert!(r.is_ok());
    assert_eq!(writes_of(&sent), vec![write(3, 0x37, &[1])]);
    let (r, sent) =
        drive(&mut memory, true, |replies| servo.set_torque_mode(3, TorqueMode::Enabled, replies));
    assert!(r.is_ok());
    assert_eq!(writes_of(&sent), vec![write(3, 0x28, &[1])]);
    let (r, _) = drive(&mut memory, false, |replies| {
        servo.set_torque_mode(3, TorqueMode::Disabled, replies)
    });
    assert_eq!(r.unwrap_err().message(), "Failed to write to servo");
}

#[test]
fn two_byte_values_are_written_least_significant_byte_first() {
    let servo = Servo::new();
    let mut memory = [0u8; 256];
    let (r, sent) = drive(&mut memory, true, |replies| {
        servo.write_servo_memory(6, ServoRegister::TargetLocation, 0xABCD, replies)
    });
    assert!(r.is_ok());
    assert_eq!(writes_of(&sent), vec![write(6, 0x2A, &[0xCD, 0xAB])]);
}

#[test]
fn scan_finds_a_servo_that_answers_with_its_number() {
    let servo = Servo::new();
    let mut memory = [0u8; 256];
    memory[0x05] = 8;
    let (r, _) = drive(&mut memory, true, |replies| servo.scan(8, replies));
    assert_eq!(r.unwrap(), true);
    let (r, _) = drive(&mut memory, true, |replies| servo.scan(9, replies));
    assert_eq!(r.unwrap(), false);
    let (r, sent) = drive(&mut memory, false, |replies| servo.scan(8, replies));
    assert_eq!(r.unwrap(), false);
    assert_eq!(sent.len(), 1);
}

#[test]
fn a_position_wins_over_a_velocity() {
    let v = Some(Double::from_bits(1.0f64.to_bits()));
    let both = ActuatorCommand { actuator_id: 1, position: v, velocity: v, torque: None };
    let spin = ActuatorCommand { actuator_id: 1, position: None, velocity: v, torque: v };
    let none = ActuatorCommand { actuator_id: 1, position: None, velocity: None, torque: v };
    assert_eq!(ZBotActuator::command_kind(&both), ServoCommand::Move);
    assert_eq!(ZBotActuator::command_kind(&spin), ServoCommand::Spin);
    assert_eq!(ZBotActuator::command_kind(&none), ServoCommand::Nothing);
}

#[test]
fn servo_batch_has_one_result_per_command() {
    let commands: Vec<ActuatorCommand> = (1..=3)
        .map(|id| ActuatorCommand { actuator_id: id, position: None, velocity: None, torque: None })
        .collect();
    let outcomes = vec![Ok(()), Err("Failed to move servo".to_string()), Ok(())];
    let results = ZBotActuator::command_actuators(&commands, &outcomes);
    assert_eq!(results.len(), 3);
    assert!(results[0].success && results[2].success);
    assert!(!results[1].success);
    let e = results[1].error.as_ref().unwrap();
    assert_eq!(e.code, ErrorCode::HardwareFailure);
    assert_eq!(e.message, "Failed to move servo");
    assert_eq!(results[1].actuator_id, 2);
}

#[test]
fn a_servo_command_without_a_reported_outcome_has_failed() {
    let commands: Vec<ActuatorCommand> = (1..=2)
        .map(|id| ActuatorCommand { actuator_id: id, position: None, velocity: None, torque: None })
        .collect();
    let results = ZBotActuator::command_actuators(&commands, &vec![Ok(())]);
    assert_eq!(results.len(), 2);
    assert!(results[0].success);
    assert!(!results[1].success);
    let e = results[1].error.as_ref().unwrap();
    assert_eq!(e.code, ErrorCode::Unknown);
    assert_eq!(e.message, "No outcome reported");
}

#[test]
fn servo_configuration_script() {
    let script = ZBotActuator::plan_configuration(5, Some(10), None, Some(30), Some(true));
    assert_eq!(
        writes_of(&script),
        vec![
            write(5, 0x37, &[0]),
            write(5, 0x15, &[10]),
            write(5, 0x16, &[30]),
            write(5, 0x28, &[1]),
            write(5, 0x37, &[1]),
        ]
    );
    let script = ZBotActuator::plan_configuration(5, None, Some(7), None, Some(false));
    assert_eq!(
        writes_of(&script),
        vec![write(5, 0x37, &[0]), write(5, 0x17, &[7]), write(5, 0x28, &[0]), write(5, 0x37, &[1])]
    );
    assert_eq!(ZBotActuator::plan_configuration(5, None, None, None, None).len(), 2);
}

#[test]
fn servo_configuration_outcome() {
    let w = || BusReply::Written;
    let ok = ZBotActuator::configure_actuator(4, &vec![w(), w(), w(), w()]).unwrap();
    assert!(ok.success);
    let middle = ZBotActuator::configure_actuator(4, &vec![w(), BusReply::Failed, w(), w()])
        .unwrap();
    assert!(!middle.success);
    assert_eq!(middle.error.unwrap().message, "Failed to write to servo");
    let unlock = ZBotActuator::configure_actuator(4, &vec![BusReply::Failed]).unwrap_err();
    assert_eq!(unlock.code, kos::error::StatusCode::Internal);
    assert_eq!(unlock.message, "Failed to write to servo");
    let lock = ZBotActuator::configure_actuator(4, &vec![w(), w(), w(), BusReply::Failed]);
    assert!(lock.is_err());
    assert!(ZBotActuator::configure_actuator(0, &vec![]).is_err());
    assert!(ZBotActuator::configure_actuator(2, &vec![w(), w()]).unwrap().success);
}

fn configure(
    kp: Option<u8>,
    torque: Option<bool>,
    bus: &[bool],
) -> (Result<kos::hal::ActionResponse, kos::error::Status>, Vec<BusRequest>) {
    let mut replies = Vec::new();
    let mut sent = Vec::new();
    loop {
        match ZBotActuator::configure_step(5, kp, None, None, torque, &replies) {
            ConfigureStep::Done(r) => return (r, sent),
            ConfigureStep::Next(request) => {
                let through = bus[sent.len()];
                sent.push(request);
                replies.push(if through { BusReply::Written } else { BusReply::Failed });
            }
        }
    }
}

#[test]
fn a_configuration_writes_everything_between_unlock_and_lock() {
    let (r, sent) = configure(Some(10), Some(true), &[true, true, true, true]);
    assert!(r.unwrap().success);
    assert_eq!(
        writes_of(&sent),
        vec![write(5, 0x37, &[0]), write(5, 0x15, &[10]), write(5, 0x28, &[1]), write(5, 0x37, &[1])]
    );
}

#[test]
fn a_refused_unlock_ends_the_configuration_at_once() {
    let (r, sent) = configure(Some(10), Some(true), &[false, true, true, true]);
    let status = r.unwrap_err();
    assert_eq!(status.code, kos::error::StatusCode::Internal);
    assert_eq!(status.message, "Failed to write to servo");
    assert_eq!(writes_of(&sent), vec![write(5, 0x37, &[0])]);
}

#[test]
fn a_refused_gain_does_not_keep_the_memory_from_being_locked() {
    let (r, sent) = configure(Some(10), Some(true), &[true, false, true, true]);
    let response = r.unwrap();
    assert!(!response.success);
    let error = response.error.unwrap();
    assert_eq!(error.code, ErrorCode::HardwareFailure);
    assert_eq!(error.message, "Failed to write to servo");
    assert_eq!(sent.len(), 4);
    assert_eq!(writes_of(&sent)[3], write(5, 0x37, &[1]));
}

#[test]
fn a_refused_lock_fails_the_configuration() {
    let (r, sent) = configure(None, None, &[true, false]);
    assert_eq!(r.unwrap_err().message, "Failed to write to servo");
    assert_eq!(writes_of(&sent), vec![write(5, 0x37, &[0]), write(5, 0x37, &[1])]);
}

#[test]
fn a_configuration_step_depends_on_the_replies_alone() {
    let first = ZBotActuator::configure_step(5, Some(1), None, None, None, &vec![]);
    assert!(matches!(first, ConfigureStep::Next(BusRequest::Write { id: 5, address: 0x37, .. })));
    let second =
        ZBotActuator::configure_step(5, Some(1), None, None, None, &vec![BusReply::Written]);
    match second {
        ConfigureStep::Next(BusRequest::Write { id, address, data }) => {
            assert_eq!((id, address, data), (5, 0x15, vec![1]));
        }
        other => panic!("unexpected step {other:?}"),
    }
    let over = ZBotActuator::configure_step(
        5,
        Some(1),
        None,
        None,
        None,
        &vec![BusReply::Written, BusReply::Written, BusReply::Written],
    );
    assert!(matches!(over, ConfigureStep::Done(Ok(_))));
}

#[test]
fn the_read_out_of_all_servos_is_handed_on_as_the_bus_gave_it() {
    let servo = Servo::new();
    let mut memory = [0u8; 256];
    memory[0] = 9;
    let (r, sent) = drive(&mut memory, true, |replies| servo.read_continuous(replies));
    let data = r.unwrap();
    assert_eq!(data.task_run_count, 9);
    assert_eq!(data.servo.len(), MAX_SERVOS);
    assert_eq!(data.servo[3].current_location, 2048);
    assert_eq!(data.servo[3].current_temperature, 40);
    assert_eq!(data.servo[4].current_location, 0);
    assert_eq!(sent.len(), 1);
    assert!(matches!(sent[0], BusRequest::ReadContinuous));
}

#[test]
fn a_read_out_that_the_bus_refuses_has_failed() {
    let servo = Servo::new();
    let mut memory = [0u8; 256];
    let (r, sent) = drive(&mut memory, false, |replies| servo.read_continuous(replies));
    let e = r.unwrap_err();
    assert_eq!(e.code(), ErrorCode::HardwareFailure);
    assert_eq!(e.message(), "Failed to read continuous servo data");
    assert_eq!(sent.len(), 1);
    let wrong = servo.read_continuous(&vec![BusReply::Written]);
    match wrong {
        Step::Done(Err(e)) => assert_eq!(e.message(), "Failed to read continuous servo data"),
        other => panic!("unexpected step {other:?}"),
    }
}

#[test]
fn a_write_to_several_servos_goes_out_as_one_request() {
    let servo = Servo::new();
    let mut ids = [0u8; MAX_SERVOS];
    let mut positions = [0i16; MAX_SERVOS];
    let mut times = [0u16; MAX_SERVOS];
    let mut speeds = [0u16; MAX_SERVOS];
    ids[0] = 1;
    ids[1] = 2;
    positions[0] = 1024;
    positions[1] = -5;
    times[1] = 300;
    speeds[0] = 77;
    let cmd = ServoMultipleWriteCommand { only_write_positions: 1, ids, positions, times, speeds };
    let mut memory = [0u8; 256];
    let (r, sent) = drive(&mut memory, true, |replies| servo.write_multiple(&cmd, replies));
    assert!(r.is_ok());
    assert_eq!(sent.len(), 1);
    match &sent[0] {
        BusRequest::WriteMultiple(out) => {
            assert_eq!(out.only_write_positions, 1);
            assert_eq!(out.ids, ids);
            assert_eq!(out.positions, positions);
            assert_eq!(out.times, times);
            assert_eq!(out.speeds, speeds);
        }
        other => panic!("unexpected request {other:?}"),
    }
    let (r, sent) = drive(&mut memory, false, |replies| servo.write_multiple(&cmd, replies));
    let e = r.unwrap_err();
    assert_eq!(e.code(), ErrorCode::HardwareFailure);
    assert_eq!(e.message(), "Failed to write multiple servo positions");
    assert_eq!(sent.len(), 1);
}

#[test]
fn speed_sign_and_magnitude() {
    assert_eq!(ZBotActuator::speed_parts(0), (false, 0));
    assert_eq!(ZBotActuator::speed_parts(0x7FFF), (false, 0x7FFF));
    assert_eq!(ZBotActuator::speed_parts(0x8000), (true, 0));
    assert_eq!(ZBotActuator::speed_parts(0x8123), (true, 0x0123));
    for raw in [1u16, 500, 0x8001, 0xFFFF] {
        assert_eq!(ZBotActuator::speed_parts(raw), (raw & 0x8000 != 0, raw & 0x7FFF));
    }
}

#[test]
fn servo_states() {
    let off = ZBotActuator::offline_state(4);
    assert_eq!(off.actuator_id, 4);
    assert!(!off.online);
    assert!(off.position.is_none() && off.velocity.is_none() && off.temperature.is_none());
    let z = Double::zero();
    let s = kos::scalar::Single::zero();
    let on = ZBotActuator::online_state(4, z, z, z, s, s);
    assert!(on.online);
    assert!(on.torque.is_none());
    assert!(on.position.is_some() && on.voltage.is_some() && on.current.is_some());
}

#[test]
fn servo_calibration_is_not_offered() {
    let e = ZBotActuator::new().calibrate_actuator();
    assert_eq!(e.code(), ErrorCode::NotImplemented);
    assert_eq!(e.message(), "Calibration not yet implemented");
}

#[test]
fn plain_writes_and_reads() {
    let servo = Servo::new();
    let mut memory = [0u8; 256];
    let (r, sent) = drive(&mut memory, true, |replies| {
        servo.write(2, ServoRegister::TargetLocation, &vec![1, 2, 3], replies)
    });
    assert!(r.is_ok());
    assert_eq!(writes_of(&sent), vec![write(2, 0x2A, &[1, 2, 3])]);
    let (r, _) = drive(&mut memory, true, |replies| {
        servo.read(2, ServoRegister::TargetLocation, 3, replies)
    });
    assert_eq!(r.unwrap(), vec![1, 2, 3]);
    let (r, _) = drive(&mut memory, false, |replies| {
        servo.read(2, ServoRegister::TargetLocation, 3, replies)
    });
    assert_eq!(r.unwrap_err().message(), "Failed to read from servo");
    let (r, _) = drive(&mut memory, false, |replies| {
        servo.write(2, ServoRegister::TargetLocation, &vec![], replies)
    });
    assert_eq!(r.unwrap_err().message(), "Failed to write to servo");
}

#[test]
fn single_commands_name_their_failure() {
    let servo = Servo::new();
    let mut memory = [0u8; 256];
    let (r, sent) = drive(&mut memory, true, |replies| servo.move_servo(3, -20, 5, 6, replies));
    assert!(r.is_ok());
    assert!(matches!(
        sent[0],
        BusRequest::Move { id: 3, position: -20, time: 5, speed: 6 }
    ));
    let (r, _) = drive(&mut memory, false, |replies| servo.move_servo(3, 0, 0, 0, replies));
    assert_eq!(r.unwrap_err().message(), "Failed to move servo");
    let (r, _) = drive(&mut memory, false, |replies| servo.enable_readout(replies));
    assert_eq!(r.unwrap_err().message(), "Failed to enable servo readout");
    let (r, _) = drive(&mut memory, false, |replies| servo.disable_readout(replies));
    assert_eq!(r.unwrap_err().message(), "Failed to disable servo readout");
    let (r, _) = drive(&mut memory, false, |replies| servo.enable_movement(replies));
    assert_eq!(r.unwrap_err().message(), "Failed to enable servo movement");
    let (r, _) = drive(&mut memory, false, |replies| servo.disable_movement(replies));
    assert_eq!(r.unwrap_err().message(), "Failed to disable servo movement");
    let (r, _) =
        drive(&mut memory, false, |replies| servo.set_mode(1, ServoMode::Position, replies));
    assert_eq!(r.unwrap_err().message(), "Failed to set servo mode");
    let (r, _) = drive(&mut memory, false, |replies| {
        servo.set_speed(1, 5, ServoDirection::Clockwise, replies)
    });
    assert_eq!(r.unwrap_err().message(), "Failed to set servo speed");
    let (r, _) = drive(&mut memory, false, |replies| servo.read_info(1, replies));
    assert_eq!(r.unwrap_err().message(), "Failed to read servo info");
}

#[test]
fn modes_and_directions_on_the_bus() {
    let servo = Servo::new();
    let mut memory = [0u8; 256];
    let (_, sent) =
        drive(&mut memory, true, |replies| servo.set_mode(4, ServoMode::StepServo, replies));
    assert!(matches!(sent[0], BusRequest::SetMode { id: 4, mode: 3 }));
    let (_, sent) = drive(&mut memory, true, |replies| {
        servo.set_speed(4, 700, ServoDirection::Counterclockwise, replies)
    });
    assert!(matches!(sent[0], BusRequest::SetSpeed { id: 4, speed: 700, direction: -1 }));
    let (_, sent) = drive(&mut memory, true, |replies| {
        servo.set_speed(4, 700, ServoDirection::Clockwise, replies)
    });
    assert!(matches!(sent[0], BusRequest::SetSpeed { id: 4, speed: 700, direction: 1 }));
    assert_eq!(ServoMode::Position.value(), 0);
    assert_eq!(ServoMode::ConstantSpeed.value(), 1);
    assert_eq!(ServoMode::PWMOpenLoop.value(), 2);
    let (_, sent) = drive(&mut memory, true, |replies| servo.enable_movement(replies));
    assert!(matches!(sent[0], BusRequest::EnableMovement));
    let (_, sent) = drive(&mut memory, true, |replies| servo.disable_readout(replies));
    assert!(matches!(sent[0], BusRequest::DisableReadout));
}

#[test]
fn run_time_memory_is_read_in_one_piece() {
    let servo = Servo::new();
    let mut memory = [0u8; 256];
    let (r, sent) = drive(&mut memory, true, |replies| servo.read_info(9, replies));
    let info = r.unwrap();
    assert_eq!(info.current_current, 9);
    assert_eq!(info.current_speed, -3);
    assert_eq!(info.current_voltage, 74);
    assert!(matches!(sent[0], BusRequest::ReadInfo { id: 9 }));
    assert!(matches!(
        servo.read_info(9, &vec![BusReply::Written]),
        Step::Done(Err(_))
    ));
}
