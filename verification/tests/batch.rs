use kos::error::ErrorCode;
use kos::hal::{ActuatorCommand, ConfigureActuatorRequest};
use kos::platforms::kbot::actuator::{
    feedback_state, summarize, Dispatch, KBotActuator, SetterOutcome,
};
use kos::scalar::Double;

fn bank() -> KBotActuator {
    KBotActuator::new(vec![
        ("can1".to_string(), vec![11, 12, 13]),
        ("can2".to_string(), vec![21, 22]),
    ])
    .unwrap()
}

fn position(actuator_id: u32) -> ActuatorCommand {
    ActuatorCommand {
        actuator_id,
        position: Some(Double::from_bits(90.0f64.to_bits())),
        velocity: None,
        torque: None,
    }
}

fn failed(not_found: bool, message: &str) -> SetterOutcome {
    SetterOutcome::Failed { not_found, message: message.to_string() }
}

#[test]
fn motors_are_routed_to_their_ports() {
    let a = bank();
    assert_eq!(a.get_supervisor_for_motor(11).unwrap(), ("can1".to_string(), 11));
    assert_eq!(a.get_supervisor_for_motor(22).unwrap(), ("can2".to_string(), 22));
    let e = a.get_supervisor_for_motor(99).unwrap_err();
    assert_eq!(e.code(), ErrorCode::InvalidArgument);
    assert_eq!(e.message(), "Motor ID 99 not found");
}

#[test]
fn a_motor_listed_on_two_ports_is_refused() {
    let e = KBotActuator::new(vec![
        ("can1".to_string(), vec![1, 2]),
        ("can2".to_string(), vec![3, 2]),
    ])
    .err()
    .unwrap();
    assert_eq!(e.code(), ErrorCode::InvalidArgument);
    assert_eq!(e.message(), "Duplicate motor ID: 2");
}

#[test]
fn a_motor_listed_twice_on_one_port_is_refused() {
    let e = KBotActuator::new(vec![("can1".to_string(), vec![5, 5])]).err().unwrap();
    assert_eq!(e.message(), "Duplicate motor ID: 5");
}

#[test]
fn a_motor_number_beyond_the_bus_is_refused() {
    let e = KBotActuator::new(vec![("can1".to_string(), vec![1, 256, 300])]).err().unwrap();
    assert_eq!(e.code(), ErrorCode::InvalidArgument);
    assert_eq!(e.message(), "Motor ID 256 too large for u8");
    assert!(KBotActuator::new(vec![("can1".to_string(), vec![255])]).is_ok());
}

#[test]
fn a_duplicate_is_reported_before_a_number_that_is_too_large() {
    let e = KBotActuator::new(vec![("can1".to_string(), vec![300, 7, 7])]).err().unwrap();
    assert_eq!(e.message(), "Duplicate motor ID: 7");
}

#[test]
fn the_first_faulty_port_decides() {
    let e = KBotActuator::new(vec![
        ("can1".to_string(), vec![1, 1000]),
        ("can2".to_string(), vec![1]),
    ])
    .err()
    .unwrap();
    assert_eq!(e.message(), "Motor ID 1000 too large for u8");
}

#[test]
fn no_ports_no_motors() {
    let a = KBotActuator::new(vec![]).unwrap();
    assert!(a.get_supervisor_for_motor(1).is_err());
}

#[test]
fn a_bank_without_motors_answers_every_command_with_a_failure() {
    let a = KBotActuator::new(vec![]).unwrap();
    let plan = a.plan_commands(&vec![position(1), position(2), position(3)]);
    let results = KBotActuator::command_actuators(&plan, &vec![]);
    assert_eq!(results.len(), 3);
    for (i, r) in results.iter().enumerate() {
        assert_eq!(r.actuator_id, i as u32 + 1);
        assert!(!r.success);
        let e = r.error.as_ref().unwrap();
        assert_eq!(e.code, ErrorCode::InvalidArgument);
        assert_eq!(e.message, format!("Motor ID {} not found", i + 1));
    }
}

#[test]
fn batch_partial_failure() {
    let a = bank();
    let commands: Vec<ActuatorCommand> =
        [11u32, 12, 99, 21, 22].iter().map(|id| position(*id)).collect();
    let plan = a.plan_commands(&commands);
    assert_eq!(plan.len(), 5);
    let outcomes: Vec<Vec<SetterOutcome>> = plan
        .iter()
        .map(|d| match d {
            Dispatch::Rejected(_) => vec![],
            Dispatch::Send { .. } => vec![SetterOutcome::Done],
        })
        .collect();
    let results = KBotActuator::command_actuators(&plan, &outcomes);
    assert_eq!(results.len(), 5);
    let ids: Vec<u32> = results.iter().map(|r| r.actuator_id).collect();
    assert_eq!(ids, vec![11, 12, 99, 21, 22]);
    let failures: Vec<&kos::hal::ActionResult> = results.iter().filter(|r| !r.success).collect();
    assert_eq!(failures.len(), 1);
    assert_eq!(failures[0].actuator_id, 99);
    let error = failures[0].error.as_ref().unwrap();
    assert_eq!(error.code, ErrorCode::InvalidArgument);
    assert_eq!(error.message, "Motor ID 99 not found");
    assert_eq!(results.iter().filter(|r| r.success && r.error.is_none()).count(), 4);
}

#[test]
fn a_routed_command_names_port_motor_and_targets() {
    let a = bank();
    let mut command = position(21);
    command.torque = Some(Double::from_bits(2.0f64.to_bits()));
    let plan = a.plan_commands(&vec![command]);
    match &plan[0] {
        Dispatch::Send { actuator_id, port, local_id, position, velocity, torque } => {
            assert_eq!(*actuator_id, 21);
            assert_eq!(port, "can2");
            assert_eq!(*local_id, 21);
            assert_eq!(*position, command.position);
            assert_eq!(*velocity, None);
            assert_eq!(*torque, command.torque);
        }
        other => panic!("unexpected dispatch {other:?}"),
    }
}

#[test]
fn a_hardware_fault_on_one_motor_leaves_the_others() {
    let a = bank();
    let commands = vec![position(11), position(12)];
    let plan = a.plan_commands(&commands);
    let outcomes = vec![vec![failed(false, "bus off")], vec![SetterOutcome::Done]];
    let results = KBotActuator::command_actuators(&plan, &outcomes);
    assert!(!results[0].success);
    let e = results[0].error.as_ref().unwrap();
    assert_eq!(e.code, ErrorCode::HardwareFailure);
    assert_eq!(e.message, "bus off");
    assert!(results[1].success);
}

#[test]
fn failures_of_one_motor_are_joined() {
    let outcomes = vec![
        failed(false, "position refused"),
        SetterOutcome::Done,
        failed(false, "torque refused"),
    ];
    let e = summarize(&outcomes).unwrap();
    assert_eq!(e.code, ErrorCode::HardwareFailure);
    assert_eq!(e.message, "position refused; torque refused");
}

#[test]
fn a_motor_unknown_to_the_bus_is_an_invalid_argument() {
    let outcomes = vec![failed(false, "a"), failed(true, "b")];
    let e = summarize(&outcomes).unwrap();
    assert_eq!(e.code, ErrorCode::InvalidArgument);
    assert_eq!(e.message, "a; b");
}

#[test]
fn no_failure_no_report() {
    assert!(summarize(&vec![]).is_none());
    assert!(summarize(&vec![SetterOutcome::Done, SetterOutcome::Done]).is_none());
}

#[test]
fn a_command_without_a_reported_outcome_has_failed() {
    let a = bank();
    let plan = a.plan_commands(&vec![position(11), position(99), position(12)]);
    let results = KBotActuator::command_actuators(&plan, &vec![vec![SetterOutcome::Done]]);
    assert_eq!(results.len(), 3);
    assert!(results[0].success);
    assert!(!results[1].success);
    assert_eq!(results[1].error.as_ref().unwrap().message, "Motor ID 99 not found");
    assert!(!results[2].success);
    let e = results[2].error.as_ref().unwrap();
    assert_eq!(e.code, ErrorCode::Unknown);
    assert_eq!(e.message, "No outcome reported");
    assert_eq!(results[2].actuator_id, 12);
}

#[test]
fn a_sent_command_without_targets_succeeds_on_an_empty_report() {
    let a = bank();
    let bare = ActuatorCommand { actuator_id: 11, position: None, velocity: None, torque: None };
    let plan = a.plan_commands(&vec![bare]);
    let results = KBotActuator::command_actuators(&plan, &vec![vec![]]);
    assert!(results[0].success && results[0].error.is_none());
}

#[test]
fn an_empty_batch_has_no_results() {
    let a = bank();
    let plan = a.plan_commands(&vec![]);
    assert!(plan.is_empty());
    assert!(KBotActuator::command_actuators(&plan, &vec![]).is_empty());
}

#[test]
fn configuration_is_routed_or_rejected() {
    let a = bank();
    let mut config = ConfigureActuatorRequest {
        actuator_id: 13,
        kp: None,
        kd: None,
        ki: None,
        max_torque: None,
        protective_torque: None,
        protection_time: None,
        torque_enabled: None,
    };
    assert_eq!(a.plan_configuration(&config).unwrap(), ("can1".to_string(), 13));
    config.actuator_id = 77;
    let response = a.plan_configuration(&config).unwrap_err();
    assert!(!response.success);
    let e = response.error.unwrap();
    assert_eq!(e.code, ErrorCode::InvalidArgument);
    assert_eq!(e.message, "Motor ID 77 not found");
}

#[test]
fn configuration_response_folds_the_writes() {
    let ok = KBotActuator::configure_actuator(&vec![SetterOutcome::Done, SetterOutcome::Done]);
    assert!(ok.success);
    assert!(ok.error.is_none());
    let bad = KBotActuator::configure_actuator(&vec![SetterOutcome::Done, failed(true, "gone")]);
    assert!(!bad.success);
    assert_eq!(bad.error.unwrap().code, ErrorCode::InvalidArgument);
}

#[test]
fn feedback_becomes_state() {
    let p = Double::from_bits(12.5f64.to_bits());
    let s = feedback_state(21, true, p, Double::zero(), Double::zero());
    assert_eq!(s.actuator_id, 21);
    assert!(s.online);
    assert_eq!(s.position, Some(p));
    assert!(s.temperature.is_none());
    assert!(s.voltage.is_none());
    assert!(s.current.is_none());
    assert!(!feedback_state(1, false, p, p, p).online);
}
