use kos::hal::{
    Actuator, CalibrateActuatorMetadata, CalibrateActuatorRequest, CalibrateImuMetadata,
    CalibrationStatus, IMU,
};
use kos::platforms::stub::actuator::{operation_name, StubActuator, CALIBRATION_SECONDS};
use kos::platforms::stub::imu::StubIMU;
use kos::services::operations::OperationsServiceImpl;
use kos::wire::{CALIBRATE_ACTUATOR_TYPE_URL, CALIBRATE_IMU_TYPE_URL};
use prost::encoding::{decode_key, decode_varint, DecodeContext, WireType};

fn decode_actuator_metadata(mut buf: &[u8]) -> (u32, String) {
    let mut actuator_id = 0u32;
    let mut status = String::new();
    while !buf.is_empty() {
        let (tag, wire_type) = decode_key(&mut buf).unwrap();
        match tag {
            1 => prost::encoding::uint32::merge(
                wire_type,
                &mut actuator_id,
                &mut buf,
                DecodeContext::default(),
            )
            .unwrap(),
            2 => prost::encoding::string::merge(
                wire_type,
                &mut status,
                &mut buf,
                DecodeContext::default(),
            )
            .unwrap(),
            _ => panic!("unexpected field {tag}"),
        }
    }
    (actuator_id, status)
}

fn request(actuator_id: u32) -> CalibrateActuatorRequest {
    CalibrateActuatorRequest { actuator_id, calibration_speed: None, threshold_current: None }
}

#[test]
fn calibration_lifecycle() {
    let mut ledger = OperationsServiceImpl::new();
    let mut actuator = StubActuator::new();
    let op = actuator.calibrate_actuator(&mut ledger, request(7)).unwrap();
    assert_eq!(op.name, "operations/calibrate_actuator/7");
    assert!(!op.done);
    let metadata = op.metadata.unwrap();
    assert_eq!(metadata.type_url, "type.googleapis.com/kos.actuator.CalibrateActuatorMetadata");
    assert_eq!(decode_actuator_metadata(&metadata.value), (7, "calibrating".to_string()));

    let polled = ledger.get_operation("operations/calibrate_actuator/7").unwrap();
    assert!(!polled.done);

    let next = actuator.take_calibration();
    assert_eq!(next, Some(7));
    StubActuator::finish_calibration(&mut ledger, 7, CalibrationStatus::Calibrated).unwrap();

    let polled = ledger.get_operation("operations/calibrate_actuator/7").unwrap();
    assert!(polled.done);
    assert_eq!(polled.name, "operations/calibrate_actuator/7");
    let payload = ledger.get_metadata("operations/calibrate_actuator/7").unwrap();
    assert_eq!(decode_actuator_metadata(&payload), (7, "calibrated".to_string()));
    assert_eq!(polled.metadata.unwrap().type_url, CALIBRATE_ACTUATOR_TYPE_URL);
}

#[test]
fn a_failed_calibration_still_ends_its_operation() {
    let mut ledger = OperationsServiceImpl::new();
    let mut actuator = StubActuator::new();
    actuator.calibrate_actuator(&mut ledger, request(12)).unwrap();
    StubActuator::finish_calibration(&mut ledger, 12, CalibrationStatus::Timeout).unwrap();
    let polled = ledger.get_operation("operations/calibrate_actuator/12").unwrap();
    assert!(polled.done);
    assert_eq!(
        decode_actuator_metadata(&polled.metadata.unwrap().value),
        (12, "timeout".to_string())
    );
}

#[test]
fn finishing_a_calibration_that_was_never_started_is_not_found() {
    let mut ledger = OperationsServiceImpl::new();
    let err = StubActuator::finish_calibration(&mut ledger, 3, CalibrationStatus::Calibrated)
        .unwrap_err();
    assert_eq!(err.message, "Operation not found");
}

#[test]
fn calibrations_are_taken_up_in_the_order_of_their_requests() {
    let mut ledger = OperationsServiceImpl::new();
    let mut actuator = StubActuator::new();
    assert_eq!(actuator.take_calibration(), None);
    for id in [5, 2, 9] {
        actuator.calibrate_actuator(&mut ledger, request(id)).unwrap();
    }
    assert_eq!(actuator.take_calibration(), Some(5));
    assert_eq!(actuator.take_calibration(), Some(2));
    assert_eq!(actuator.take_calibration(), Some(9));
    assert_eq!(actuator.take_calibration(), None);
    assert_eq!(CALIBRATION_SECONDS, 15);
}

#[test]
fn operation_names_carry_the_actuator_in_decimal() {
    assert_eq!(operation_name(0), "operations/calibrate_actuator/0");
    assert_eq!(operation_name(3), "operations/calibrate_actuator/3");
    assert_eq!(operation_name(999), "operations/calibrate_actuator/999");
    assert_eq!(operation_name(u32::MAX), "operations/calibrate_actuator/4294967295");
}

#[test]
fn actuator_metadata_bytes() {
    let m = CalibrateActuatorMetadata { actuator_id: 7, status: "calibrating".to_string() };
    let mut expected = vec![0x08, 0x07, 0x12, 0x0b];
    expected.extend_from_slice(b"calibrating");
    assert_eq!(m.encode(), expected);
}

#[test]
fn default_fields_are_left_out() {
    let m = CalibrateActuatorMetadata { actuator_id: 0, status: String::new() };
    assert_eq!(m.encode(), Vec::<u8>::new());
    let m = CalibrateActuatorMetadata { actuator_id: 0, status: "x".to_string() };
    assert_eq!(m.encode(), vec![0x12, 0x01, b'x']);
    let m = CalibrateActuatorMetadata { actuator_id: 1, status: String::new() };
    assert_eq!(m.encode(), vec![0x08, 0x01]);
    let m = CalibrateImuMetadata { status: String::new() };
    assert_eq!(m.encode(), Vec::<u8>::new());
}

#[test]
fn large_numbers_and_long_texts_use_several_length_bytes() {
    let m = CalibrateActuatorMetadata { actuator_id: 300, status: String::new() };
    assert_eq!(m.encode(), vec![0x08, 0xac, 0x02]);
    let m = CalibrateActuatorMetadata { actuator_id: u32::MAX, status: String::new() };
    assert_eq!(m.encode(), vec![0x08, 0xff, 0xff, 0xff, 0xff, 0x0f]);
    let long = "é".repeat(100);
    let m = CalibrateImuMetadata { status: long.clone() };
    let bytes = m.encode();
    assert_eq!(&bytes[..3], &[0x0a, 0xc8, 0x01]);
    assert_eq!(&bytes[3..], long.as_bytes());
    let mut rest = &bytes[1..];
    assert_eq!(decode_varint(&mut rest).unwrap(), 200);
}

#[test]
fn metadata_round_trips_through_the_decoder() {
    for (id, status) in [(1u32, "calibrating"), (255, "calibrated"), (70000, "timeout")] {
        let m = CalibrateActuatorMetadata { actuator_id: id, status: status.to_string() };
        assert_eq!(decode_actuator_metadata(&m.encode()), (id, status.to_string()));
    }
    let m = CalibrateImuMetadata { status: "calibrating".to_string() };
    let bytes = m.encode();
    let mut buf = &bytes[..];
    let (tag, wire_type) = decode_key(&mut buf).unwrap();
    assert_eq!(tag, 1);
    assert_eq!(wire_type, WireType::LengthDelimited);
    let mut status = String::new();
    prost::encoding::string::merge(wire_type, &mut status, &mut buf, DecodeContext::default())
        .unwrap();
    assert_eq!(status, "calibrating");
    assert!(buf.is_empty());
}

#[test]
fn imu_calibration_creates_an_operation_under_a_fresh_name() {
    let mut ledger = OperationsServiceImpl::new();
    let mut imu = StubIMU::new();
    let first = imu.calibrate(&mut ledger).unwrap();
    let second = imu.calibrate(&mut ledger).unwrap();
    assert!(first.name.starts_with("operations/imu/calibrate/"));
    assert_eq!(first.name.len(), "operations/imu/calibrate/".len() + 36);
    assert_ne!(first.name, second.name);
    assert!(!first.done);
    let stored = ledger.get_operation(&first.name).unwrap();
    let metadata = stored.metadata.unwrap();
    assert_eq!(metadata.type_url, CALIBRATE_IMU_TYPE_URL);
    let mut expected = vec![0x0a, 0x0b];
    expected.extend_from_slice(b"calibrating");
    assert_eq!(metadata.value, expected);
    assert!(ledger.get_operation(&second.name).is_ok());
}

#[test]
fn imu_calibration_under_a_given_identifier() {
    let mut ledger = OperationsServiceImpl::new();
    let imu = StubIMU::new();
    let op = imu.calibrate_as(&mut ledger, "abc").unwrap();
    assert_eq!(op.name, "operations/imu/calibrate/abc");
    assert!(ledger.get_operation("operations/imu/calibrate/abc").is_ok());
}

#[test]
fn status_words() {
    assert_eq!(CalibrationStatus::Calibrating.to_string(), "calibrating");
    assert_eq!(CalibrationStatus::Calibrated.to_string(), "calibrated");
    assert_eq!(CalibrationStatus::Timeout.to_string(), "timeout");
    assert_eq!(CalibrationStatus::Calibrated.as_str(), "calibrated");
}
