use kos::error::{reply, status_code_of, ErrorCode, HalError, Status, StatusCode};

fn all_codes() -> Vec<ErrorCode> {
    vec![
        ErrorCode::Unknown,
        ErrorCode::NotImplemented,
        ErrorCode::InvalidArgument,
        ErrorCode::HardwareFailure,
        ErrorCode::Timeout,
        ErrorCode::Unauthorized,
    ]
}

#[test]
fn every_failure_class_keeps_its_own_transport_class() {
    assert_eq!(status_code_of(ErrorCode::Unknown), StatusCode::Unknown);
    assert_eq!(status_code_of(ErrorCode::NotImplemented), StatusCode::Unimplemented);
    assert_eq!(status_code_of(ErrorCode::InvalidArgument), StatusCode::InvalidArgument);
    assert_eq!(status_code_of(ErrorCode::HardwareFailure), StatusCode::Internal);
    assert_eq!(status_code_of(ErrorCode::Timeout), StatusCode::DeadlineExceeded);
    assert_eq!(status_code_of(ErrorCode::Unauthorized), StatusCode::PermissionDenied);
    let codes = all_codes();
    for a in &codes {
        for b in &codes {
            assert_eq!(a == b, status_code_of(*a) == status_code_of(*b));
        }
    }
}

#[test]
fn only_device_faults_and_timeouts_are_retryable() {
    assert!(ErrorCode::HardwareFailure.is_retryable());
    assert!(ErrorCode::Timeout.is_retryable());
    assert!(!ErrorCode::Unknown.is_retryable());
    assert!(!ErrorCode::NotImplemented.is_retryable());
    assert!(!ErrorCode::InvalidArgument.is_retryable());
    assert!(!ErrorCode::Unauthorized.is_retryable());
}

#[test]
fn a_failure_remembers_class_and_detail() {
    for code in all_codes() {
        let e = HalError::new(code, "bus fault".to_string());
        assert_eq!(e.code(), code);
        assert_eq!(e.message(), "bus fault");
        let copy = e.clone();
        assert_eq!(copy.code(), code);
        assert_eq!(copy.message(), "bus fault");
        let inside = e.to_error();
        assert_eq!(inside.code, code);
        assert_eq!(inside.message, "bus fault");
    }
    assert!(matches!(
        HalError::new(ErrorCode::Timeout, String::new()),
        HalError::Timeout(_)
    ));
}

#[test]
fn context_is_put_before_the_detail() {
    let e = HalError::HardwareFailure("no response".to_string()).with_context("actuator 7");
    assert_eq!(e.code(), ErrorCode::HardwareFailure);
    assert_eq!(e.message(), "actuator 7: no response");
}

#[test]
fn the_client_sees_class_and_detail() {
    let s = Status::from_failure(
        "Failed to command actuators",
        &HalError::Timeout("no answer in 10 ms".to_string()),
    );
    assert_eq!(s.code, StatusCode::DeadlineExceeded);
    assert_eq!(s.message, "Failed to command actuators, no answer in 10 ms");
    let s = Status::from_failure("x", &HalError::Unauthorized("interlock".to_string()));
    assert_eq!(s.code, StatusCode::PermissionDenied);
    assert_eq!(s.message, "x, interlock");
}

#[test]
fn status_constructors_set_their_class() {
    assert_eq!(Status::internal("a").code, StatusCode::Internal);
    assert_eq!(Status::not_found("a").code, StatusCode::NotFound);
    assert_eq!(Status::unimplemented("a").code, StatusCode::Unimplemented);
    assert_eq!(Status::invalid_argument("a").code, StatusCode::InvalidArgument);
    assert_eq!(Status::new(StatusCode::Unknown, "why").message, "why");
    let copy = Status::internal("kept").clone();
    assert_eq!(copy.message, "kept");
}

#[test]
fn reply_passes_success_and_translates_failure() {
    assert_eq!(reply("ctx", Ok::<u8, HalError>(5)).unwrap(), 5);
    let s = reply::<u8>("Failed to zero IMU", Err(HalError::InvalidArgument("bad".to_string())))
        .unwrap_err();
    assert_eq!(s.code, StatusCode::InvalidArgument);
    assert_eq!(s.message, "Failed to zero IMU, bad");
}
