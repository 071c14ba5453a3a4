use kos::error::StatusCode;
use kos::services::operations::{metadata_reply, Any, Operation, OperationsServiceImpl};

#[test]
fn create_returns_a_copy_of_the_new_record() {
    let mut ledger = OperationsServiceImpl::new();
    let op = ledger
        .create("operations/x/1".to_string(), Ok(vec![1, 2, 3]), "type.example/X")
        .unwrap();
    assert_eq!(op.name, "operations/x/1");
    assert!(!op.done);
    assert!(op.result.is_none());
    let metadata = op.metadata.unwrap();
    assert_eq!(metadata.type_url, "type.example/X");
    assert_eq!(metadata.value, vec![1, 2, 3]);
    let stored = ledger.get_operation("operations/x/1").unwrap();
    assert_eq!(stored.name, "operations/x/1");
    assert_eq!(stored.metadata.unwrap().value, vec![1, 2, 3]);
}

#[test]
fn create_fails_where_the_metadata_does_not_encode() {
    let mut ledger = OperationsServiceImpl::new();
    let err = ledger
        .create("operations/x/1".to_string(), Err("buffer full".to_string()), "t")
        .unwrap_err();
    assert_eq!(err.code, StatusCode::Internal);
    assert_eq!(err.message, "Failed to encode metadata: buffer full");
    assert!(ledger.get_operation("operations/x/1").is_err());
}

#[test]
fn unknown_operation_poll() {
    let ledger = OperationsServiceImpl::new();
    let err = ledger.get_operation("operations/calibrate_actuator/999").unwrap_err();
    assert_eq!(err.code, StatusCode::NotFound);
    assert_eq!(err.message, "Operation not found");
}

#[test]
fn last_writer_wins() {
    let mut ledger = OperationsServiceImpl::new();
    ledger.create("n".to_string(), Ok(vec![1]), "a").unwrap();
    ledger.update_metadata("n", Ok(vec![9]), true).unwrap();
    assert!(ledger.update_metadata("n", Ok(vec![8]), false).is_err());
    ledger.create("n".to_string(), Ok(vec![2, 2]), "b").unwrap();
    let op = ledger.get_operation("n").unwrap();
    assert!(!op.done);
    let m = op.metadata.unwrap();
    assert_eq!(m.type_url, "b");
    assert_eq!(m.value, vec![2, 2]);
}

#[test]
fn update_replaces_the_payload_and_keeps_the_type_tag() {
    let mut ledger = OperationsServiceImpl::new();
    ledger.create("n".to_string(), Ok(vec![1]), "tag").unwrap();
    ledger.update_metadata("n", Ok(vec![4, 5, 6]), false).unwrap();
    let op = ledger.get_operation("n").unwrap();
    assert!(!op.done);
    let m = op.metadata.unwrap();
    assert_eq!(m.type_url, "tag");
    assert_eq!(m.value, vec![4, 5, 6]);
    assert_eq!(op.name, "n");
}

#[test]
fn a_done_operation_is_immutable() {
    let mut ledger = OperationsServiceImpl::new();
    ledger.create("n".to_string(), Ok(vec![1]), "tag").unwrap();
    ledger.update_metadata("n", Ok(vec![2]), true).unwrap();
    let done = ledger.get_operation("n").unwrap();
    assert!(done.done);
    assert_eq!(done.metadata.unwrap().value, vec![2]);
    for mark_done in [false, true] {
        let err = ledger.update_metadata("n", Ok(vec![3]), mark_done).unwrap_err();
        assert_eq!(err.code, StatusCode::FailedPrecondition);
        assert_eq!(err.message, "Operation is already done");
        let after = ledger.get_operation("n").unwrap();
        assert!(after.done);
        assert_eq!(after.name, "n");
        assert!(after.result.is_none());
        let metadata = after.metadata.unwrap();
        assert_eq!(metadata.type_url, "tag");
        assert_eq!(metadata.value, vec![2]);
    }
}

#[test]
fn a_done_operation_without_metadata_is_immutable_too() {
    let mut ledger = OperationsServiceImpl::new();
    ledger.insert(Operation { name: "bare".to_string(), metadata: None, done: true, result: None });
    let err = ledger.update_metadata("bare", Ok(vec![1]), false).unwrap_err();
    assert_eq!(err.code, StatusCode::FailedPrecondition);
    assert!(ledger.get_operation("bare").unwrap().metadata.is_none());
}

#[test]
fn an_encoding_failure_is_reported_before_a_done_record() {
    let mut ledger = OperationsServiceImpl::new();
    ledger.create("n".to_string(), Ok(vec![1]), "tag").unwrap();
    ledger.update_metadata("n", Ok(vec![2]), true).unwrap();
    let err = ledger.update_metadata("n", Err("e".to_string()), true).unwrap_err();
    assert_eq!(err.message, "Failed to encode metadata: e");
    assert_eq!(ledger.get_metadata("n"), Some(vec![2]));
}

#[test]
fn a_new_operation_may_take_the_name_of_a_done_one() {
    let mut ledger = OperationsServiceImpl::new();
    ledger.create("n".to_string(), Ok(vec![1]), "tag").unwrap();
    ledger.update_metadata("n", Ok(vec![2]), true).unwrap();
    ledger.create("n".to_string(), Ok(vec![5]), "tag").unwrap();
    ledger.update_metadata("n", Ok(vec![6]), false).unwrap();
    let op = ledger.get_operation("n").unwrap();
    assert!(!op.done);
    assert_eq!(op.metadata.unwrap().value, vec![6]);
}

#[test]
fn update_of_an_unknown_name_is_not_found() {
    let mut ledger = OperationsServiceImpl::new();
    let err = ledger.update_metadata("missing", Ok(vec![1]), true).unwrap_err();
    assert_eq!(err.code, StatusCode::NotFound);
    assert_eq!(err.message, "Operation not found");
}

#[test]
fn a_missing_name_is_reported_before_an_encoding_failure() {
    let mut ledger = OperationsServiceImpl::new();
    let err = ledger.update_metadata("missing", Err("bad".to_string()), true).unwrap_err();
    assert_eq!(err.code, StatusCode::NotFound);
}

#[test]
fn update_fails_where_the_metadata_does_not_encode() {
    let mut ledger = OperationsServiceImpl::new();
    ledger.create("n".to_string(), Ok(vec![1]), "tag").unwrap();
    let err = ledger.update_metadata("n", Err("bad".to_string()), true).unwrap_err();
    assert_eq!(err.code, StatusCode::Internal);
    assert_eq!(err.message, "Failed to encode metadata: bad");
    let op = ledger.get_operation("n").unwrap();
    assert!(!op.done);
    assert_eq!(op.metadata.unwrap().value, vec![1]);
}

#[test]
fn update_fails_where_there_is_no_metadata_to_replace() {
    let mut ledger = OperationsServiceImpl::new();
    ledger.insert(Operation {
        name: "bare".to_string(),
        metadata: None,
        done: false,
        result: None,
    });
    let err = ledger.update_metadata("bare", Ok(vec![1]), true).unwrap_err();
    assert_eq!(err.code, StatusCode::Internal);
    assert_eq!(err.message, "Operation has no metadata field");
    assert!(!ledger.get_operation("bare").unwrap().done);
    assert!(ledger.get_metadata("bare").is_none());
}

#[test]
fn an_encoding_failure_is_reported_before_missing_metadata() {
    let mut ledger = OperationsServiceImpl::new();
    ledger.insert(Operation {
        name: "bare".to_string(),
        metadata: None,
        done: false,
        result: None,
    });
    let err = ledger.update_metadata("bare", Err("e".to_string()), true).unwrap_err();
    assert_eq!(err.message, "Failed to encode metadata: e");
}

#[test]
fn writes_to_one_name_leave_the_others_alone() {
    let mut ledger = OperationsServiceImpl::new();
    ledger.create("a".to_string(), Ok(vec![1]), "ta").unwrap();
    ledger.create("b".to_string(), Ok(vec![2]), "tb").unwrap();
    ledger.update_metadata("b", Ok(vec![3]), true).unwrap();
    let a = ledger.get_operation("a").unwrap();
    assert!(!a.done);
    assert_eq!(a.metadata.unwrap().value, vec![1]);
}

#[test]
fn many_writers_leave_one_whole_value() {
    let mut ledger = OperationsServiceImpl::new();
    let payloads: Vec<Vec<u8>> = (0..50u8).map(|i| vec![i; (i as usize % 7) + 1]).collect();
    let mut expected: (Vec<u8>, bool) = (vec![], false);
    for (i, p) in payloads.iter().enumerate() {
        if i % 3 == 0 {
            ledger.create("shared".to_string(), Ok(p.clone()), "t").unwrap();
            expected = (p.clone(), false);
        } else {
            let mark_done = i % 5 == 0;
            let refused = expected.1;
            let r = ledger.update_metadata("shared", Ok(p.clone()), mark_done);
            assert_eq!(r.is_err(), refused);
            if !refused {
                expected = (p.clone(), mark_done);
            }
        }
    }
    let op = ledger.get_operation("shared").unwrap();
    assert_eq!(op.name, "shared");
    assert_eq!(op.done, expected.1);
    let value = op.metadata.unwrap().value;
    assert_eq!(value, expected.0);
    assert!(payloads.contains(&value));
}

#[test]
fn get_metadata_returns_the_stored_payload() {
    let mut ledger = OperationsServiceImpl::new();
    ledger.create("n".to_string(), Ok(vec![7, 8]), "tag").unwrap();
    assert_eq!(ledger.get_metadata("n"), Some(vec![7, 8]));
    assert_eq!(ledger.get_metadata("other"), None);
}

#[test]
fn metadata_reply_passes_values_and_names_decode_failures() {
    assert_eq!(metadata_reply::<u32>(None).unwrap(), None);
    assert_eq!(metadata_reply(Some(Ok(5u32))).unwrap(), Some(5));
    let err = metadata_reply::<u32>(Some(Err("truncated".to_string()))).unwrap_err();
    assert_eq!(err.code, StatusCode::Internal);
    assert_eq!(err.message, "Failed to decode metadata: truncated");
}

#[test]
fn insert_keeps_the_record_under_its_own_name() {
    let mut ledger = OperationsServiceImpl::new();
    ledger.insert(Operation {
        name: "given".to_string(),
        metadata: Some(Any { type_url: "t".to_string(), value: vec![1] }),
        done: true,
        result: None,
    });
    let op = ledger.get_operation("given").unwrap();
    assert!(op.done);
    assert_eq!(op.name, "given");
}

#[test]
fn housekeeping_requests_are_not_offered() {
    let ledger = OperationsServiceImpl::new();
    let e = ledger.list_operations().unwrap_err();
    assert_eq!(e.code, StatusCode::Unimplemented);
    assert_eq!(e.message, "ListOperations is not implemented");
    let e = ledger.cancel_operation("n").unwrap_err();
    assert_eq!(e.code, StatusCode::Unimplemented);
    assert_eq!(e.message, "CancelOperation is not implemented");
    let e = ledger.delete_operation("n").unwrap_err();
    assert_eq!(e.code, StatusCode::Unimplemented);
    assert_eq!(e.message, "DeleteOperation is not implemented");
    let e = ledger.wait_operation("n").unwrap_err();
    assert_eq!(e.code, StatusCode::Unimplemented);
    assert_eq!(e.message, "WaitOperation is not implemented");
}
