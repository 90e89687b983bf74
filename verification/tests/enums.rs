use swdk::vals::{
    TryFromPrimitiveError, WdfExecutionLevel, WdfFileObjClass, WdfIoQueueDispatchType,
    WdfIoQueueState, WdfIoTargetOpenType, WdfRequestReuseFlags, WdfRequestSendOptionsFlags,
    WdfRequestStopActionFlags, WdfRequestType, WdfSyncScope, WdfTriState,
};

#[test]
fn dispatch_type_numbers_round_trip() {
    for (v, n) in [
        (WdfIoQueueDispatchType::Invalid, 0),
        (WdfIoQueueDispatchType::Sequential, 1),
        (WdfIoQueueDispatchType::Parallel, 2),
        (WdfIoQueueDispatchType::Manual, 3),
        (WdfIoQueueDispatchType::Max, 4),
    ] {
        assert_eq!(i32::from(v), n);
        assert_eq!(WdfIoQueueDispatchType::try_from(n), Ok(v));
    }
    assert_eq!(
        WdfIoQueueDispatchType::try_from(5),
        Err(TryFromPrimitiveError { number: 5 })
    );
}

#[test]
fn queue_state_bits() {
    assert_eq!(i32::from(WdfIoQueueState::AcceptRequests), 1);
    assert_eq!(i32::from(WdfIoQueueState::PnpHeld), 16);
    assert_eq!(WdfIoQueueState::try_from(8), Ok(WdfIoQueueState::DriverNoRequests));
    assert_eq!(WdfIoQueueState::try_from(3), Err(TryFromPrimitiveError { number: 3 }));
}

#[test]
fn tri_state_default_and_numbers() {
    assert_eq!(WdfTriState::default(), WdfTriState::Default);
    assert_eq!(i32::from(WdfTriState::False), 0);
    assert_eq!(i32::from(WdfTriState::True), 1);
    assert_eq!(i32::from(WdfTriState::Default), 2);
    assert_eq!(WdfTriState::try_from(-1), Err(TryFromPrimitiveError { number: -1 }));
}

#[test]
fn file_object_class_can_be_optional_is_the_sign_bit() {
    assert_eq!(i32::from(WdfFileObjClass::CanBeOptional), i32::MIN);
    assert_eq!(WdfFileObjClass::try_from(i32::MIN), Ok(WdfFileObjClass::CanBeOptional));
    assert_eq!(WdfFileObjClass::try_from(4), Ok(WdfFileObjClass::WdfCannotUseFsContexts));
    assert_eq!(WdfFileObjClass::try_from(5), Err(TryFromPrimitiveError { number: 5 }));
}

#[test]
fn sync_scope_and_execution_level_numbers() {
    assert_eq!(i32::from(WdfSyncScope::ScopeNone), 4);
    assert_eq!(WdfSyncScope::try_from(2), Ok(WdfSyncScope::Device));
    assert_eq!(i32::from(WdfExecutionLevel::Dispatch), 3);
    assert_eq!(WdfExecutionLevel::try_from(1), Ok(WdfExecutionLevel::Inherit));
    assert_eq!(WdfExecutionLevel::try_from(4), Err(TryFromPrimitiveError { number: 4 }));
}

#[test]
fn request_type_numbers_with_gaps() {
    assert_eq!(i32::from(WdfRequestType::Other), 28);
    assert_eq!(i32::from(WdfRequestType::Usb), 64);
    assert_eq!(i32::from(WdfRequestType::Max), 256);
    assert_eq!(WdfRequestType::try_from(255), Ok(WdfRequestType::NoFormat));
    assert_eq!(WdfRequestType::try_from(29), Err(TryFromPrimitiveError { number: 29 }));
}

#[test]
fn request_flags_numbers() {
    assert_eq!(i32::from(WdfRequestReuseFlags::SetNewIrp), 1);
    assert_eq!(i32::from(WdfRequestStopActionFlags::RequestCancelable), 268_435_456);
    assert_eq!(i32::from(WdfRequestSendOptionsFlags::ImpersonationIgnoreFailure), 131_072);
    assert_eq!(
        WdfRequestSendOptionsFlags::try_from(65_536),
        Ok(WdfRequestSendOptionsFlags::ImpersonateClient)
    );
    assert_eq!(WdfRequestReuseFlags::try_from(2), Err(TryFromPrimitiveError { number: 2 }));
}

#[test]
fn io_target_open_type_round_trips() {
    for (v, n) in [
        (WdfIoTargetOpenType::Undefined, 0),
        (WdfIoTargetOpenType::UseExistingDevice, 1),
        (WdfIoTargetOpenType::ByName, 2),
        (WdfIoTargetOpenType::Reopen, 3),
        (WdfIoTargetOpenType::LocalTargetByFile, 4),
        (WdfIoTargetOpenType::Unknown(42), 42),
    ] {
        assert_eq!(i32::from(v), n);
        assert_eq!(WdfIoTargetOpenType::from(n), v);
    }
    assert_eq!(
        WdfIoTargetOpenType::from(i32::from(WdfIoTargetOpenType::Unknown(2))),
        WdfIoTargetOpenType::ByName
    );
}
