use swdk::vals::WdfIoTargetState;

#[test]
fn iotarget_state_state_conversion_started() {
    let raw = i32::from(WdfIoTargetState::Started);

    assert_eq!(WdfIoTargetState::from(raw), WdfIoTargetState::Started);
}

#[test]
fn iotarget_state_state_conversion_closed() {
    let raw = i32::from(WdfIoTargetState::Closed);

    assert_eq!(WdfIoTargetState::from(raw), WdfIoTargetState::Closed);
}

#[test]
fn iotarget_state_unknown_state_is_preserved() {
    assert_eq!(WdfIoTargetState::from(999), WdfIoTargetState::Unknown(999));
}

#[test]
fn io_target_state_numbers_match_the_framework() {
    assert_eq!(i32::from(WdfIoTargetState::Started), 1);
    assert_eq!(i32::from(WdfIoTargetState::Stopped), 2);
    assert_eq!(i32::from(WdfIoTargetState::ClosedForQueryRemove), 3);
    assert_eq!(i32::from(WdfIoTargetState::Closed), 4);
    assert_eq!(i32::from(WdfIoTargetState::Deleted), 5);
    assert_eq!(i32::from(WdfIoTargetState::Purged), 6);
    assert_eq!(i32::from(WdfIoTargetState::Unknown(-7)), -7);
}

#[test]
fn unknown_state_holding_a_known_number_reads_back_as_that_state() {
    let raw = i32::from(WdfIoTargetState::Unknown(1));

    assert_eq!(WdfIoTargetState::from(raw), WdfIoTargetState::Started);
    assert_eq!(WdfIoTargetState::from(0), WdfIoTargetState::Unknown(0));
}
