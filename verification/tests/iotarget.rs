use swdk::ioctl::commands::IOCTL_HID_GET_PREPARSED_DATA;
use swdk::ioctl::IoBuffer;
use swdk::rt::wdk_sys::{Addr, WDFIOTARGET__};
use swdk::vals::WdfIoTargetState;
use swdk::bd::WdfRequestSendOption;
use swdk::Handle;

#[derive(Default, Clone, Copy, Debug, PartialEq)]
struct EchoResponse {
    value: u32,
}

#[test]
fn read_status_returns_started() {
    let object = WDFIOTARGET__::default();
    let target = Handle::<WDFIOTARGET__>::new(&object);

    assert_eq!(target.read_status(), Some(WdfIoTargetState::Started));
}

#[test]
fn iotarget_state_conversion_started() {
    let raw = i32::from(WdfIoTargetState::Started);

    assert_eq!(WdfIoTargetState::from(raw), WdfIoTargetState::Started);
}

#[test]
fn iotarget_state_conversion_closed() {
    let raw = i32::from(WdfIoTargetState::Closed);

    assert_eq!(WdfIoTargetState::from(raw), WdfIoTargetState::Closed);
}

#[test]
fn iotarget_unknown_state_is_preserved() {
    assert_eq!(WdfIoTargetState::from(999), WdfIoTargetState::Unknown(999));
}

#[test]
fn send_ioctl_sync_on_started_target_returns_default_response() {
    let object = WDFIOTARGET__::default();
    let target = Handle::<WDFIOTARGET__>::new(&object);

    let input = IoBuffer::new(EchoResponse { value: 5 });
    let response = target
        .send_ioctl_sync::<EchoResponse>(IOCTL_HID_GET_PREPARSED_DATA, Some(input))
        .unwrap();
    assert_eq!(response.into_inner(), EchoResponse::default());

    let response = target.send_ioctl_sync::<EchoResponse>(IOCTL_HID_GET_PREPARSED_DATA, None);
    assert_eq!(response.unwrap().into_inner().value, 0);
}

#[test]
fn send_wdf_is_accepted() {
    let object = WDFIOTARGET__::default();
    let target = Handle::<WDFIOTARGET__>::new(&object);

    assert_eq!(target.send_wdf(Addr(0x1000), WdfRequestSendOption::default()), Some(()));
}
