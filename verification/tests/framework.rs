use swdk::bd::{
    size_of_as_ulong, WdfDevicePnpPowerSetup, WdfDriverConf, WdfFileObjectConfig,
    WdfIoQueueConfig, WdfObjAttrs, WdfRequestSendOption,
};
use swdk::ctx::{WdfCtxNoneDesc, WdfCtxNull};
use swdk::descriptors::operations::length_fits;
use swdk::handle::{creation_outcome, ioctl_send_outcome, ioctl_target_ready};
use swdk::ioctl::commands::IOCTL_HID_GET_COLLECTION_INFORMATION;
use swdk::ioctl::{IoBuffer, IoCtlRequest};
use swdk::op::{AsBuilder, AsBuilderMut, AsCtxDescriptor, AsUnique};
use swdk::rt::wdk_sys::{
    _WDF_MEMORY_DESCRIPTOR_TYPE, Addr, STATUS_INTERNAL_ERROR, STATUS_INVALID_PARAMETER,
    WDFDEVICE_INIT, WDFREQUEST__, WDF_IO_QUEUE_CONFIG, WDF_MEMORY_DESCRIPTOR,
    WDF_OBJECT_ATTRIBUTES, WDF_PNPPOWER_EVENT_CALLBACKS,
};
use swdk::vals::{
    WdfExecutionLevel, WdfFileObjClass, WdfIoTargetError, WdfIoTargetState,
    WdfRequestSendOptionsFlags, WdfSyncScope,
};
use swdk::Handle;

#[test]
fn descriptor_sizes_are_the_struct_sizes() {
    let attrs = WdfObjAttrs::<WdfCtxNoneDesc>::default().build();
    assert_eq!(attrs.Size as usize, core::mem::size_of::<WDF_OBJECT_ATTRIBUTES>());
    let queue = WdfIoQueueConfig::default().build();
    assert_eq!(queue.Size as usize, core::mem::size_of::<WDF_IO_QUEUE_CONFIG>());
    assert_eq!(size_of_as_ulong::<u64>(), 8);
}

#[test]
fn obj_attrs_setters_change_one_field() {
    let attrs = WdfObjAttrs::<WdfCtxNoneDesc>::default()
        .with_sync_scope(WdfSyncScope::Queue)
        .with_execution_level(WdfExecutionLevel::Passive);
    let desc = attrs.build();
    assert_eq!(desc.SynchronizationScope, 3);
    assert_eq!(desc.ExecutionLevel, 2);
    assert!(desc.ParentObject.is_null());
    assert!(desc.EvtCleanupCallback.is_none());

    let default = WdfObjAttrs::<WdfCtxNoneDesc>::default().build();
    assert_eq!(default.SynchronizationScope, 4);
    assert_eq!(default.ExecutionLevel, 1);
}

#[test]
fn obj_attrs_parent_is_passed_on() {
    let mut attrs = WdfObjAttrs::<WdfCtxNoneDesc>::default();
    attrs.parent_obj = Some(Addr(0x4000));
    assert_eq!(attrs.build().ParentObject, Addr(0x4000));
}

#[test]
fn driver_conf_from_registry_path() {
    let mut conf = WdfDriverConf::from_registry_path(Addr(0x10));
    assert_eq!(conf.registry_path, Addr(0x10));
    conf.setup.pool_tag = 0x6b64_7773;
    conf.setup.on_device_add = Some(Addr(0x20));
    let desc = conf.build();
    assert_eq!(desc.DriverPoolTag, 0x6b64_7773);
    assert_eq!(desc.EvtDriverDeviceAdd, Some(Addr(0x20)));
    assert!(desc.EvtDriverUnload.is_none());
    assert_eq!(desc.DriverInitFlags, 0);
}

#[test]
fn pnp_setup_maps_each_callback() {
    let setup = WdfDevicePnpPowerSetup {
        on_device_d0_entry: Some(Addr(1)),
        on_device_query_stop: Some(Addr(2)),
        on_device_usage_notification_ex: Some(Addr(3)),
        ..Default::default()
    };
    let desc = setup.build();
    assert_eq!(desc.Size as usize, core::mem::size_of::<WDF_PNPPOWER_EVENT_CALLBACKS>());
    assert_eq!(desc.EvtDeviceD0Entry, Some(Addr(1)));
    assert_eq!(desc.EvtDeviceQueryStop, Some(Addr(2)));
    assert_eq!(desc.EvtDeviceUsageNotificationEx, Some(Addr(3)));
    assert!(desc.EvtDeviceD0Exit.is_none());
    assert!(desc.EvtDeviceRelationsQuery.is_none());
}

#[test]
fn io_queue_config_defaults() {
    let desc = WdfIoQueueConfig::default().build();
    assert_eq!(desc.DispatchType, 1);
    assert_eq!(desc.PowerManaged, 2);
    assert_eq!(desc.DefaultQueue, 0);
    assert!(desc.EvtIoRead.is_none());
    assert!(desc.Driver.is_null());
}

#[test]
fn request_send_options() {
    let desc = WdfRequestSendOption::default().build();
    assert_eq!(desc.Flags, 2);
    assert_eq!(desc.Timeout, 0);
    let options = WdfRequestSendOption { flags: WdfRequestSendOptionsFlags::Timeout, timeout: u64::MAX };
    let desc = options.build();
    assert_eq!(desc.Flags, 1);
    assert_eq!(desc.Timeout, -1);
}

#[test]
fn file_object_config_defaults() {
    let desc = WdfFileObjectConfig::default().build();
    assert_eq!(desc.FileObjectClass, i32::from(WdfFileObjClass::CanBeOptional));
    assert_eq!(desc.AutoForwardCleanupClose, 0);
    assert!(desc.EvtDeviceFileCreate.is_none());
}

#[test]
fn none_context_has_no_descriptor() {
    assert_eq!(WdfCtxNoneDesc::descriptor(), None);
    assert_eq!(WdfCtxNoneDesc::wdf_type_name(), None);
    assert!(WdfCtxNull.unique().is_null());
}

#[test]
fn io_buffer_wraps_and_describes_its_value() {
    let mut buffer = IoBuffer::new(0xABCDu16);
    assert_eq!(*buffer, 0xABCD);
    let desc = buffer.build();
    assert_eq!(desc.Type, _WDF_MEMORY_DESCRIPTOR_TYPE::WdfMemoryDescriptorTypeBuffer);
    assert_eq!(desc.u.BufferType.Length, 2);
    let desc_mut = buffer.build_mut();
    assert_eq!(desc_mut.u.BufferType.Buffer, desc.u.BufferType.Buffer);
    *buffer.as_mut() = 7;
    assert_eq!(buffer.into_inner(), 7);
    assert_eq!(IoBuffer::<u64>::default().into_inner(), 0);
}

#[test]
fn ioctl_request_carries_command_and_payload() {
    let request = IoCtlRequest::new(IOCTL_HID_GET_COLLECTION_INFORMATION, 5u32);
    assert_eq!(request.command(), 0x000B_01A8);
    assert_eq!(request.as_ref(), &Some(5));
    let desc = request.build().unwrap();
    assert_eq!(desc.u.BufferType.Length, 4);

    let empty = IoCtlRequest::<Option<u32>>::with_command(7);
    assert_eq!(empty.command(), 7);
    assert!(empty.build().is_none());
}

#[test]
fn descriptor_length_check() {
    let buffer = IoBuffer::new(1u32);
    let desc = buffer.build();
    assert!(length_fits::<u32>(&desc));
    assert!(!length_fits::<u64>(&desc));
    assert!(!length_fits::<u32>(&WDF_MEMORY_DESCRIPTOR::default()));
}

#[test]
fn memory_descriptor_default_is_empty() {
    let desc = WDF_MEMORY_DESCRIPTOR::default();
    assert_eq!(desc.Type, _WDF_MEMORY_DESCRIPTOR_TYPE::WdfMemoryDescriptorTypeInvalid);
    assert!(desc.u.BufferType.Buffer.is_null());
    assert_eq!(desc.u.BufferType.Length, 0);
}

#[test]
fn creation_outcome_cases() {
    assert_eq!(creation_outcome(0, Addr(0x80), STATUS_INTERNAL_ERROR), Ok(Addr(0x80)));
    assert_eq!(creation_outcome(0, Addr(0), STATUS_INTERNAL_ERROR), Err(STATUS_INTERNAL_ERROR));
    assert_eq!(creation_outcome(1, Addr(0), STATUS_INVALID_PARAMETER), Err(STATUS_INVALID_PARAMETER));
    assert_eq!(creation_outcome(-5, Addr(0x80), STATUS_INTERNAL_ERROR), Err(-5));
}

#[test]
fn ioctl_target_ready_cases() {
    assert!(ioctl_target_ready(Some(WdfIoTargetState::Started)).is_ok());
    assert!(matches!(
        ioctl_target_ready(None),
        Err(WdfIoTargetError::DeviceHasNoIoTarget)
    ));
    assert!(matches!(
        ioctl_target_ready(Some(WdfIoTargetState::Stopped)),
        Err(WdfIoTargetError::IllegalState(WdfIoTargetState::Stopped))
    ));
    assert!(matches!(
        ioctl_target_ready(Some(WdfIoTargetState::Unknown(77))),
        Err(WdfIoTargetError::IllegalState(WdfIoTargetState::Unknown(77)))
    ));
}

#[test]
fn ioctl_send_outcome_cases() {
    let ok = ioctl_send_outcome(9, Ok(()), 4, vec![], IoBuffer::new(11u32));
    assert_eq!(ok.unwrap().into_inner(), 11);

    match ioctl_send_outcome(9, Err(-3), 4, vec![1, 2], IoBuffer::new(11u32)) {
        Err(WdfIoTargetError::IoCtlTargetSendError(info)) => {
            assert_eq!(info.command, 9);
            assert_eq!(info.ntstatus, -3);
            assert_eq!(info.request, vec![1, 2]);
            assert_eq!(info.byte_returned, 4);
        }
        _ => panic!("unexpected outcome"),
    }
    let _ = WdfIoTargetError::InvalidIoDescriptor;
}

#[test]
fn device_init_and_request_operations_keep_the_handle() {
    let init = WDFDEVICE_INIT::default();
    let h = Handle::new(&init);
    let h = h.with_filter().unwrap();
    let h = h.with_pnp_setup(WdfDevicePnpPowerSetup::default()).unwrap();
    assert!(h.with_file_object(WdfFileObjectConfig::default(), None).is_ok());

    let request = WDFREQUEST__::default();
    let mut r = Handle::new(&request);
    assert!(r.format_using_current_type().is_ok());
    assert!(r.complete(0).is_some());
}
