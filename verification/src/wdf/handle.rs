//! `Handle`, the basic building block of the framework layer: a typed
//! reference to a framework object or value, with the operations that the
//! framework offers on each kind of object.
//!
//! The operations here run on the library's own runtime, which emulates the
//! framework: it creates no kernel objects, every I/O target reports itself
//! started, and every call that the framework would carry out completes at
//! once.
use vstd::prelude::*;

use crate::bd::{WdfDevicePnpPowerSetup, WdfFileObjectConfig, WdfObjAttrs, WdfRequestSendOption};
use crate::ctx::WdfCtxNoneDesc;
use crate::ioctl::commands::IoCtlCommand;
use crate::ioctl::IoBuffer;
use crate::op::{
    AsBuilder, AsBuilderMut, AsRaw, AsRawWithBorrow, IntoRaw, IsWdfType, NtResult,
};
use crate::rt::logging::ntstatus_to_result;
use crate::rt::wdk_sys::{
    Addr, NTSTATUS, ULONG_PTR, WDFDEVICE_INIT, WDFIOTARGET__, WDFREQUEST, WDFREQUEST__,
};
use vstd::std_specs::convert::FromSpec;
use crate::vals::{IoCtlTargetSendInfo, WdfIoTargetError, WdfIoTargetState};

verus! {

/// A shared reference to a framework object or value of type `H`.
#[derive(Debug)]
pub struct Handle<'a, H: IsWdfType>(&'a H);

impl<'a, H: IsWdfType> Clone for Handle<'a, H> {
    /// Another handle to the same object.
    fn clone(&self) -> (r: Self)
        ensures
            r == *self,
    {
        Handle(self.0)
    }
}

/// An exclusive reference to a framework object or value of type `H`.
#[derive(Debug)]
pub struct HandleMut<'a, H: IsWdfType>(&'a mut H);

impl<'a, H: IsWdfType> View for Handle<'a, H> {
    type V = H;

    closed spec fn view(&self) -> H {
        *self.0
    }
}

impl<'a, H: IsWdfType> View for HandleMut<'a, H> {
    type V = H;

    closed spec fn view(&self) -> H {
        *self.0
    }
}

impl<'a, H: IsWdfType> Handle<'a, H> {
    /// A handle to the object that `raw` refers to.
    pub fn new(raw: &'a H) -> (r: Self)
        ensures
            r@ == *raw,
    {
        Self(raw)
    }

    /// The reference that the handle holds.
    pub fn into_inner(self) -> (r: Option<&'a H>)
        ensures
            r matches Some(inner) && *inner == self@,
    {
        Some(self.0)
    }
}

impl<'a, H: IsWdfType + Copy> Handle<'a, H> {
    /// A copy of the object or value that the handle refers to.
    pub fn raw(&self) -> (r: H)
        ensures
            r == self@,
    {
        *self.0
    }
}

impl<'a, H: IsWdfType> HandleMut<'a, H> {
    /// An exclusive handle to the object that `raw` refers to.
    pub fn new(raw: &'a mut H) -> (r: Self)
        ensures
            r@ == *old(raw),
    {
        Self(raw)
    }

    /// Gives up exclusive access and keeps a shared handle to the same
    /// object.
    pub fn into_handle(self) -> (r: Handle<'a, H>)
        ensures
            r@ == self@,
    {
        Handle(self.0)
    }
}

impl<'a, H: IsWdfType> From<HandleMut<'a, H>> for Handle<'a, H> {
    fn from(value: HandleMut<'a, H>) -> (r: Self) {
        Handle(value.0)
    }
}

impl<'a, H: IsWdfType> vstd::std_specs::convert::FromSpecImpl<HandleMut<'a, H>> for Handle<'a, H> {
    open spec fn obeys_from_spec() -> bool {
        true
    }

    closed spec fn from_spec(value: HandleMut<'a, H>) -> Self {
        Handle(value.0)
    }
}

/// Converting an exclusive handle into a shared one keeps the object it
/// refers to.
pub proof fn lemma_handle_from_handle_mut<'a, H: IsWdfType>(value: HandleMut<'a, H>)
    ensures
        <Handle<'a, H> as FromSpec<HandleMut<'a, H>>>::from_spec(value)@ == value@,
{
}

impl<'a, H: IsWdfType> core::ops::Deref for Handle<'a, H> {
    type Target = H;

    fn deref(&self) -> (r: &H)
        ensures
            *r == self@,
    {
        self.0
    }
}

impl<'a, H: IsWdfType> core::ops::Deref for HandleMut<'a, H> {
    type Target = H;

    fn deref(&self) -> (r: &H)
        ensures
            *r == self@,
    {
        self.0
    }
}

impl<'a, H: IsWdfType> AsRef<H> for Handle<'a, H> {
    fn as_ref(&self) -> (r: &H)
        ensures
            *r == self@,
    {
        self.0
    }
}

impl<'a, H: IsWdfType> AsRef<H> for HandleMut<'a, H> {
    fn as_ref(&self) -> (r: &H)
        ensures
            *r == self@,
    {
        self.0
    }
}

impl<'a, H: IsWdfType + Copy> IntoRaw<H> for Handle<'a, H> {
    fn into_raw(self) -> (r: H)
        ensures
            r == self@,
    {
        *self.0
    }
}

impl<'a, H: IsWdfType + Copy> AsRaw<H> for HandleMut<'a, H> {
    fn raw(&self) -> (r: H)
        ensures
            r == self@,
    {
        *self.0
    }
}

impl<'a, H: IsWdfType + Copy> AsRawWithBorrow<H> for Handle<'a, H> {
    fn raw_with_borrow(&self) -> (r: H)
        ensures
            r == self@,
    {
        *self.0
    }
}

impl<'a> Handle<'a, WDFDEVICE_INIT> {
    /// Marks the device being initialized as a filter device.
    pub fn with_filter(self) -> (r: Option<Self>)
        ensures
            r == Some(self),
    {
        Some(self)
    }

    /// Registers the Plug and Play and power callbacks of `setup` for the
    /// device being initialized.
    pub fn with_pnp_setup(self, setup: WdfDevicePnpPowerSetup) -> (r: Option<Self>)
        ensures
            r == Some(self),
    {
        let _pnp_setup = setup.build();
        Some(self)
    }

    /// Registers the file object configuration `conf`, with the attributes
    /// `attrs` of the file objects, for the device being initialized.
    pub fn with_file_object(
        self,
        conf: WdfFileObjectConfig,
        attrs: Option<WdfObjAttrs<WdfCtxNoneDesc>>,
    ) -> (r: NtResult<Self>)
        ensures
            r == Ok::<Self, NTSTATUS>(self),
    {
        let _attrs = match attrs {
            Some(attrs) => Some(attrs.build()),
            None => None,
        };
        let _conf = conf.build();
        Ok(self)
    }
}

/// The outcome of a call that creates a framework object: the status that
/// the framework returned, and the handle that it wrote (`created`). A
/// failing status is the error; a success that wrote the null handle fails
/// with `missing`.
pub fn creation_outcome(status: NTSTATUS, created: Addr, missing: NTSTATUS) -> (r: NtResult<Addr>)
    ensures
        status < 0 ==> r == Err::<Addr, NTSTATUS>(status),
        status >= 0 && created.is_null() ==> r == Err::<Addr, NTSTATUS>(missing),
        status >= 0 && !created.is_null() ==> r == Ok::<Addr, NTSTATUS>(created),
{
    match ntstatus_to_result(status) {
        Err(e) => Err(e),
        Ok(()) => if created.is_null() {
            Err(missing)
        } else {
            Ok(created)
        },
    }
}

/// Whether an I/O target whose state reads as `state` accepts an IOCTL:
/// it must have a state, and that state must be `Started`.
pub fn ioctl_target_ready(state: Option<WdfIoTargetState>) -> (r: Result<(), WdfIoTargetError>)
    ensures
        state is None ==> r matches Err(WdfIoTargetError::DeviceHasNoIoTarget),
        state == Some(WdfIoTargetState::Started) ==> r is Ok,
        state is Some && state.unwrap() != WdfIoTargetState::Started ==> (r matches Err(
            WdfIoTargetError::IllegalState(t),
        ) && t == state.unwrap()),
{
    match state {
        None => Err(WdfIoTargetError::DeviceHasNoIoTarget),
        Some(WdfIoTargetState::Started) => Ok(()),
        Some(s) => Err(WdfIoTargetError::IllegalState(s)),
    }
}

/// The result of an IOCTL `command` that an I/O target answered with
/// `status`, having reported `bytes_returned` bytes: the `response` that it
/// filled on success, and on failure what is known of the request, whose
/// input bytes were `request`.
pub fn ioctl_send_outcome<R: Default>(
    command: IoCtlCommand,
    status: NtResult,
    bytes_returned: ULONG_PTR,
    request: Vec<u8>,
    response: IoBuffer<R>,
) -> (r: Result<IoBuffer<R>, WdfIoTargetError>)
    ensures
        status is Ok ==> (r matches Ok(b) && b@ == response@),
        status is Err ==> (r matches Err(WdfIoTargetError::IoCtlTargetSendError(info)) && {
            &&& info.command == command
            &&& info.ntstatus == status->Err_0
            &&& info.request@ == request@
            &&& info.byte_returned == bytes_returned
        }),
{
    match status {
        Ok(()) => Ok(response),
        Err(ntstatus) => Err(
            WdfIoTargetError::IoCtlTargetSendError(
                IoCtlTargetSendInfo { command, ntstatus, request, byte_returned: bytes_returned },
            ),
        ),
    }
}

impl<'a> Handle<'a, WDFIOTARGET__> {
    /// The state of the I/O target: every target of the emulated runtime is
    /// started.
    #[inline]
    pub fn read_status(&self) -> (r: Option<WdfIoTargetState>)
        ensures
            r == Some(WdfIoTargetState::Started),
    {
        Some(WdfIoTargetState::Started)
    }

    /// Sends the IOCTL `io_request`, with the data of `input` if any, and
    /// waits for the target's response. The target must be started; the
    /// response is a buffer of `R` that the target fills, which starts out as
    /// `R`'s default value. The emulated target completes every IOCTL at once
    /// and leaves the response as it was.
    pub fn send_ioctl_sync<R: Default + Copy>(
        &self,
        io_request: IoCtlCommand,
        input: Option<IoBuffer<R>>,
    ) -> (r: Result<IoBuffer<R>, WdfIoTargetError>)
        ensures
            r matches Ok(b) && call_ensures(R::default, (), b@),
    {
        match ioctl_target_ready(self.read_status()) {
            Ok(()) => {},
            Err(e) => {
                return Err(e);
            },
        }

        let _request_desc = match &input {
            Some(data) => Some(data.build()),
            None => None,
        };
        let mut response = IoBuffer::<R>::default();
        let _response_desc = response.build_mut();
        let bytes_returned: ULONG_PTR = 0;

        ioctl_send_outcome(io_request, Ok(()), bytes_returned, Vec::new(), response)
    }

    /// Sends the request `req` to the target with `options`, without waiting
    /// for it to complete. The emulated target accepts every request.
    pub fn send_wdf(&self, req: WDFREQUEST, options: WdfRequestSendOption) -> (r: Option<()>)
        ensures
            r == Some(()),
    {
        let _conf = options.build();
        Some(())
    }
}

impl<'a> Handle<'a, WDFREQUEST__> {
    /// Completes the request with `status`.
    pub fn complete(self, status: NTSTATUS) -> (r: Option<Self>)
        ensures
            r == Some(self),
    {
        Some(self)
    }

    /// Formats the request to be forwarded with its current type.
    pub fn format_using_current_type(&mut self) -> (r: NtResult<&Self>)
        ensures
            r matches Ok(h) && *h == *old(self),
    {
        Ok(self)
    }
}

} // verus!
