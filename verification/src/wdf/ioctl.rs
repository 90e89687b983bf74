//! IOCTL requests and the buffers that carry their data.
pub mod commands;

use vstd::prelude::*;

use crate::descriptors::operations::{self, describes_value_of};
use crate::op::{AsBuilder, AsBuilderMut};
use crate::rt::wdk_sys::WDF_MEMORY_DESCRIPTOR;
use commands::IoCtlCommand;

verus! {

/// A buffer that holds the data of an IOCTL: its input, or the response
/// that the target fills in.
pub struct IoBuffer<T: Default>(T);

impl<T: Default> View for IoBuffer<T> {
    type V = T;

    closed spec fn view(&self) -> T {
        self.0
    }
}

impl<T: Default> IoBuffer<T> {
    /// A buffer that holds `data`.
    pub fn new(data: T) -> (r: Self)
        ensures
            r@ == data,
    {
        Self(data)
    }

    /// The data that the buffer holds.
    pub fn into_inner(self) -> (r: T)
        ensures
            r == self@,
    {
        self.0
    }
}

impl<T: Default> AsRef<T> for IoBuffer<T> {
    fn as_ref(&self) -> (r: &T)
        ensures
            *r == self@,
    {
        &self.0
    }
}

impl<T: Default> AsMut<T> for IoBuffer<T> {
    fn as_mut(&mut self) -> (r: &mut T)
        ensures
            *r == old(self)@,
            final(self)@ == *final(r),
    {
        &mut self.0
    }
}

impl<T: Default> AsBuilder for IoBuffer<T> {
    type Descriptor = WDF_MEMORY_DESCRIPTOR;

    #[inline]
    fn build(&self) -> (r: WDF_MEMORY_DESCRIPTOR)
        ensures
            describes_value_of::<T>(r),
    {
        operations::build_for_data_type(&self.0)
    }
}

impl<T: Default> Default for IoBuffer<T> {
    /// A buffer that holds `T`'s default value.
    fn default() -> (r: Self)
        ensures
            call_ensures(T::default, (), r@),
    {
        Self(T::default())
    }
}

impl<T: Default> AsBuilderMut for IoBuffer<T> {
    #[inline]
    fn build_mut(&mut self) -> (r: WDF_MEMORY_DESCRIPTOR)
        ensures
            describes_value_of::<T>(r),
            final(self)@ == old(self)@,
    {
        operations::build_for_data_type(&self.0)
    }
}

impl<T: Default> core::ops::Deref for IoBuffer<T> {
    type Target = T;

    fn deref(&self) -> (r: &T)
        ensures
            *r == self@,
    {
        &self.0
    }
}

/// An IOCTL request: a command, and the data that goes with it.
pub struct IoCtlRequest<T>(IoCtlCommand, T);

impl<T> IoCtlRequest<Option<T>> {
    /// The command that the request carries.
    pub closed spec fn spec_command(&self) -> IoCtlCommand {
        self.0
    }

    /// The data that goes with the command, if any.
    pub closed spec fn spec_payload(&self) -> Option<T> {
        self.1
    }

    /// A request of `command` with the data `request`.
    pub fn new(command: IoCtlCommand, request: T) -> (r: Self)
        ensures
            r.spec_command() == command,
            r.spec_payload() == Some(request),
    {
        Self(command, Some(request))
    }

    /// A request of `command` with no data.
    pub fn with_command(command: IoCtlCommand) -> (r: Self)
        ensures
            r.spec_command() == command,
            r.spec_payload() is None,
    {
        Self(command, None)
    }

    /// The command that the request carries.
    pub fn command(&self) -> (r: IoCtlCommand)
        ensures
            r == self.spec_command(),
    {
        self.0
    }
}

impl<T> AsRef<Option<T>> for IoCtlRequest<Option<T>> {
    fn as_ref(&self) -> (r: &Option<T>)
        ensures
            *r == self.spec_payload(),
    {
        &self.1
    }
}

impl<T> AsBuilder for IoCtlRequest<Option<T>> {
    type Descriptor = Option<WDF_MEMORY_DESCRIPTOR>;

    /// A descriptor of the request's data, or none when it has none.
    fn build(&self) -> (r: Option<WDF_MEMORY_DESCRIPTOR>)
        ensures
            r is Some <==> self.spec_payload() is Some,
            r matches Some(desc) ==> describes_value_of::<T>(desc),
    {
        match &self.1 {
            Some(data) => Some(operations::build_for_data_type(data)),
            None => None,
        }
    }
}

} // verus!
