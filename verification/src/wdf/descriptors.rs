//! Typed buffers that describe themselves to the framework.
pub mod operations;

use vstd::prelude::*;

use crate::op::{AsBuilder, AsBuilderMut};
use crate::rt::wdk_sys::WDF_MEMORY_DESCRIPTOR;
use operations::describes_value_of;

verus! {

/// A value of type `T` that can describe its own buffer to the framework.
#[derive(Debug)]
pub struct Describe<T>(T);

impl<T> View for Describe<T> {
    type V = T;

    closed spec fn view(&self) -> T {
        self.0
    }
}

impl<T> Describe<T> {
    /// Wraps `data`.
    pub fn new(data: T) -> (r: Self)
        ensures
            r@ == data,
    {
        Self(data)
    }

    /// The wrapped value.
    pub fn into_inner(self) -> (r: T)
        ensures
            r == self@,
    {
        self.0
    }
}

impl<T: Default> Default for Describe<T> {
    /// Wraps `T`'s default value.
    fn default() -> (r: Self)
        ensures
            call_ensures(T::default, (), r@),
    {
        Self(T::default())
    }
}

impl<T> AsRef<T> for Describe<T> {
    fn as_ref(&self) -> (r: &T)
        ensures
            *r == self@,
    {
        &self.0
    }
}

impl<T> AsMut<T> for Describe<T> {
    fn as_mut(&mut self) -> (r: &mut T)
        ensures
            *r == old(self)@,
            final(self)@ == *final(r),
    {
        &mut self.0
    }
}

impl<T> core::ops::Deref for Describe<T> {
    type Target = T;

    fn deref(&self) -> (r: &T)
        ensures
            *r == self@,
    {
        &self.0
    }
}

impl<T> AsBuilder for Describe<T> {
    type Descriptor = WDF_MEMORY_DESCRIPTOR;

    #[inline]
    fn build(&self) -> (r: WDF_MEMORY_DESCRIPTOR)
        ensures
            describes_value_of::<T>(r),
    {
        operations::build_for_data_type(&self.0)
    }
}

impl<T> AsBuilderMut for Describe<T> {
    #[inline]
    fn build_mut(&mut self) -> (r: WDF_MEMORY_DESCRIPTOR)
        ensures
            describes_value_of::<T>(r),
            final(self)@ == old(self)@,
    {
        operations::build_for_data_type(&self.0)
    }
}

} // verus!
