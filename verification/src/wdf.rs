//! The framework layer: handles, builders of framework descriptors, the
//! values the framework exchanges and the traits that relate them.

pub mod builders;
pub mod context;
pub mod descriptors;
pub mod handle;
pub mod ioctl;
pub mod operators;
pub mod values;
