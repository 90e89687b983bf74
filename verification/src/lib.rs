//! A Rust layer over the Windows Driver Framework: handles to framework
//! objects, builders of framework descriptors, and the runtime they run on.
#![allow(non_camel_case_types, non_snake_case, non_upper_case_globals)]

pub mod rt;
mod wdf;

pub use crate::wdf::builders as bd;
pub use crate::wdf::context as ctx;
pub use crate::wdf::descriptors;
pub use crate::wdf::handle;
pub use crate::wdf::handle::{Handle, HandleMut};
pub use crate::wdf::ioctl;
pub use crate::wdf::operators as op;
pub use crate::wdf::values as vals;
