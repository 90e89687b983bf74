//! The runtime that the library runs on: a pure-Rust model of the WDF
//! bindings (`wdk_sys`), plus the helpers that the framework uses for
//! parsing, status conversion and log formatting.

pub mod generators;
pub mod logging;
pub mod utils;
pub mod wdk_sys;
