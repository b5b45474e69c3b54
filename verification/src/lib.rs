//! A verified client library for the Mantle graphics interface.
//!
//! The driver is an outside service: every call into it is made by the
//! program that uses this library. The library decides which calls are made
//! and with which descriptions, and keeps the objects that result. Each step
//! goes on only after its call succeeded: a call that fails stops the
//! program, and `check_result` tells the error that a failed call reports.
pub mod ffi;
pub mod error;
pub mod instance;
pub mod device;
pub mod command_buffer;
pub mod presentable_image;
pub mod buffer;
pub mod shader;
pub mod object;

pub use device::Device;
pub use instance::get_gpus;
