//! Error taxonomy for a library that creates and drives virtual input devices
//! on a Unix-like kernel.
//!
//! Operations on a virtual device can fail at several independent layers:
//! kernel syscalls, validation of caller-supplied names, the device-discovery
//! layer, and generic I/O on the device's file. This crate unifies those
//! failures into one tagged [`error::Error`] value that preserves the original
//! cause and renders a human-readable message for each variant.

pub mod decimal;
pub mod error;
pub mod nul;

pub use decimal::decimal_string;
pub use error::Error;
pub use nul::NulError;
