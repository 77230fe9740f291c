//! Decoding of the HID reports that USB postal scales emit, and the
//! per-model rules that turn a decoded report into kilograms, pounds or a
//! force. The transport itself is the caller's: every function here works on
//! the outcome of a read that the caller has already made, and on the bytes
//! that the read brought.

pub mod error;
pub mod reading;
pub mod decoder;
pub mod transport;
pub mod dymo;

pub use error::HidScaleError;
pub use reading::{DymoUnit, ForceReading, ForceUnit, Magnitude, Quantity};
