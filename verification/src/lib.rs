//! Driver for a dual-channel, 12-bit digital-to-analog converter.
//!
//! The driver is written against a model of the memory-mapped registers it
//! programs. Every register access is a read-modify-write described by a
//! plain value, so the accesses whose effect is proved on the model are the
//! very ones that are issued to the device.
//!
//! - `registers`: the register layout, read-modify-write accesses, and the
//!   register model.
//! - `gpio`: tokens for the pins the converter can drive.
//! - `dac`: pin bindings, bring-up, value writes, and the handles.

pub mod dac;
pub mod gpio;
pub mod registers;
