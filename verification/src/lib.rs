//! Verified core of a binding layer for a native hardware-monitoring module.
//!
//! The native module is loaded at run time and exports a fixed set of entry
//! points. This crate holds everything about that arrangement that can be
//! decided without touching the operating system: which entry points are
//! required and in what order they are bound, when construction of the
//! entry-point table succeeds, how a raw sensor value is decoded, how a report
//! line is laid out, what the companion-file check reports, and how a
//! monitoring run proceeds from one phase to the next.
//!
//! Foreign calls, file probes and floating-point formatting are left to the
//! caller, who hands their outcomes to the functions here as plain values.

pub mod decimal;
pub mod entry_point;
pub mod loader;
pub mod preflight;
pub mod reading;
pub mod sensor;
pub mod session;

pub use entry_point::{EntryPoint, Signature};
pub use loader::{HardwareTemp, LoadError, Resolved};
pub use preflight::check_required_dlls;
pub use reading::{classify, display_rpm_value, display_temp_value, Reading};
pub use sensor::{Quantity, Sensor};
pub use session::{Phase, Progress, Session};
