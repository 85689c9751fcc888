//! Probing of the model-specific register space of one logical CPU.
//!
//! The device that exposes the registers is driven by the caller: it opens the
//! per-CPU resource, positions it at a register's address and reads eight bytes,
//! and hands what happened to this library as a [`DeviceRead`]. The library decides
//! what each outcome means (a value, an unreadable register, or a fatal error) and
//! keeps the ordered report of a range scan.
use vstd::prelude::*;

pub mod probe;
pub mod scan;

pub use probe::{probe, DeviceRead, Msr, ProbeError};
pub use scan::{CpuMsr, RangeScan, ScanView};
