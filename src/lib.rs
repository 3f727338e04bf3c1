//! Boot-time memory inventory and the process model of a small kernel.
//!
//! `memory` turns the firmware's memory map into a bounded snapshot of usable
//! RAM; `process` holds the process control block and its lifecycle.

pub mod memory;
pub mod process;
