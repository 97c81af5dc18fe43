//! Hardware register abstraction layer and boot/exception subsystem for a
//! multi-core ARM64 board, verified against an explicit model of the
//! device's register state.
//!
//! The crate covers: bit-field read/modify/write on cached register values
//! that never disturbs unrelated bits; the packed bit-vector register-array
//! scheme used when several narrow fields share consecutive words; the
//! per-core boot computation of disjoint stack regions; and the exception
//! vector-table layout, tag encoding and fatal-trap reporting path.
//!
//! Hardware itself is represented by explicit state values: [`bus::MemBus`]
//! models the memory-mapped peripheral words (reads return the last value
//! written or the initial one, i.e. a device that does not change between
//! accesses), and [`cpu::CpuState`] models the CPU system registers. A
//! runtime front end performs the actual volatile accesses and hands the
//! observed values to this library.

pub mod board;
pub mod boot;
pub mod bus;
pub mod cpu;
pub mod exception;
pub mod gpio;
pub mod mmio;
pub mod reg;
pub mod uart;
