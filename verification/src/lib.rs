//! Register mapping for Windows/AArch64 unwind information.
//!
//! The unwinder describes saved registers by their hardware number within
//! a register class. This crate holds the register model that the mapping
//! reads (`reg`) and the AArch64 register mapper itself (`winaarch64`).

pub mod reg;
pub mod winaarch64;
