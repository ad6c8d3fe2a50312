//! Base addresses, register offsets and register-level encodings of the
//! OMWEI Equinibrium SoC peripherals.
//!
//! Register accesses are described as values: a driver here decides which
//! register gets which value, and the platform layer performs the write.

pub mod access;
pub mod clint;
pub mod aplic;
pub mod slc;
pub mod hca;
pub mod memory;
pub mod hart;
pub mod uart0;
