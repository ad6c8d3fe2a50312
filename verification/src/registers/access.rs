//! Register writes as values.

use vstd::prelude::*;

verus! {

/// Simulation mode: comparator operations are answered in software.
pub const IS_SIMULATION: bool = true;

/// CLINT (core local interruptor) base address.
pub const CLINT_BASE: usize = 0x0200_0000;

/// APLIC (advanced platform-level interrupt controller) base address.
pub const APLIC_BASE: usize = 0x0C00_0000;

/// UART0 base address.
pub const UART0_BASE: usize = 0x1000_0000;

/// PMC (power management controller) base address.
pub const PMC_BASE: usize = 0x0310_0000;

/// SLC (semantic logic core) base address.
pub const SLC_BASE: usize = 0x7000_0000;

/// HCA (hardware crypto accelerator) base address.
pub const HCA_BASE: usize = 0x051A_0000;

/// ITIM (instruction tightly integrated memory) base address.
pub const ITIM_BASE: usize = 0x0180_0000;

/// DLS (data local storage) base address.
pub const DLS_BASE: usize = 0x1800_0000;

/// One memory-mapped register write.
#[derive(Debug, Clone, Copy, PartialEq, Eq)]
pub enum RegWrite {
    Byte { addr: usize, value: u8 },
    Word { addr: usize, value: u32 },
    Double { addr: usize, value: u64 },
}

} // verus!
