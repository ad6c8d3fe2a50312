//! Interrupt control: the APLIC driver and inter-processor interrupts.

pub mod aplic;
pub mod ipi;
