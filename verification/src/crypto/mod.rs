//! Drivers for the hardware crypto accelerator.

pub mod trng;
