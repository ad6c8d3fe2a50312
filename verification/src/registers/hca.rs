//! HCA (hardware crypto accelerator) register offsets.

use vstd::prelude::*;
use crate::registers::access::HCA_BASE;

verus! {

/// TRNG control register (bit 0: enable, bit 1: start oscillator).
pub const TRNG_CTRL: usize = HCA_BASE;

/// TRNG FIFO data register.
pub const TRNG_FIFO: usize = HCA_BASE + 0x0004;

/// TRNG status register (bit 0: data ready, bit 1: oscillator stable).
pub const TRNG_STATUS: usize = HCA_BASE + 0x0008;

/// AES control register.
pub const AES_CTRL: usize = HCA_BASE + 0x0100;

/// AES key registers (eight words from here).
pub const AES_KEY_0: usize = HCA_BASE + 0x0104;

/// AES data input registers (four words from here).
pub const AES_DIN_0: usize = HCA_BASE + 0x0124;

/// AES data output registers (four words from here).
pub const AES_DOUT_0: usize = HCA_BASE + 0x0134;

/// AES initialization vector registers (four words from here).
pub const AES_IV_0: usize = HCA_BASE + 0x0144;

} // verus!
