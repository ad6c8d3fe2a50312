//! Memory regions.

use vstd::prelude::*;

verus! {

/// FLASH (peripheral port) base address.
pub const FLASH_BASE: usize = 0x2000_0000;

/// RAM (128-bit memory port) base address.
pub const RAM_BASE: usize = 0x8000_0000;

/// FLASH size in bytes (512 MiB).
pub const FLASH_SIZE: usize = 0x2000_0000;

/// RAM size in bytes (512 MiB).
pub const RAM_SIZE: usize = 0x2000_0000;

/// ITIM size in bytes (16 KiB).
pub const ITIM_SIZE: usize = 0x4000;

/// DLS size in bytes (64 KiB).
pub const DLS_SIZE: usize = 0x1_0000;

} // verus!
