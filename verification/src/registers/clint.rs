//! CLINT register offsets.

use vstd::prelude::*;
use crate::registers::access::CLINT_BASE;

verus! {

/// Machine software interrupt pending registers, one 32-bit word per hart.
pub const MSIP_BASE: usize = CLINT_BASE;

/// Machine timer compare registers.
pub const MTIMECMP: usize = CLINT_BASE + 0x4000;

/// Machine timer register.
pub const MTIME: usize = CLINT_BASE + 0xBFF8;

/// The MSIP register of a hart.
pub fn msip(hart_id: usize) -> (addr: usize)
    requires
        MSIP_BASE + hart_id * 4 <= usize::MAX,
    ensures
        addr == MSIP_BASE + hart_id * 4,
{
    MSIP_BASE + hart_id * 4
}

} // verus!
