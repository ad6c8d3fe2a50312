//! Inter-processor interrupts through the CLINT MSIP registers.

use vstd::prelude::*;
use crate::registers::access::RegWrite;
use crate::registers::clint::{MSIP_BASE, msip};

verus! {

/// Number of harts that can receive an IPI.
pub const IPI_HARTS: usize = 4;

/// Raises the software interrupt of a hart (0 to 3).
pub fn send_ipi(target_hart: usize) -> (w: RegWrite)
    requires
        target_hart < IPI_HARTS,
    ensures
        w == (RegWrite::Word { addr: (MSIP_BASE + target_hart * 4) as usize, value: 1 }),
{
    RegWrite::Word { addr: msip(target_hart), value: 1 }
}

/// Clears the software interrupt of a hart.
pub fn clear_msi(hart_id: usize) -> (w: RegWrite)
    requires
        MSIP_BASE + hart_id * 4 <= usize::MAX,
    ensures
        w == (RegWrite::Word { addr: (MSIP_BASE + hart_id * 4) as usize, value: 0 }),
{
    RegWrite::Word { addr: msip(hart_id), value: 0 }
}

/// Whether an MSIP register value shows a pending software interrupt.
pub fn is_msi_pending(msip_value: u32) -> (b: bool)
    ensures
        b == (msip_value != 0),
{
    msip_value != 0
}

} // verus!
