//! APLIC register offsets and constants.

use vstd::prelude::*;
use crate::registers::access::APLIC_BASE;

verus! {

/// Domain configuration register.
pub const DOMAINCFG: usize = APLIC_BASE;

/// Source configuration registers (one word per source).
pub const SRCCFG: usize = APLIC_BASE + 0x0004;

/// Interrupt enable registers.
pub const IEN: usize = APLIC_BASE + 0x2000;

/// Set interrupt enable registers.
pub const IENS: usize = APLIC_BASE + 0x2080;

/// Clear interrupt enable registers.
pub const IENC: usize = APLIC_BASE + 0x2100;

/// Set pending registers.
pub const IP: usize = APLIC_BASE + 0x3000;

/// Target registers (one word per source).
pub const TARGET: usize = APLIC_BASE + 0x4000;

/// Identity registers (one word per hart).
pub const IDENTITY: usize = APLIC_BASE + 0x5000;

/// Claim registers (one word per hart).
pub const CLAIM: usize = APLIC_BASE + 0x6000;

/// Complete registers (one word per hart).
pub const COMPLETE: usize = APLIC_BASE + 0x6040;

/// Interrupt delivery enable registers (one word per hart).
pub const IDELIVERY: usize = APLIC_BASE + 0x7000;

/// Interrupt threshold registers (one word per hart).
pub const ITHRESHOLD: usize = APLIC_BASE + 0x7080;

/// Number of interrupt sources.
pub const NUM_SOURCES: usize = 511;

/// Number of harts.
pub const NUM_HARTS: usize = 4;

/// Highest priority level.
pub const MAX_PRIORITY: u32 = 31;

/// Delivery mode: inactive.
pub const DELIVERY_INACTIVE: u32 = 0;

/// Delivery mode: rising edge.
pub const DELIVERY_EDGE_RISING: u32 = 1;

/// Delivery mode: level high.
pub const DELIVERY_LEVEL_HIGH: u32 = 4;

/// Target mode: one specific hart.
pub const TARGET_MODE_SPECIFIC_HART: u32 = 0;

/// Target mode: all harts.
pub const TARGET_MODE_ALL_HARTS: u32 = 1;

/// The source configuration register of a source.
pub fn sourcecfg(source_id: usize) -> (addr: usize)
    requires
        SRCCFG + source_id * 4 <= usize::MAX,
    ensures
        addr == SRCCFG + source_id * 4,
{
    SRCCFG + source_id * 4
}

/// The target register of a source.
pub fn target(source_id: usize) -> (addr: usize)
    requires
        TARGET + source_id * 4 <= usize::MAX,
    ensures
        addr == TARGET + source_id * 4,
{
    TARGET + source_id * 4
}

/// The identity register of a hart.
pub fn identity(hart_id: usize) -> (addr: usize)
    requires
        IDENTITY + hart_id * 4 <= usize::MAX,
    ensures
        addr == IDENTITY + hart_id * 4,
{
    IDENTITY + hart_id * 4
}

/// The claim register of a hart.
pub fn claim(hart_id: usize) -> (addr: usize)
    requires
        CLAIM + hart_id * 4 <= usize::MAX,
    ensures
        addr == CLAIM + hart_id * 4,
{
    CLAIM + hart_id * 4
}

/// The complete register of a hart.
pub fn complete(hart_id: usize) -> (addr: usize)
    requires
        COMPLETE + hart_id * 4 <= usize::MAX,
    ensures
        addr == COMPLETE + hart_id * 4,
{
    COMPLETE + hart_id * 4
}

/// The delivery enable register of a hart.
pub fn idelivery(hart_id: usize) -> (addr: usize)
    requires
        IDELIVERY + hart_id * 4 <= usize::MAX,
    ensures
        addr == IDELIVERY + hart_id * 4,
{
    IDELIVERY + hart_id * 4
}

/// The threshold register of a hart.
pub fn ithreshold(hart_id: usize) -> (addr: usize)
    requires
        ITHRESHOLD + hart_id * 4 <= usize::MAX,
    ensures
        addr == ITHRESHOLD + hart_id * 4,
{
    ITHRESHOLD + hart_id * 4
}

} // verus!
