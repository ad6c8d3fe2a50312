//! SLC (semantic logic core) registers and their encodings.

use vstd::prelude::*;
use crate::registers::access::{RegWrite, SLC_BASE};

verus! {

/// Atom A word 0 (bits 63:0).
pub const ATOM_A_WORD_0: usize = SLC_BASE;

/// Atom A word 1 (bits 127:64).
pub const ATOM_A_WORD_1: usize = SLC_BASE + 0x08;

/// Atom A word 2 (bits 191:128).
pub const ATOM_A_WORD_2: usize = SLC_BASE + 0x10;

/// Atom A word 3 (bits 255:192).
pub const ATOM_A_WORD_3: usize = SLC_BASE + 0x18;

/// Atom B word 0 (bits 63:0).
pub const ATOM_B_WORD_0: usize = SLC_BASE + 0x20;

/// Atom B word 1 (bits 127:64).
pub const ATOM_B_WORD_1: usize = SLC_BASE + 0x28;

/// Atom B word 2 (bits 191:128).
pub const ATOM_B_WORD_2: usize = SLC_BASE + 0x30;

/// Atom B word 3 (bits 255:192).
pub const ATOM_B_WORD_3: usize = SLC_BASE + 0x38;

/// Control and status register.
pub const CTRL_STAT: usize = SLC_BASE + 0x40;

/// Configuration register.
pub const CONFIG: usize = SLC_BASE + 0x44;

/// Interrupt enable register.
pub const INT_EN: usize = SLC_BASE + 0x48;

/// Interrupt status register.
pub const INT_STAT: usize = SLC_BASE + 0x4C;

/// Performance counter register.
pub const PERF_COUNT: usize = SLC_BASE + 0x50;

/// Version register.
pub const VERSION: usize = SLC_BASE + 0x54;

/// Control/status: start bit.
pub const CTRL_START: u32 = 0x01;

/// Control/status: busy bit.
pub const CTRL_BUSY: u32 = 0x02;

/// Control/status: match bit.
pub const CTRL_MATCH: u32 = 0x04;

/// Control/status: error bit.
pub const CTRL_ERROR: u32 = 0x08;

/// Control/status: completion bit.
pub const CTRL_COMPLETE: u32 = 0x10;

/// Control/status: timeout bit.
pub const CTRL_TIMEOUT: u32 = 0x20;

/// Configuration: compare mode.
pub const MODE_COMPARE: u32 = 0x0;

/// Configuration: query mode.
pub const MODE_QUERY: u32 = 0x1;

/// Configuration: link mode.
pub const MODE_LINK: u32 = 0x2;

/// Configuration: merge mode.
pub const MODE_MERGE: u32 = 0x3;

/// Configuration: low priority.
pub const PRIORITY_LOW: u32 = 0x0;

/// Configuration: normal priority.
pub const PRIORITY_NORMAL: u32 = 0x1;

/// Configuration: high priority.
pub const PRIORITY_HIGH: u32 = 0x2;

/// Configuration: critical priority.
pub const PRIORITY_CRITICAL: u32 = 0x3;

/// The four writes of an atom to the registers starting at `base`.
pub open spec fn atom_writes(base: usize, atom: Seq<u64>) -> Seq<RegWrite> {
    seq![
        RegWrite::Double { addr: base, value: atom[0] },
        RegWrite::Double { addr: (base + 0x08) as usize, value: atom[1] },
        RegWrite::Double { addr: (base + 0x10) as usize, value: atom[2] },
        RegWrite::Double { addr: (base + 0x18) as usize, value: atom[3] },
    ]
}

/// The write that starts an operation: the start bit in the control register.
pub open spec fn slc_start_write() -> RegWrite {
    RegWrite::Word { addr: CTRL_STAT, value: CTRL_START }
}

/// The write that clears every control/status bit.
pub open spec fn slc_reset_write() -> RegWrite {
    RegWrite::Word { addr: CTRL_STAT, value: 0 }
}

/// The write that configures compare mode at normal priority.
pub open spec fn slc_config_write() -> RegWrite {
    RegWrite::Word { addr: CONFIG, value: MODE_COMPARE | (PRIORITY_NORMAL << 4) }
}

/// Loads atom A: its four words, least significant first.
pub fn write_atom_a(atom: &[u64; 4]) -> (w: Vec<RegWrite>)
    ensures
        w@ == atom_writes(ATOM_A_WORD_0, atom@),
{
    let mut w: Vec<RegWrite> = Vec::new();
    w.push(RegWrite::Double { addr: ATOM_A_WORD_0, value: atom[0] });
    w.push(RegWrite::Double { addr: ATOM_A_WORD_1, value: atom[1] });
    w.push(RegWrite::Double { addr: ATOM_A_WORD_2, value: atom[2] });
    w.push(RegWrite::Double { addr: ATOM_A_WORD_3, value: atom[3] });
    assert(w@ =~= atom_writes(ATOM_A_WORD_0, atom@));
    w
}

/// Loads atom B: its four words, least significant first.
pub fn write_atom_b(atom: &[u64; 4]) -> (w: Vec<RegWrite>)
    ensures
        w@ == atom_writes(ATOM_B_WORD_0, atom@),
{
    let mut w: Vec<RegWrite> = Vec::new();
    w.push(RegWrite::Double { addr: ATOM_B_WORD_0, value: atom[0] });
    w.push(RegWrite::Double { addr: ATOM_B_WORD_1, value: atom[1] });
    w.push(RegWrite::Double { addr: ATOM_B_WORD_2, value: atom[2] });
    w.push(RegWrite::Double { addr: ATOM_B_WORD_3, value: atom[3] });
    assert(w@ =~= atom_writes(ATOM_B_WORD_0, atom@));
    w
}

/// Starts an operation: the start bit in the control register.
pub fn start_operation() -> (w: RegWrite)
    ensures
        w == slc_start_write(),
{
    RegWrite::Word { addr: CTRL_STAT, value: CTRL_START }
}

/// Clears every control/status bit.
pub fn reset() -> (w: RegWrite)
    ensures
        w == slc_reset_write(),
{
    RegWrite::Word { addr: CTRL_STAT, value: 0 }
}

/// The configuration word for compare mode at normal priority.
pub fn compare_config() -> (w: RegWrite)
    ensures
        w == slc_config_write(),
{
    RegWrite::Word { addr: CONFIG, value: MODE_COMPARE | (PRIORITY_NORMAL << 4) }
}

/// Whether a control/status value shows an operation in progress.
pub fn is_busy(ctrl_stat: u32) -> (b: bool)
    ensures
        b == (ctrl_stat & CTRL_BUSY != 0),
{
    ctrl_stat & CTRL_BUSY != 0
}

/// Whether a control/status value reports matching atoms.
pub fn get_match_result(ctrl_stat: u32) -> (b: bool)
    ensures
        b == (ctrl_stat & CTRL_MATCH != 0),
{
    ctrl_stat & CTRL_MATCH != 0
}

} // verus!
