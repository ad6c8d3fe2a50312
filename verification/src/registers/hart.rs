//! Hardware threads.

use vstd::prelude::*;

verus! {

/// Number of harts.
pub const HART_COUNT: usize = 4;

/// Stack size per hart in bytes (128 KiB).
pub const STACK_SIZE: usize = 0x2_0000;

/// Hart 0, the orchestrator.
pub const HART0: usize = 0;

/// Hart 1.
pub const HART1: usize = 1;

/// Hart 2.
pub const HART2: usize = 2;

/// Hart 3.
pub const HART3: usize = 3;

} // verus!
