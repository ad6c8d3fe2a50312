//! The semantic logic core (SLC) comparator, as seen by software.

use vstd::prelude::*;
use vstd::slice::SliceAdditionalExecFns;
use crate::semantic::atom::words_eq;
use crate::registers::access::RegWrite;
use crate::registers::slc::{
    self, atom_writes, slc_config_write, slc_reset_write, slc_start_write, ATOM_A_WORD_0, ATOM_B_WORD_0,
};

verus! {

/// Access to the semantic logic core operations.
pub struct Scie;

/// What the semantic logic core offers.
#[derive(Debug, Clone, Copy)]
pub struct ScieCapabilities {
    pub version: u32,
    pub supports_load: bool,
    pub supports_compare: bool,
    pub supports_query: bool,
    pub supports_batch: bool,
}

impl Scie {
    /// Compares two 256-bit atoms. The platform runs in simulation mode, in
    /// which the comparator's answer is the software comparison.
    pub fn compare_atoms(src: &[u64; 4], target: &[u64; 4]) -> (r: bool)
        ensures
            r == (src@ == target@),
    {
        words_eq(src, target)
    }

    /// Software comparison of two 256-bit atoms.
    pub fn compare_atoms_sw(src: &[u64; 4], target: &[u64; 4]) -> (r: bool)
        ensures
            r == (src@ == target@),
    {
        words_eq(src, target)
    }

    /// The capabilities implied by the version register: a non-zero version
    /// means the comparator is present.
    pub fn get_capabilities(version_register: u32) -> (c: ScieCapabilities)
        ensures
            c.version == (if version_register != 0 { 1u32 } else { 0u32 }),
            c.supports_load,
            c.supports_compare == (version_register != 0),
            !c.supports_query,
            c.supports_batch == (version_register != 0),
    {
        let slc_available = version_register != 0;
        ScieCapabilities {
            version: if slc_available { 1 } else { 0 },
            supports_load: true,
            supports_compare: slc_available,
            supports_query: false,
            supports_batch: slc_available,
        }
    }

    /// Initializes the comparator; in simulation mode it is always available.
    pub fn initialize_slc() -> (ok: bool)
        ensures
            ok,
    {
        true
    }

    /// Compares the first `count` pairs (at most as many as there are pairs
    /// and result slots), storing each answer in `results`.
    pub fn batch_compare(pairs: &[([u64; 4], [u64; 4])], results: &mut [bool], count: usize)
        ensures
            final(results)@.len() == old(results)@.len(),
            forall|i: int|
                0 <= i < old(results)@.len() ==> #[trigger] final(results)@[i] == if i < count
                    && i < pairs@.len() {
                    pairs@[i].0@ == pairs@[i].1@
                } else {
                    old(results)@[i]
                },
    {
        let mut n = count;
        if pairs.len() < n {
            n = pairs.len();
        }
        if results.len() < n {
            n = results.len();
        }
        let mut i: usize = 0;
        while i < n
            invariant
                i <= n,
                n <= pairs@.len(),
                n <= results@.len(),
                n <= count,
                n == count || n == pairs@.len() || n == old(results)@.len(),
                results@.len() == old(results)@.len(),
                forall|j: int|
                    0 <= j < results@.len() ==> #[trigger] results@[j] == if j < i {
                        pairs@[j].0@ == pairs@[j].1@
                    } else {
                        old(results)@[j]
                    },
            decreases n - i,
        {
            let r = Self::compare_atoms(&pairs[i].0, &pairs[i].1);
            results.set(i, r);
            i = i + 1;
        }
    }

    /// The register writes of one comparison on the comparator hardware:
    /// reset, atom A, atom B, then start. The answer is then read from the
    /// control/status register once it no longer shows busy.
    pub fn hardware_compare_writes(src: &[u64; 4], target: &[u64; 4]) -> (w: Vec<RegWrite>)
        ensures
            w@ == seq![slc_reset_write()] + atom_writes(ATOM_A_WORD_0, src@) + atom_writes(
                ATOM_B_WORD_0,
                target@,
            ) + seq![slc_start_write()],
    {
        let mut w: Vec<RegWrite> = Vec::new();
        w.push(slc::reset());
        let mut a = slc::write_atom_a(src);
        w.append(&mut a);
        let mut b = slc::write_atom_b(target);
        w.append(&mut b);
        w.push(slc::start_operation());
        w
    }

    /// Initialization of the comparator hardware from its version register:
    /// unavailable (nothing written) when the version is 0, otherwise reset
    /// then configure for comparison at normal priority.
    pub fn hardware_init_writes(version_register: u32) -> (w: Option<Vec<RegWrite>>)
        ensures
            match w {
                Some(v) => version_register != 0 && v@ == seq![slc_reset_write(), slc_config_write()],
                None => version_register == 0,
            },
    {
        if version_register == 0 {
            return None;
        }
        let mut v: Vec<RegWrite> = Vec::new();
        v.push(slc::reset());
        v.push(slc::compare_config());
        assert(v@ =~= seq![slc_reset_write(), slc_config_write()]);
        Some(v)
    }
}

} // verus!
