//! The decisions of the multi-hart kernel: trap dispatch, external
//! interrupt handling, the secondary harts' search task and the start-up
//! reports. The kernel loop itself performs the register accesses.

use vstd::prelude::*;
use crate::semantic::atom::SemanticAtom;
use crate::semantic::selftest::{mixed_words, VERIFICATION_TRIPLES};
use crate::semantic::store::{first_atom_match, SemanticTable, TargetAtom, TripleStore};
use crate::text::{decimal_spec, push_decimal};
use vstd::wrapping::u32_specs;

verus! {

/// Machine software interrupt cause code (an IPI).
pub const CAUSE_SOFTWARE_INTERRUPT: usize = 3;

/// Machine external interrupt cause code (the APLIC).
pub const CAUSE_EXTERNAL_INTERRUPT: usize = 11;

/// The interrupt source that the demonstration routes to hart 3.
pub const DEMO_INTERRUPT_SOURCE: u32 = 10;

/// Number of atoms the start-up fills the semantic table with.
pub const DEMO_ATOMS: usize = 10;

/// What the trap handler does for a trap cause.
#[derive(Debug, Clone, Copy, PartialEq, Eq)]
pub enum TrapAction {
    /// A software interrupt: the hart's main loop picks it up.
    SoftwareInterrupt,
    /// An external interrupt: claim, handle and complete it.
    ExternalInterrupt,
    /// Another interrupt: ignored.
    Ignore,
    /// An exception: fatal, with its code.
    Fatal { code: usize },
}

/// Dispatches a trap by its `mcause` interrupt flag and code.
pub fn classify_trap(is_interrupt: bool, code: usize) -> (a: TrapAction)
    ensures
        a == if !is_interrupt {
            TrapAction::Fatal { code }
        } else if code == CAUSE_SOFTWARE_INTERRUPT {
            TrapAction::SoftwareInterrupt
        } else if code == CAUSE_EXTERNAL_INTERRUPT {
            TrapAction::ExternalInterrupt
        } else {
            TrapAction::Ignore
        },
{
    if !is_interrupt {
        TrapAction::Fatal { code }
    } else if code == CAUSE_SOFTWARE_INTERRUPT {
        TrapAction::SoftwareInterrupt
    } else if code == CAUSE_EXTERNAL_INTERRUPT {
        TrapAction::ExternalInterrupt
    } else {
        TrapAction::Ignore
    }
}

/// `Unhandled exception: <code>`.
pub open spec fn fatal_message_text(code: usize) -> Seq<char> {
    "Unhandled exception: "@ + decimal_spec(code as nat)
}

/// The panic message of an unhandled exception.
pub fn fatal_message(code: usize) -> (s: String)
    ensures
        s@ == fatal_message_text(code),
{
    let mut s = String::from_str("Unhandled exception: ");
    push_decimal(&mut s, code as u64);
    s
}

/// What to do with the identifier read from the claim register.
#[derive(Debug, Clone, Copy, PartialEq, Eq)]
pub enum ClaimAction {
    /// Nothing was pending.
    Nothing,
    /// The demonstration source: count it, then complete it.
    CountAndComplete,
    /// Another source: complete it.
    Complete,
}

/// Decides on a claimed interrupt identifier.
pub fn on_claimed_interrupt(interrupt_id: u32) -> (a: ClaimAction)
    ensures
        a == if interrupt_id == 0 {
            ClaimAction::Nothing
        } else if interrupt_id == DEMO_INTERRUPT_SOURCE {
            ClaimAction::CountAndComplete
        } else {
            ClaimAction::Complete
        },
{
    if interrupt_id == 0 {
        ClaimAction::Nothing
    } else if interrupt_id == DEMO_INTERRUPT_SOURCE {
        ClaimAction::CountAndComplete
    } else {
        ClaimAction::Complete
    }
}

/// Whether a hart takes part in the semantic search (harts 1 to 3).
pub fn is_search_hart(hart_id: usize) -> (b: bool)
    ensures
        b == (1 <= hart_id <= 3),
{
    1 <= hart_id && hart_id <= 3
}

/// A secondary hart's search task: looks the target up in the table and,
/// when found, reports the index in the hart's slot and marks the target as
/// found by this hart; otherwise changes nothing.
pub fn perform_semantic_search(
    hart_id: usize,
    table: &SemanticTable,
    target: &mut TargetAtom,
    results: &mut [Option<usize>; 3],
) -> (found: Option<usize>)
    requires
        1 <= hart_id <= 3,
    ensures
        match first_atom_match(table.atoms(), old(target).spec_atom()) {
            Some(k) => {
                &&& found == Some(k as usize)
                &&& final(results)@ == old(results)@.update(hart_id - 1, Some(k as usize))
                &&& final(target).spec_found()
                &&& final(target).spec_found_by() == Some(hart_id)
            },
            None => {
                &&& found is None
                &&& final(results)@ == old(results)@
                &&& *final(target) == *old(target)
            },
        },
        final(target).spec_atom() == old(target).spec_atom(),
{
    let atom: SemanticAtom = *target.atom();
    let r = table.search(&atom);
    match r {
        Some(index) => {
            results[hart_id - 1] = Some(index);
            target.mark_found(hart_id);
        },
        None => {},
    }
    r
}

/// The value a hart derives from its random number: the number times
/// `hart_id + 1`, wrapping.
pub fn processed_value(random: u32, hart_id: usize) -> (v: u32)
    requires
        hart_id < 4,
    ensures
        v == u32_specs::wrapping_mul(random, (hart_id + 1) as u32),
{
    let factor: u32 = hart_id as u32 + 1;
    random.wrapping_mul(factor)
}

/// The table the start-up fills: ten atoms from seeds `0x12345678 + i`.
pub fn demo_semantic_table() -> (t: SemanticTable)
    ensures
        t.atoms().len() == DEMO_ATOMS,
        forall|i: int| 0 <= i < DEMO_ATOMS ==> (#[trigger] t.atoms()[i]).data@ == mixed_words(
            (0x12345678 + i) as u64,
        ),
{
    let mut table = SemanticTable::new();
    let mut i: u64 = 0;
    while i < 10
        invariant
            i <= 10,
            table.atoms().len() == i,
            forall|j: int| 0 <= j < i ==> (#[trigger] table.atoms()[j]).data@ == mixed_words(
                (0x12345678 + j) as u64,
            ),
        decreases 10 - i,
    {
        let seed: u64 = 0x12345678 + i;
        let m = seed.wrapping_mul(0x9e3779b9);
        let atom = SemanticAtom::new([seed, m, m.wrapping_add(0xdeadbeef), m.wrapping_add(0xcafebabe)]);
        assert(atom.data@ =~= mixed_words(seed));
        let added = table.add_atom(atom);
        assert(added);
        i = i + 1;
    }
    table
}

/// The numbers handed to the harts for the IPI demonstration:
/// `0x87654321 + i` for hart `i`.
pub fn demo_random_numbers() -> (n: [u32; 4])
    ensures
        n@ == seq![0x87654321u32, 0x87654322u32, 0x87654323u32, 0x87654324u32],
{
    let mut n = [0u32; 4];
    let mut i: usize = 0;
    while i < 4
        invariant
            i <= 4,
            n@.len() == 4,
            forall|j: int| 0 <= j < i ==> n@[j] == 0x87654321 + j,
        decreases 4 - i,
    {
        n[i] = 0x87654321 + i as u32;
        i = i + 1;
    }
    assert(n@ =~= seq![0x87654321u32, 0x87654322u32, 0x87654323u32, 0x87654324u32]);
    n
}

/// The result line of the navigator self test for a store of `count`
/// triples: success for the full self-test store, otherwise the count.
pub open spec fn verification_report_text(count: nat) -> Seq<char> {
    "Verification: "@ + if count == VERIFICATION_TRIPLES {
        "SUCCESS - 300 triples created\n"@
    } else {
        "PARTIAL - "@ + decimal_spec(count) + " triples created\n"@
    }
}

/// Reports how many triples the navigator self test created.
pub fn navigator_verification_report(store: &TripleStore) -> (s: String)
    ensures
        s@ == verification_report_text(store.triples().len()),
{
    let count = store.len();
    let mut s = String::from_str("Verification: ");
    if count == VERIFICATION_TRIPLES {
        s.append("SUCCESS - 300 triples created\n");
    } else {
        s.append("PARTIAL - ");
        push_decimal(&mut s, count as u64);
        s.append(" triples created\n");
    }
    s
}

} // verus!
