//! The start-up self tests of the semantic engine: comparator agreement and
//! a small predicate search.

use vstd::prelude::*;
use vstd::wrapping::u64_specs;
use crate::semantic::atom::{SemanticAtom, SemanticTriple};
use crate::semantic::scie::Scie;
use crate::semantic::store::TripleStore;
use crate::semantic::navigator::{count_matches, find_by_predicate, is_match};

verus! {

/// Number of triples the navigator self test creates.
pub const VERIFICATION_TRIPLES: usize = 300;

/// The predicate the navigator self test searches for.
pub open spec fn verification_target_words() -> Seq<u64> {
    seq![0x1234567890ABCDEFu64, 0xFEDCBA0987654321u64, 0x1122334455667788u64, 0x99AABBCCDDEEFF00u64]
}

/// The target predicate atom of the self tests.
pub fn verification_target() -> (a: SemanticAtom)
    ensures
        a.data@ == verification_target_words(),
{
    let a = SemanticAtom::new([0x1234567890ABCDEF, 0xFEDCBA0987654321, 0x1122334455667788, 0x99AABBCCDDEEFF00]);
    assert(a.data@ =~= verification_target_words());
    a
}

/// The pseudo-random words derived from a seed: the seed, the seed times
/// `0x9e3779b9`, and that product plus `0xdeadbeef` and plus `0xcafebabe`,
/// all wrapping.
pub open spec fn mixed_words(seed: u64) -> Seq<u64> {
    let m = u64_specs::wrapping_mul(seed, 0x9e3779b9);
    seq![seed, m, u64_specs::wrapping_add(m, 0xdeadbeef), u64_specs::wrapping_add(m, 0xcafebabe)]
}

fn mixed_atom(seed: u64) -> (a: SemanticAtom)
    ensures
        a.data@ == mixed_words(seed),
{
    let m = seed.wrapping_mul(0x9e3779b9);
    let a = SemanticAtom::new([seed, m, m.wrapping_add(0xdeadbeef), m.wrapping_add(0xcafebabe)]);
    assert(a.data@ =~= mixed_words(seed));
    a
}

/// Whether triple `i` of the self test carries the target predicate (every
/// sixtieth one).
pub open spec fn carries_target(i: int) -> bool {
    i % 60 == 0
}

/// Triple `i` of the navigator self test: subject from seed
/// `0x12345678 + i`, object from `0x87654321 + i`, and the target predicate
/// on every sixtieth triple, else a predicate from `0xABCDEF00 + i`.
pub open spec fn verification_triple_matches(t: SemanticTriple, i: int) -> bool {
    &&& t.subject.data@ == mixed_words((0x12345678 + i) as u64)
    &&& t.object.data@ == mixed_words((0x87654321 + i) as u64)
    &&& t.predicate.data@ == if carries_target(i) {
        verification_target_words()
    } else {
        mixed_words((0xABCDEF00 + i) as u64)
    }
}

/// The navigator self test: builds the store of `VERIFICATION_TRIPLES`
/// triples, five of them (every sixtieth) with the target predicate, and
/// searches it for the target across the worker harts. Returns the store and
/// the number of matches the search reports, which is five.
pub fn perform_navigator_verification() -> (out: (TripleStore, usize))
    ensures
        out.0.triples().len() == VERIFICATION_TRIPLES,
        forall|i: int|
            0 <= i < VERIFICATION_TRIPLES ==> verification_triple_matches(
                #[trigger] out.0.triples()[i],
                i,
            ),
        forall|t: SemanticAtom|
            t.data@ == verification_target_words() ==> #[trigger] count_matches(
                out.0.triples(),
                t,
                0,
                VERIFICATION_TRIPLES as int,
            ) == 5,
        out.1 == 5,
{
    let target_predicate = verification_target();
    let mut store = TripleStore::new();
    let mut i: u64 = 0;
    while i < 300
        invariant
            i <= 300,
            store.triples().len() == i,
            target_predicate.data@ == verification_target_words(),
            forall|j: int| 0 <= j < i ==> verification_triple_matches(#[trigger] store.triples()[j], j),
        decreases 300 - i,
    {
        let subject = mixed_atom(0x12345678 + i);
        let object = mixed_atom(0x87654321 + i);
        let predicate = if i % 60 == 0 {
            target_predicate
        } else {
            mixed_atom(0xABCDEF00 + i)
        };
        let added = store.add_triple(SemanticTriple::new(subject, predicate, object));
        assert(added);
        i = i + 1;
    }
    let found = find_by_predicate(&target_predicate, &store);
    proof {
        assert forall|t: SemanticAtom| t.data@ == verification_target_words() implies #[trigger] count_matches(
            store.triples(),
            t,
            0,
            VERIFICATION_TRIPLES as int,
        ) == 5 by {
            law_verification_store_has_five_matches(store.triples(), t);
        }
    }
    (store, found)
}

/// Compares equal and different atoms with the comparator and in software;
/// succeeds when both agree and decide correctly.
pub fn perform_slc_verification() -> (success: bool)
    ensures
        success,
{
    let atom_a = SemanticAtom::new([0x1234567890ABCDEF, 0xFEDCBA0987654321, 0x1122334455667788, 0x99AABBCCDDEEFF00]);
    let atom_b = SemanticAtom::new([0x1234567890ABCDEF, 0xFEDCBA0987654321, 0x1122334455667788, 0x99AABBCCDDEEFF00]);
    let atom_c = SemanticAtom::new([0x1111111111111111, 0x2222222222222222, 0x3333333333333333, 0x4444444444444444]);
    let sw_result_equal = SemanticAtom::compare_sw(&atom_a, &atom_b);
    let hw_result_equal = Scie::compare_atoms(&atom_a.data, &atom_b.data);
    let sw_result_diff = SemanticAtom::compare_sw(&atom_a, &atom_c);
    let hw_result_diff = Scie::compare_atoms(&atom_a.data, &atom_c.data);
    assert(atom_a.data@ =~= atom_b.data@);
    assert(atom_a.data@[0] != atom_c.data@[0]);
    (sw_result_equal == hw_result_equal) && (sw_result_diff == hw_result_diff) && sw_result_equal
        && !sw_result_diff
}

proof fn lemma_verification_prefix_count(triples: Seq<SemanticTriple>, target: SemanticAtom, n: int)
    requires
        0 <= n <= VERIFICATION_TRIPLES,
        triples.len() == VERIFICATION_TRIPLES,
        target.data@ == verification_target_words(),
        forall|i: int| 0 <= i < VERIFICATION_TRIPLES ==> verification_triple_matches(#[trigger] triples[i], i),
    ensures
        count_matches(triples, target, 0, n) == (n + 59) / 60,
    decreases n,
{
    if n > 0 {
        lemma_verification_prefix_count(triples, target, n - 1);
        let t = triples[n - 1];
        assert(verification_triple_matches(t, n - 1));
        if !carries_target(n - 1) {
            assert(t.predicate.data@[0] == (0xABCDEF00 + (n - 1)) as u64);
            assert(t.predicate.data@[0] != target.data@[0]);
            assert(!is_match(t, target));
        } else {
            assert(is_match(t, target));
        }
    }
}

/// The self-test store holds exactly five triples with the target
/// predicate, so a search for it finds five matches.
pub proof fn law_verification_store_has_five_matches(store_triples: Seq<SemanticTriple>, target: SemanticAtom)
    requires
        store_triples.len() == VERIFICATION_TRIPLES,
        target.data@ == verification_target_words(),
        forall|i: int| 0 <= i < VERIFICATION_TRIPLES ==> verification_triple_matches(#[trigger] store_triples[i], i),
    ensures
        count_matches(store_triples, target, 0, VERIFICATION_TRIPLES as int) == 5,
{
    lemma_verification_prefix_count(store_triples, target, VERIFICATION_TRIPLES as int);
}

} // verus!
