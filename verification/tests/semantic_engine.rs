use omwei::registers::access::RegWrite;
use omwei::semantic::atom::{words_eq, SemanticAtom, SemanticTriple};
use omwei::semantic::navigator::{find_by_predicate, SemanticNavigator, MAX_RESULTS, WORKER_HARTS};
use omwei::semantic::scie::Scie;
use omwei::semantic::selftest::{
    perform_navigator_verification, perform_slc_verification, verification_target,
    VERIFICATION_TRIPLES,
};
use omwei::semantic::store::{
    SearchResult, SemanticTable, TargetAtom, TripleStore, WorkAssignment, MAX_ATOMS, MAX_TRIPLES,
};

fn atom(seed: u64) -> SemanticAtom {
    SemanticAtom::from_seed(seed)
}

#[test]
fn from_seed_expands_words() {
    let a = SemanticAtom::from_seed(1);
    assert_eq!(
        a.data,
        [0x1, 0x5d8fc1269c2f61ce, 0x7510865457b3b39f, 0x10939bc82699a5c4]
    );
    let z = SemanticAtom::from_seed(0);
    assert_eq!(
        z.data,
        [0x0, 0xbf58476d1ce4e5b9, 0x95cc5931896b59e6, 0xb0493ee478baad97]
    );
    assert_eq!(a.as_u64(), 1);
    assert_eq!(z.as_u256(), z.data);
}

#[test]
fn display_prints_words_most_significant_first() {
    let a = SemanticAtom::from_seed(42);
    assert_eq!(
        a.to_display_string(),
        "Atom(7c7c7c3eff4f64f936fbc0e7614a1240b4723fdbff1d412b000000000000002a)"
    );
    let d = SemanticAtom::default();
    assert_eq!(
        d.to_display_string(),
        "Atom(0000000000000000000000000000000000000000000000000000000000000000)"
    );
}

#[test]
fn zero_and_valid_atoms() {
    let d = SemanticAtom::default();
    assert!(d.is_zero());
    assert!(!d.is_valid());
    let a = SemanticAtom::new([0, 0, 0, 9]);
    assert!(!a.is_zero());
    assert!(a.is_valid());
    assert_eq!(SemanticAtom::from_random([5, 6, 7, 8]).data, [5, 6, 7, 8]);
}

#[test]
fn comparisons_agree() {
    let a = atom(7);
    let b = atom(7);
    let c = SemanticAtom::new([7, 0, 0, 0]);
    assert!(SemanticAtom::compare_sw(&a, &b));
    assert!(SemanticAtom::compare_scie(&a, &b));
    assert!(SemanticAtom::compare(&a, &b));
    assert!(!SemanticAtom::compare_sw(&a, &c));
    assert!(!SemanticAtom::compare_scie(&a, &c));
    assert!(!SemanticAtom::compare(&a, &c));
    assert!(words_eq(&a.data, &b.data));
    assert!(!words_eq(&a.data, &[7, 0, 0, 1]));
    assert!(Scie::compare_atoms(&a.data, &b.data));
    assert!(!Scie::compare_atoms_sw(&a.data, &c.data));
}

#[test]
fn triple_accessors() {
    let t = SemanticTriple::new(atom(1), atom(2), atom(3));
    assert_eq!(t.subject().data, atom(1).data);
    assert_eq!(t.predicate().data, atom(2).data);
    assert_eq!(t.object().data, atom(3).data);
    assert!(t.predicate_matches(&atom(2)));
    assert!(!t.predicate_matches(&atom(3)));
    let d = SemanticTriple::default();
    assert!(d.subject.is_zero() && d.predicate.is_zero() && d.object.is_zero());
}

#[test]
fn table_add_get_and_search() {
    let mut table = SemanticTable::new();
    assert!(table.is_empty());
    assert!(!table.is_full());
    assert!(table.add_atom(atom(10)));
    assert!(table.add_atom(atom(11)));
    assert!(table.add_atom(atom(10)));
    assert_eq!(table.len(), 3);
    assert_eq!(table.get_atom(1).map(|a| a.data), Some(atom(11).data));
    assert!(table.get_atom(3).is_none());
    assert_eq!(table.search(&atom(10)), Some(0));
    assert_eq!(table.search_sw(&atom(11)), Some(1));
    assert_eq!(table.search_scie(&atom(11)), Some(1));
    assert_eq!(table.search(&atom(12)), None);
    table.clear();
    assert!(table.is_empty());
    assert_eq!(table.search(&atom(10)), None);
}

#[test]
fn table_refuses_atoms_when_full() {
    let mut table = SemanticTable::default();
    for i in 0..MAX_ATOMS {
        assert!(table.add_atom(atom(i as u64)));
    }
    assert!(table.is_full());
    assert!(!table.add_atom(atom(5000)));
    assert_eq!(table.len(), MAX_ATOMS);
}

#[test]
fn batch_search_fills_only_the_shorter_length() {
    let mut table = SemanticTable::new();
    table.add_atom(atom(1));
    table.add_atom(atom(2));
    let targets = [atom(2), atom(9), atom(1)];
    let mut results = [Some(77usize); 2];
    table.batch_search(&targets, &mut results);
    assert_eq!(results, [Some(1), None]);
    let mut more = [Some(5usize); 4];
    table.batch_search(&targets, &mut more);
    assert_eq!(more, [Some(1), None, Some(0), Some(5)]);
}

#[test]
fn triple_store_range_and_capacity() {
    let mut store = TripleStore::new();
    for i in 0..5u64 {
        assert!(store.add_triple(SemanticTriple::new(atom(i), atom(100 + i), atom(200 + i))));
    }
    assert_eq!(store.len(), 5);
    let r = store.get_range(1, 3);
    assert_eq!(r.len(), 2);
    assert_eq!(r[0].object.data, atom(201).data);
    assert_eq!(r[1].object.data, atom(202).data);
    assert_eq!(store.get_range(3, 3).len(), 0);
    assert_eq!(store.get_range(4, 6).len(), 0);
    assert_eq!(store.get_range(6, 8).len(), 0);
    assert!(store.get_triple(5).is_none());
    let copy = store.clone();
    assert_eq!(copy.len(), 5);
    store.clear();
    assert!(store.is_empty());

    let mut full = TripleStore::default();
    for i in 0..MAX_TRIPLES {
        assert!(full.add_triple(SemanticTriple::new(atom(i as u64), atom(1), atom(2))));
    }
    assert!(full.is_full());
    assert!(!full.add_triple(SemanticTriple::default()));
}

#[test]
fn work_assignment_size_and_validity() {
    let w = WorkAssignment::new(3, 10, atom(1), 2);
    assert_eq!(w.work_size(), 7);
    assert!(w.is_valid());
    assert!(!WorkAssignment::new(3, 3, atom(1), 2).is_valid());
    assert!(!WorkAssignment::new(0, 3, atom(1), 4).is_valid());
    assert!(!WorkAssignment::default().is_valid());
    let r = SearchResult::new(atom(4), 3, 17);
    assert_eq!((r.found_by, r.triple_index), (3, 17));
    assert_eq!(SearchResult::default().triple_index, 0);
}

#[test]
fn target_atom_found_and_reset() {
    let mut t = TargetAtom::new(atom(3));
    assert!(!t.is_found());
    assert_eq!(t.found_by(), None);
    t.mark_found(2);
    assert!(t.is_found());
    assert_eq!(t.found_by(), Some(2));
    assert_eq!(t.atom().data, atom(3).data);
    t.reset();
    assert!(!t.is_found());
    assert_eq!(t.found_by(), None);
}

#[test]
fn plan_work_splits_twenty_triples() {
    let plan = SemanticNavigator::plan_work(20, &atom(1));
    let ranges: Vec<(usize, usize, usize)> =
        plan.iter().map(|a| (a.start_index, a.end_index, a.hart_id)).collect();
    assert_eq!(ranges, vec![(0, 7, 1), (7, 14, 2), (14, 20, 3)]);
    assert_eq!(WORKER_HARTS, 3);
}

#[test]
fn plan_work_skips_empty_shares() {
    let plan = SemanticNavigator::plan_work(2, &atom(1));
    let ranges: Vec<(usize, usize, usize)> =
        plan.iter().map(|a| (a.start_index, a.end_index, a.hart_id)).collect();
    assert_eq!(ranges, vec![(0, 1, 1), (1, 2, 2)]);
    assert!(SemanticNavigator::plan_work(0, &atom(1)).is_empty());
}

#[test]
fn self_test_store_has_five_matches() {
    let (store, found) = perform_navigator_verification();
    assert_eq!(store.len(), VERIFICATION_TRIPLES);
    assert_eq!(VERIFICATION_TRIPLES, 300);
    assert_eq!(found, 5);
    let target = verification_target();
    assert_eq!(find_by_predicate(&target, &store), 5);
    assert!(perform_slc_verification());
}

#[test]
fn orchestrator_records_matches_in_index_order() {
    let (store, _) = perform_navigator_verification();
    let target = verification_target();
    let mut nav = SemanticNavigator::new();
    assert_eq!(nav.orchestrator_search(&target, &store), 5);
    assert_eq!(nav.match_count(), 5);
    let found: Vec<(usize, usize)> =
        nav.get_results().iter().map(|r| (r.triple_index, r.found_by)).collect();
    assert_eq!(found, vec![(0, 1), (60, 1), (120, 2), (180, 2), (240, 3)]);
    nav.clear_results();
    assert_eq!(nav.match_count(), 0);
    assert!(MAX_RESULTS >= 5);
}

#[test]
fn search_over_three_hundred_triples_every_sixtieth() {
    let target = atom(0xAAAA);
    let mut store = TripleStore::new();
    for i in 0..300u64 {
        let predicate = if i % 60 == 0 { target } else { atom(0x5000 + i) };
        assert!(store.add_triple(SemanticTriple::new(atom(i), predicate, atom(1000 + i))));
    }
    assert_eq!(find_by_predicate(&target, &store), 5);
    assert_eq!(find_by_predicate(&atom(0xBBBB), &store), 0);
}

#[test]
fn search_range_and_worker_search() {
    let (store, _) = perform_navigator_verification();
    let target = verification_target();
    let mut nav = SemanticNavigator::default();
    assert_eq!(nav.search_range(&store, &target, 0, 10, 1), 1);
    assert_eq!(nav.search_range(&store, &target, 10, 25, 2), 0);
    assert_eq!(nav.search_range(&store, &target, 250, 301, 2), 0);
    assert_eq!(nav.search_range(&store, &target, 5, 5, 2), 0);
    assert_eq!(nav.match_count(), 1);
    let w = WorkAssignment::new(10, 130, target, 2);
    assert_eq!(nav.worker_search(&w, &store), 2);
    assert_eq!(nav.match_count(), 3);
    assert_eq!(nav.harts_completed(), 1);
    let invalid = WorkAssignment::new(10, 10, target, 2);
    assert_eq!(nav.worker_search(&invalid, &store), 0);
}

#[test]
fn empty_store_finds_nothing() {
    let store = TripleStore::new();
    assert_eq!(find_by_predicate(&atom(1), &store), 0);
}

#[test]
fn capabilities_follow_version_register() {
    let c = Scie::get_capabilities(0x0001_0000);
    assert_eq!(c.version, 1);
    assert!(c.supports_load && c.supports_compare && c.supports_batch && !c.supports_query);
    let n = Scie::get_capabilities(0);
    assert_eq!(n.version, 0);
    assert!(n.supports_load && !n.supports_compare && !n.supports_batch);
    assert!(Scie::initialize_slc());
}

#[test]
fn batch_compare_writes_requested_slots() {
    let pairs = [([1u64, 2, 3, 4], [1u64, 2, 3, 4]), ([1u64, 2, 3, 4], [1u64, 2, 3, 5])];
    let mut results = [false, true, true];
    Scie::batch_compare(&pairs, &mut results, 5);
    assert_eq!(results, [true, false, true]);
    let mut one = [false, true];
    Scie::batch_compare(&pairs, &mut one, 1);
    assert_eq!(one, [true, true]);
}

#[test]
fn hardware_comparison_register_sequence() {
    let w = Scie::hardware_compare_writes(&[1, 2, 3, 4], &[5, 6, 7, 8]);
    assert_eq!(w.len(), 10);
    assert_eq!(w[0], RegWrite::Word { addr: 0x7000_0040, value: 0 });
    assert_eq!(w[1], RegWrite::Double { addr: 0x7000_0000, value: 1 });
    assert_eq!(w[4], RegWrite::Double { addr: 0x7000_0018, value: 4 });
    assert_eq!(w[5], RegWrite::Double { addr: 0x7000_0020, value: 5 });
    assert_eq!(w[8], RegWrite::Double { addr: 0x7000_0038, value: 8 });
    assert_eq!(w[9], RegWrite::Word { addr: 0x7000_0040, value: 1 });
}

#[test]
fn hardware_initialization_depends_on_version() {
    assert!(Scie::hardware_init_writes(0).is_none());
    assert_eq!(
        Scie::hardware_init_writes(0x0100),
        Some(vec![
            RegWrite::Word { addr: 0x7000_0040, value: 0 },
            RegWrite::Word { addr: 0x7000_0044, value: 0x10 },
        ])
    );
}

#[test]
fn results_beyond_capacity_are_counted_not_kept() {
    let target = atom(0x77);
    let mut store = TripleStore::new();
    for i in 0..300u64 {
        assert!(store.add_triple(SemanticTriple::new(atom(i), target, atom(i + 1))));
    }
    let mut nav = SemanticNavigator::new();
    assert_eq!(nav.orchestrator_search(&target, &store), 300);
    assert_eq!(nav.match_count(), 300);
    assert_eq!(nav.get_results().len(), MAX_RESULTS);
    assert_eq!(nav.get_results()[255].triple_index, 255);
}

#[test]
fn atom_and_triple_bytes_in_memory_order() {
    let a = SemanticAtom::new([0x0807_0605_0403_0201, 0, 0, 0xFF00_0000_0000_0000]);
    let b = a.as_bytes();
    assert_eq!(b.len(), 32);
    assert_eq!(&b[0..8], &[1, 2, 3, 4, 5, 6, 7, 8]);
    assert_eq!(&b[8..24], &[0u8; 16]);
    assert_eq!(&b[24..32], &[0, 0, 0, 0, 0, 0, 0, 0xFF]);
    let t = SemanticTriple::new(a, SemanticAtom::default(), SemanticAtom::new([9, 0, 0, 0]));
    let tb = t.as_bytes();
    assert_eq!(tb.len(), 96);
    assert_eq!(&tb[0..32], &b[..]);
    assert_eq!(&tb[32..64], &[0u8; 32]);
    assert_eq!(tb[64], 9);
}
