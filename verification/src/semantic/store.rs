//! Bounded tables of atoms and triples, search targets, results and work
//! assignments.

use vstd::prelude::*;
use vstd::slice::SliceAdditionalExecFns;
use crate::semantic::atom::{SemanticAtom, SemanticTriple};

verus! {

/// Capacity of a [`SemanticTable`].
pub const MAX_ATOMS: usize = 1024;

/// Capacity of a [`TripleStore`].
pub const MAX_TRIPLES: usize = 1024;

/// The first index whose atom has the target's words, if any.
pub open spec fn first_atom_match(atoms: Seq<SemanticAtom>, target: SemanticAtom) -> Option<int> {
    if exists|i: int| 0 <= i < atoms.len() && #[trigger] atoms[i].data@ == target.data@ {
        Some(
            choose|i: int|
                0 <= i < atoms.len() && #[trigger] atoms[i].data@ == target.data@ && forall|j: int|
                    0 <= j < i ==> atoms[j].data@ != target.data@,
        )
    } else {
        None
    }
}

proof fn lemma_first_atom_match(atoms: Seq<SemanticAtom>, target: SemanticAtom, i: int)
    requires
        0 <= i < atoms.len(),
        atoms[i].data@ == target.data@,
        forall|j: int| 0 <= j < i ==> atoms[j].data@ != target.data@,
    ensures
        first_atom_match(atoms, target) == Some(i),
{
    let k = choose|k: int|
        0 <= k < atoms.len() && #[trigger] atoms[k].data@ == target.data@ && forall|j: int|
            0 <= j < k ==> atoms[j].data@ != target.data@;
    assert(0 <= i < atoms.len() && atoms[i].data@ == target.data@ && forall|j: int|
        0 <= j < i ==> atoms[j].data@ != target.data@);
    if k < i {
        assert(atoms[k].data@ != target.data@);
    } else if k > i {
        assert(atoms[i].data@ != target.data@);
    }
}

/// The atoms of a table after adding `added` one by one: each is appended
/// unless the table already holds `MAX_ATOMS` atoms.
pub open spec fn atoms_after_adds(start: Seq<SemanticAtom>, added: Seq<SemanticAtom>) -> Seq<SemanticAtom>
    decreases added.len(),
{
    if added.len() == 0 {
        start
    } else {
        let before = atoms_after_adds(start, added.drop_last());
        if before.len() < MAX_ATOMS {
            before.push(added.last())
        } else {
            before
        }
    }
}

/// Adding atoms to a table that has room for them all stores them after
/// the earlier ones, in order; so each is found at its position.
pub proof fn law_adds_append_in_order(start: Seq<SemanticAtom>, added: Seq<SemanticAtom>)
    requires
        start.len() + added.len() <= MAX_ATOMS,
    ensures
        atoms_after_adds(start, added) == start + added,
    decreases added.len(),
{
    if added.len() > 0 {
        law_adds_append_in_order(start, added.drop_last());
        assert(start + added.drop_last() + seq![added.last()] =~= start + added);
    }
}

/// However many atoms are added, a table never holds more than `MAX_ATOMS`,
/// and a full table stays as it is.
pub proof fn law_table_never_exceeds_capacity(start: Seq<SemanticAtom>, added: Seq<SemanticAtom>)
    requires
        start.len() <= MAX_ATOMS,
    ensures
        atoms_after_adds(start, added).len() <= MAX_ATOMS,
        start.len() == MAX_ATOMS ==> atoms_after_adds(start, added) == start,
    decreases added.len(),
{
    if added.len() > 0 {
        law_table_never_exceeds_capacity(start, added.drop_last());
    }
}

/// After an atom is added, searching for it succeeds, at the latest at the
/// index where it was added.
pub proof fn law_search_finds_added_atom(atoms: Seq<SemanticAtom>, atom: SemanticAtom)
    ensures
        first_atom_match(atoms.push(atom), atom) is Some,
        first_atom_match(atoms.push(atom), atom).unwrap() <= atoms.len(),
{
    let all = atoms.push(atom);
    assert(all[atoms.len() as int].data@ == atom.data@);
    if exists|i: int| 0 <= i < atoms.len() && #[trigger] atoms[i].data@ == atom.data@ {
        let k = choose|i: int| 0 <= i < atoms.len() && #[trigger] atoms[i].data@ == atom.data@;
        lemma_least_match(all, atom, k);
    } else {
        assert forall|j: int| 0 <= j < atoms.len() implies all[j].data@ != atom.data@ by {
            assert(all[j] == atoms[j]);
        }
        lemma_first_atom_match(all, atom, atoms.len() as int);
    }
}

proof fn lemma_least_match(atoms: Seq<SemanticAtom>, target: SemanticAtom, k: int)
    requires
        0 <= k < atoms.len(),
        atoms[k].data@ == target.data@,
    ensures
        first_atom_match(atoms, target) is Some,
        first_atom_match(atoms, target).unwrap() <= k,
    decreases k,
{
    if exists|j: int| 0 <= j < k && #[trigger] atoms[j].data@ == target.data@ {
        let j = choose|j: int| 0 <= j < k && #[trigger] atoms[j].data@ == target.data@;
        lemma_least_match(atoms, target, j);
    } else {
        lemma_first_atom_match(atoms, target, k);
    }
}

/// A bounded table of atoms.
pub struct SemanticTable {
    atoms: Vec<SemanticAtom>,
}

impl SemanticTable {
    #[verifier::type_invariant]
    spec fn within_capacity(self) -> bool {
        self.atoms@.len() <= MAX_ATOMS
    }

    /// The stored atoms, in insertion order.
    pub closed spec fn atoms(self) -> Seq<SemanticAtom> {
        self.atoms@
    }

    /// An empty table.
    pub fn new() -> (t: Self)
        ensures
            t.atoms() == Seq::<SemanticAtom>::empty(),
    {
        SemanticTable { atoms: Vec::new() }
    }

    /// Appends an atom unless the table is full; reports whether it did.
    pub fn add_atom(&mut self, atom: SemanticAtom) -> (added: bool)
        ensures
            added == (old(self).atoms().len() < MAX_ATOMS),
            final(self).atoms() == atoms_after_adds(old(self).atoms(), seq![atom]),
            final(self).atoms() == if added {
                old(self).atoms().push(atom)
            } else {
                old(self).atoms()
            },
    {
        proof {
            use_type_invariant(&*self);
            assert(seq![atom].drop_last() =~= Seq::<SemanticAtom>::empty());
            assert(atoms_after_adds(old(self).atoms(), Seq::<SemanticAtom>::empty()) == old(self).atoms());
        }
        if self.atoms.len() < MAX_ATOMS {
            let mut taken = SemanticTable { atoms: Vec::new() };
            std::mem::swap(self, &mut taken);
            let SemanticTable { mut atoms } = taken;
            atoms.push(atom);
            *self = SemanticTable { atoms };
            true
        } else {
            false
        }
    }

    /// The atom at `index`, if it is stored.
    pub fn get_atom(&self, index: usize) -> (r: Option<&SemanticAtom>)
        ensures
            match r {
                Some(a) => index < self.atoms().len() && *a == self.atoms()[index as int],
                None => index >= self.atoms().len(),
            },
    {
        if index < self.atoms.len() {
            Some(&self.atoms[index])
        } else {
            None
        }
    }

    /// Number of stored atoms.
    pub fn len(&self) -> (n: usize)
        ensures
            n == self.atoms().len(),
            n <= MAX_ATOMS,
    {
        proof {
            use_type_invariant(self);
        }
        self.atoms.len()
    }

    /// Whether the table holds no atom.
    pub fn is_empty(&self) -> (b: bool)
        ensures
            b == (self.atoms().len() == 0),
    {
        self.atoms.len() == 0
    }

    /// Whether the table is at capacity.
    pub fn is_full(&self) -> (b: bool)
        ensures
            b == (self.atoms().len() == MAX_ATOMS),
            self.atoms().len() <= MAX_ATOMS,
    {
        proof {
            use_type_invariant(self);
        }
        self.atoms.len() >= MAX_ATOMS
    }

    /// Removes every atom.
    pub fn clear(&mut self)
        ensures
            final(self).atoms() == Seq::<SemanticAtom>::empty(),
    {
        *self = SemanticTable { atoms: Vec::new() };
    }

    /// Software search for the first atom equal to `target`.
    pub fn search_sw(&self, target: &SemanticAtom) -> (r: Option<usize>)
        ensures
            match r {
                Some(i) => first_atom_match(self.atoms(), *target) == Some(i as int),
                None => first_atom_match(self.atoms(), *target) is None,
            },
    {
        let mut i: usize = 0;
        while i < self.atoms.len()
            invariant
                i <= self.atoms@.len(),
                forall|j: int| 0 <= j < i ==> self.atoms@[j].data@ != target.data@,
            decreases self.atoms@.len() - i,
        {
            if SemanticAtom::compare_sw(&self.atoms[i], target) {
                proof {
                    lemma_first_atom_match(self.atoms@, *target, i as int);
                }
                return Some(i);
            }
            i = i + 1;
        }
        None
    }

    /// Search through the atom comparator for the first atom equal to `target`.
    pub fn search_scie(&self, target: &SemanticAtom) -> (r: Option<usize>)
        ensures
            match r {
                Some(i) => first_atom_match(self.atoms(), *target) == Some(i as int),
                None => first_atom_match(self.atoms(), *target) is None,
            },
    {
        let mut i: usize = 0;
        while i < self.atoms.len()
            invariant
                i <= self.atoms@.len(),
                forall|j: int| 0 <= j < i ==> self.atoms@[j].data@ != target.data@,
            decreases self.atoms@.len() - i,
        {
            if SemanticAtom::compare_scie(&self.atoms[i], target) {
                proof {
                    lemma_first_atom_match(self.atoms@, *target, i as int);
                }
                return Some(i);
            }
            i = i + 1;
        }
        None
    }

    /// Search for the first atom equal to `target`.
    pub fn search(&self, target: &SemanticAtom) -> (r: Option<usize>)
        ensures
            match r {
                Some(i) => first_atom_match(self.atoms(), *target) == Some(i as int),
                None => first_atom_match(self.atoms(), *target) is None,
            },
    {
        self.search_scie(target)
    }

    /// Searches for the first `min(targets, results)` targets, storing each
    /// answer in the matching result slot.
    pub fn batch_search(&self, targets: &[SemanticAtom], results: &mut [Option<usize>])
        ensures
            final(results)@.len() == old(results)@.len(),
            forall|i: int|
                0 <= i < old(results)@.len() ==> #[trigger] final(results)@[i] == if i
                    < targets@.len() {
                    match first_atom_match(self.atoms(), targets@[i]) {
                        Some(k) => Some(k as usize),
                        None => None::<usize>,
                    }
                } else {
                    old(results)@[i]
                },
    {
        let mut count = targets.len();
        if results.len() < count {
            count = results.len();
        }
        let mut i: usize = 0;
        while i < count
            invariant
                i <= count,
                count <= targets@.len(),
                count <= old(results)@.len(),
                count == targets@.len() || count == old(results)@.len(),
                results@.len() == old(results)@.len(),
                forall|j: int|
                    0 <= j < results@.len() ==> #[trigger] results@[j] == if j < i {
                        match first_atom_match(self.atoms(), targets@[j]) {
                            Some(k) => Some(k as usize),
                            None => None::<usize>,
                        }
                    } else {
                        old(results)@[j]
                    },
            decreases count - i,
        {
            let r = self.search(&targets[i]);
            results.set(i, r);
            i = i + 1;
        }
    }
}

impl Default for SemanticTable {
    fn default() -> (t: Self)
        ensures
            t.atoms() == Seq::<SemanticAtom>::empty(),
    {
        Self::new()
    }
}

/// A bounded store of triples.
#[derive(Debug)]
pub struct TripleStore {
    triples: Vec<SemanticTriple>,
}

impl TripleStore {
    #[verifier::type_invariant]
    spec fn within_capacity(self) -> bool {
        self.triples@.len() <= MAX_TRIPLES
    }

    /// The stored triples, in insertion order.
    pub closed spec fn triples(self) -> Seq<SemanticTriple> {
        self.triples@
    }

    /// An empty store.
    pub fn new() -> (s: Self)
        ensures
            s.triples() == Seq::<SemanticTriple>::empty(),
    {
        TripleStore { triples: Vec::new() }
    }

    /// Appends a triple unless the store is full; reports whether it did.
    pub fn add_triple(&mut self, triple: SemanticTriple) -> (added: bool)
        ensures
            added == (old(self).triples().len() < MAX_TRIPLES),
            final(self).triples() == if added {
                old(self).triples().push(triple)
            } else {
                old(self).triples()
            },
    {
        proof {
            use_type_invariant(&*self);
        }
        if self.triples.len() < MAX_TRIPLES {
            let mut taken = TripleStore { triples: Vec::new() };
            std::mem::swap(self, &mut taken);
            let TripleStore { mut triples } = taken;
            triples.push(triple);
            *self = TripleStore { triples };
            true
        } else {
            false
        }
    }

    /// The triple at `index`, if it is stored.
    pub fn get_triple(&self, index: usize) -> (r: Option<&SemanticTriple>)
        ensures
            match r {
                Some(t) => index < self.triples().len() && *t == self.triples()[index as int],
                None => index >= self.triples().len(),
            },
    {
        if index < self.triples.len() {
            Some(&self.triples[index])
        } else {
            None
        }
    }

    /// Number of stored triples.
    pub fn len(&self) -> (n: usize)
        ensures
            n == self.triples().len(),
            n <= MAX_TRIPLES,
    {
        proof {
            use_type_invariant(self);
        }
        self.triples.len()
    }

    /// Whether the store holds no triple.
    pub fn is_empty(&self) -> (b: bool)
        ensures
            b == (self.triples().len() == 0),
    {
        self.triples.len() == 0
    }

    /// Whether the store is at capacity.
    pub fn is_full(&self) -> (b: bool)
        ensures
            b == (self.triples().len() == MAX_TRIPLES),
            self.triples().len() <= MAX_TRIPLES,
    {
        proof {
            use_type_invariant(self);
        }
        self.triples.len() >= MAX_TRIPLES
    }

    /// Removes every triple.
    pub fn clear(&mut self)
        ensures
            final(self).triples() == Seq::<SemanticTriple>::empty(),
    {
        *self = TripleStore { triples: Vec::new() };
    }

    /// The triples with indices in `start..end`; empty unless
    /// `start < end <= len`.
    pub fn get_range(&self, start: usize, end: usize) -> (r: &[SemanticTriple])
        ensures
            r@ == if start < end && end <= self.triples().len() {
                self.triples().subrange(start as int, end as int)
            } else {
                Seq::<SemanticTriple>::empty()
            },
    {
        let all = self.triples.as_slice();
        if start >= self.triples.len() || end > self.triples.len() || start >= end {
            return &all[0..0];
        }
        &all[start..end]
    }
}

impl Clone for TripleStore {
    fn clone(&self) -> (c: Self)
        ensures
            c.triples() == self.triples(),
    {
        proof {
            use_type_invariant(self);
        }
        let triples = self.triples.clone();
        assert(triples@ =~= self.triples@);
        TripleStore { triples }
    }
}

impl Default for TripleStore {
    fn default() -> (s: Self)
        ensures
            s.triples() == Seq::<SemanticTriple>::empty(),
    {
        Self::new()
    }
}

/// A match found by a parallel search.
#[derive(Debug, Clone, Copy)]
pub struct SearchResult {
    pub object: SemanticAtom,
    pub found_by: usize,
    pub triple_index: usize,
}

impl SearchResult {
    /// A result for the given object, hart and triple index.
    pub fn new(object: SemanticAtom, found_by: usize, triple_index: usize) -> (r: Self)
        ensures
            r.object == object,
            r.found_by == found_by,
            r.triple_index == triple_index,
    {
        SearchResult { object, found_by, triple_index }
    }
}

impl Default for SearchResult {
    fn default() -> (r: Self)
        ensures
            r.object.data@ == seq![0u64, 0u64, 0u64, 0u64],
            r.found_by == 0,
            r.triple_index == 0,
    {
        SearchResult { object: SemanticAtom::default(), found_by: 0, triple_index: 0 }
    }
}

/// A slice of a search handed to one hart.
#[derive(Debug, Clone, Copy)]
pub struct WorkAssignment {
    pub start_index: usize,
    pub end_index: usize,
    pub target_predicate: SemanticAtom,
    pub hart_id: usize,
}

impl WorkAssignment {
    /// An assignment of `start_index..end_index` to `hart_id`.
    pub fn new(
        start_index: usize,
        end_index: usize,
        target_predicate: SemanticAtom,
        hart_id: usize,
    ) -> (w: Self)
        ensures
            w.start_index == start_index,
            w.end_index == end_index,
            w.target_predicate == target_predicate,
            w.hart_id == hart_id,
    {
        WorkAssignment { start_index, end_index, target_predicate, hart_id }
    }

    /// Number of triples to process.
    pub fn work_size(&self) -> (n: usize)
        requires
            self.start_index <= self.end_index,
        ensures
            n == self.end_index - self.start_index,
    {
        self.end_index - self.start_index
    }

    /// A non-empty range for one of the four harts.
    pub fn is_valid(&self) -> (b: bool)
        ensures
            b == (self.start_index < self.end_index && self.hart_id < 4),
    {
        self.start_index < self.end_index && self.hart_id < 4
    }
}

impl Default for WorkAssignment {
    fn default() -> (w: Self)
        ensures
            w.start_index == 0,
            w.end_index == 0,
            w.target_predicate.data@ == seq![0u64, 0u64, 0u64, 0u64],
            w.hart_id == 0,
    {
        WorkAssignment {
            start_index: 0,
            end_index: 0,
            target_predicate: SemanticAtom::default(),
            hart_id: 0,
        }
    }
}

/// A search target and who found it.
#[derive(Debug, Clone, Copy)]
pub struct TargetAtom {
    atom: SemanticAtom,
    found: bool,
    found_by: Option<usize>,
}

impl TargetAtom {
    /// The found flag and the finder are in step: found exactly when some
    /// hart is recorded as the finder.
    #[verifier::type_invariant]
    spec fn found_in_step(self) -> bool {
        self.found == (self.found_by is Some)
    }

    /// The target atom.
    pub closed spec fn spec_atom(self) -> SemanticAtom {
        self.atom
    }

    /// Whether it has been found.
    pub closed spec fn spec_found(self) -> bool {
        self.found
    }

    /// The hart that found it, if any.
    pub closed spec fn spec_found_by(self) -> Option<usize> {
        self.found_by
    }

    /// A target not yet found.
    pub fn new(atom: SemanticAtom) -> (t: Self)
        ensures
            t.spec_atom() == atom,
            !t.spec_found(),
            t.spec_found_by() is None,
    {
        TargetAtom { atom, found: false, found_by: None }
    }

    /// The atom to search for.
    pub fn atom(&self) -> (a: &SemanticAtom)
        ensures
            *a == self.spec_atom(),
    {
        &self.atom
    }

    /// Whether the target has been found.
    pub fn is_found(&self) -> (b: bool)
        ensures
            b == self.spec_found(),
            b == (self.spec_found_by() is Some),
    {
        proof {
            use_type_invariant(self);
        }
        self.found
    }

    /// Which hart found the target.
    pub fn found_by(&self) -> (h: Option<usize>)
        ensures
            h == self.spec_found_by(),
            h is Some == self.spec_found(),
    {
        proof {
            use_type_invariant(self);
        }
        self.found_by
    }

    /// Records that `hart_id` found the target.
    pub fn mark_found(&mut self, hart_id: usize)
        ensures
            final(self).spec_atom() == old(self).spec_atom(),
            final(self).spec_found(),
            final(self).spec_found_by() == Some(hart_id),
    {
        *self = TargetAtom { atom: self.atom, found: true, found_by: Some(hart_id) };
    }

    /// Forgets any finding.
    pub fn reset(&mut self)
        ensures
            final(self).spec_atom() == old(self).spec_atom(),
            !final(self).spec_found(),
            final(self).spec_found_by() is None,
    {
        *self = TargetAtom { atom: self.atom, found: false, found_by: None };
    }
}

impl Default for TargetAtom {
    fn default() -> (t: Self)
        ensures
            t.spec_atom().data@ == seq![0u64, 0u64, 0u64, 0u64],
            !t.spec_found(),
            t.spec_found_by() is None,
    {
        TargetAtom { atom: SemanticAtom::default(), found: false, found_by: None }
    }
}

} // verus!
