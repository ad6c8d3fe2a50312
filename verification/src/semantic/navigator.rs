//! The semantic navigator: splits a predicate search over the worker harts
//! and collects the matches.

use vstd::prelude::*;
use crate::semantic::atom::{SemanticAtom, SemanticTriple};
use crate::semantic::store::{SearchResult, TripleStore, WorkAssignment, MAX_TRIPLES};

verus! {

/// Number of worker harts (harts 1, 2 and 3).
pub const WORKER_HARTS: usize = 3;

/// Number of search results kept in local storage.
pub const MAX_RESULTS: usize = 256;

/// Whether a triple's predicate has the target's words.
pub open spec fn is_match(t: SemanticTriple, target: SemanticAtom) -> bool {
    t.predicate.data@ == target.data@
}

/// Number of triples in `start..end` whose predicate matches.
pub open spec fn count_matches(
    triples: Seq<SemanticTriple>,
    target: SemanticAtom,
    start: int,
    end: int,
) -> nat
    decreases end - start,
{
    if end <= start {
        0
    } else {
        count_matches(triples, target, start, end - 1) + if is_match(triples[end - 1], target) {
            1nat
        } else {
            0nat
        }
    }
}

/// The matches in `start..end`, in index order, as found by `hart`.
pub open spec fn range_matches(
    triples: Seq<SemanticTriple>,
    target: SemanticAtom,
    start: int,
    end: int,
    hart: usize,
) -> Seq<SearchResult>
    decreases end - start,
{
    if end <= start {
        seq![]
    } else if is_match(triples[end - 1], target) {
        range_matches(triples, target, start, end - 1, hart).push(
            SearchResult { object: triples[end - 1].object, found_by: hart, triple_index: (end - 1) as usize },
        )
    } else {
        range_matches(triples, target, start, end - 1, hart)
    }
}

/// The matches a range search lists are exactly the triples of the range
/// whose predicate has the target's words, in increasing index order; each
/// records its triple's index, the object of that triple and the searching
/// hart. (Their number is `count_matches`, by `lemma_range_matches_len`.)
pub proof fn law_range_matches_exact(
    triples: Seq<SemanticTriple>,
    target: SemanticAtom,
    start: int,
    end: int,
    hart: usize,
)
    requires
        0 <= start <= end <= triples.len(),
        triples.len() <= usize::MAX,
    ensures
        forall|j: int|
            0 <= j < range_matches(triples, target, start, end, hart).len() ==> {
                let r = #[trigger] range_matches(triples, target, start, end, hart)[j];
                &&& start <= r.triple_index < end
                &&& triples[r.triple_index as int].predicate.data@ == target.data@
                &&& r.object == triples[r.triple_index as int].object
                &&& r.found_by == hart
            },
        forall|j1: int, j2: int|
            0 <= j1 < j2 < range_matches(triples, target, start, end, hart).len() ==> (#[trigger] range_matches(
                triples,
                target,
                start,
                end,
                hart,
            )[j1]).triple_index < (#[trigger] range_matches(triples, target, start, end, hart)[j2]).triple_index,
        forall|i: int|
            start <= i < end && (#[trigger] triples[i]).predicate.data@ == target.data@ ==> exists|j: int|
                0 <= j < range_matches(triples, target, start, end, hart).len() && (#[trigger] range_matches(
                    triples,
                    target,
                    start,
                    end,
                    hart,
                )[j]).triple_index == i,
    decreases end - start,
{
    if end > start {
        law_range_matches_exact(triples, target, start, end - 1, hart);
        let prev = range_matches(triples, target, start, end - 1, hart);
        let cur = range_matches(triples, target, start, end, hart);
        if is_match(triples[end - 1], target) {
            let r = SearchResult { object: triples[end - 1].object, found_by: hart, triple_index: (end - 1) as usize };
            assert(cur == prev.push(r));
            assert forall|j: int| 0 <= j < cur.len() implies {
                let x = #[trigger] cur[j];
                &&& start <= x.triple_index < end
                &&& triples[x.triple_index as int].predicate.data@ == target.data@
                &&& x.object == triples[x.triple_index as int].object
                &&& x.found_by == hart
            } by {
                if j < prev.len() {
                    assert(cur[j] == prev[j]);
                }
            }
            assert forall|j1: int, j2: int| 0 <= j1 < j2 < cur.len() implies (#[trigger] cur[j1]).triple_index
                < (#[trigger] cur[j2]).triple_index by {
                assert(cur[j1] == prev[j1]);
                if j2 < prev.len() {
                    assert(cur[j2] == prev[j2]);
                }
            }
            assert forall|i: int| start <= i < end && (#[trigger] triples[i]).predicate.data@ == target.data@ implies exists|j: int|
                0 <= j < cur.len() && (#[trigger] cur[j]).triple_index == i by {
                if i == end - 1 {
                    assert(cur[prev.len() as int].triple_index == i);
                } else {
                    let j = choose|j: int| 0 <= j < prev.len() && (#[trigger] prev[j]).triple_index == i;
                    assert(cur[j] == prev[j]);
                }
            }
        } else {
            assert(cur == prev);
            assert forall|i: int| start <= i < end && (#[trigger] triples[i]).predicate.data@ == target.data@ implies exists|j: int|
                0 <= j < cur.len() && (#[trigger] cur[j]).triple_index == i by {
                assert(i != end - 1);
            }
        }
    }
}

/// The search results of a plan of consecutive ranges starting at 0, after
/// its first `k` assignments: they are the matching triples below the end of
/// the last range, in index order, each with its triple's object and the
/// hart (1 to 3) whose range holds it.
proof fn lemma_plan_prefix_exact(
    p: Seq<WorkAssignment>,
    triples: Seq<SemanticTriple>,
    target: SemanticAtom,
    k: int,
)
    requires
        0 <= k <= p.len(),
        p.len() > 0 ==> p[0].start_index == 0,
        forall|i: int| 0 <= i < p.len() - 1 ==> #[trigger] p[i].end_index == p[i + 1].start_index,
        forall|i: int|
            0 <= i < p.len() ==> {
                &&& #[trigger] p[i].start_index < p[i].end_index
                &&& p[i].end_index <= triples.len()
                &&& 1 <= p[i].hart_id <= 3
                &&& p[i].target_predicate == target
            },
        triples.len() <= usize::MAX,
    ensures
        ({
            let m = plan_matches(p.take(k), triples, target);
            let bound: int = if k == 0 { 0 } else { p[k - 1].end_index as int };
            &&& forall|j: int|
                0 <= j < m.len() ==> {
                    let r = #[trigger] m[j];
                    &&& r.triple_index < bound
                    &&& triples[r.triple_index as int].predicate.data@ == target.data@
                    &&& r.object == triples[r.triple_index as int].object
                    &&& 1 <= r.found_by <= 3
                }
            &&& forall|j1: int, j2: int| 0 <= j1 < j2 < m.len() ==> (#[trigger] m[j1]).triple_index < (#[trigger] m[j2]).triple_index
            &&& forall|i: int|
                0 <= i < bound && (#[trigger] triples[i]).predicate.data@ == target.data@ ==> exists|j: int|
                    0 <= j < m.len() && (#[trigger] m[j]).triple_index == i
        }),
    decreases k,
{
    if k == 0 {
        assert(p.take(0) =~= Seq::<WorkAssignment>::empty());
    } else {
        lemma_plan_prefix_exact(p, triples, target, k - 1);
        assert(p.take(k).drop_last() =~= p.take(k - 1));
        assert(p.take(k).last() == p[k - 1]);
        let a = p[k - 1];
        let prev = plan_matches(p.take(k - 1), triples, target);
        let piece = range_matches(triples, target, a.start_index as int, a.end_index as int, a.hart_id);
        let m = plan_matches(p.take(k), triples, target);
        assert(m == prev + piece);
        let lo: int = if k - 1 == 0 { 0 } else { p[k - 2].end_index as int };
        assert(lo == a.start_index);
        law_range_matches_exact(triples, target, a.start_index as int, a.end_index as int, a.hart_id);
        assert forall|j: int| 0 <= j < m.len() implies {
            let r = #[trigger] m[j];
            &&& r.triple_index < a.end_index
            &&& triples[r.triple_index as int].predicate.data@ == target.data@
            &&& r.object == triples[r.triple_index as int].object
            &&& 1 <= r.found_by <= 3
        } by {
            if j < prev.len() {
                assert(m[j] == prev[j]);
            } else {
                assert(m[j] == piece[j - prev.len()]);
            }
        }
        assert forall|j1: int, j2: int| 0 <= j1 < j2 < m.len() implies (#[trigger] m[j1]).triple_index
            < (#[trigger] m[j2]).triple_index by {
            if j2 < prev.len() {
                assert(m[j1] == prev[j1] && m[j2] == prev[j2]);
            } else if j1 < prev.len() {
                assert(m[j1] == prev[j1] && m[j2] == piece[j2 - prev.len()]);
            } else {
                assert(m[j1] == piece[j1 - prev.len()] && m[j2] == piece[j2 - prev.len()]);
            }
        }
        assert forall|i: int| 0 <= i < a.end_index && (#[trigger] triples[i]).predicate.data@ == target.data@ implies exists|j: int|
            0 <= j < m.len() && (#[trigger] m[j]).triple_index == i by {
            if i < lo {
                let j = choose|j: int| 0 <= j < prev.len() && (#[trigger] prev[j]).triple_index == i;
                assert(m[j] == prev[j]);
            } else {
                let j = choose|j: int| 0 <= j < piece.len() && (#[trigger] piece[j]).triple_index == i;
                assert(m[prev.len() + j] == piece[j]);
            }
        }
    }
}

/// The distributed search finds exactly the triples of the store whose
/// predicate has the target's words, listed in index order, each with its
/// triple's object and found by one of the worker harts 1 to 3.
pub proof fn law_search_finds_exactly_the_matches(triples: Seq<SemanticTriple>, target: SemanticAtom)
    requires
        0 < triples.len() <= MAX_TRIPLES,
    ensures
        ({
            let m = plan_matches(work_plan(triples.len(), target), triples, target);
            &&& forall|j: int|
                0 <= j < m.len() ==> {
                    let r = #[trigger] m[j];
                    &&& r.triple_index < triples.len()
                    &&& triples[r.triple_index as int].predicate.data@ == target.data@
                    &&& r.object == triples[r.triple_index as int].object
                    &&& 1 <= r.found_by <= 3
                }
            &&& forall|j1: int, j2: int| 0 <= j1 < j2 < m.len() ==> (#[trigger] m[j1]).triple_index < (#[trigger] m[j2]).triple_index
            &&& forall|i: int|
                0 <= i < triples.len() && (#[trigger] triples[i]).predicate.data@ == target.data@ ==> exists|j: int|
                    0 <= j < m.len() && (#[trigger] m[j]).triple_index == i
        }),
{
    let total = triples.len();
    law_work_plan_partitions(total, target);
    let p = work_plan(total, target);
    lemma_plan_prefix_exact(p, triples, target, p.len() as int);
    assert(p.take(p.len() as int) =~= p);
}

/// Counting over two adjacent ranges adds up.
pub proof fn lemma_count_split(
    triples: Seq<SemanticTriple>,
    target: SemanticAtom,
    start: int,
    mid: int,
    end: int,
)
    requires
        start <= mid <= end,
    ensures
        count_matches(triples, target, start, end) == count_matches(triples, target, start, mid)
            + count_matches(triples, target, mid, end),
    decreases end - mid,
{
    if end > mid {
        lemma_count_split(triples, target, start, mid, end - 1);
    }
}

/// The number of matches listed equals the number counted.
pub proof fn lemma_range_matches_len(
    triples: Seq<SemanticTriple>,
    target: SemanticAtom,
    start: int,
    end: int,
    hart: usize,
)
    ensures
        range_matches(triples, target, start, end, hart).len() == count_matches(
            triples,
            target,
            start,
            end,
        ),
    decreases end - start,
{
    if end > start {
        lemma_range_matches_len(triples, target, start, end - 1, hart);
    }
}

/// The share of `total` triples that worker `hart` (1 to 3) receives: the
/// quotient by three, plus one for the first `total % 3` workers.
pub open spec fn worker_share(total: nat, hart: nat) -> nat {
    total / 3 + if hart <= total % 3 {
        1nat
    } else {
        0nat
    }
}

/// The assignment of worker `hart` starting at `start`.
pub open spec fn assignment_at(start: nat, total: nat, hart: nat, target: SemanticAtom) -> WorkAssignment {
    WorkAssignment {
        start_index: start as usize,
        end_index: (start + worker_share(total, hart)) as usize,
        target_predicate: target,
        hart_id: hart as usize,
    }
}

/// The assignment if it has work, else nothing.
pub open spec fn if_nonempty(a: WorkAssignment) -> Seq<WorkAssignment> {
    if a.start_index < a.end_index {
        seq![a]
    } else {
        seq![]
    }
}

/// The work plan for `total` triples: consecutive ranges for harts 1, 2 and
/// 3 of sizes `worker_share`, leaving out empty ones.
pub open spec fn work_plan(total: nat, target: SemanticAtom) -> Seq<WorkAssignment> {
    let s1 = worker_share(total, 1);
    let s2 = worker_share(total, 2);
    if_nonempty(assignment_at(0, total, 1, target)) + if_nonempty(
        assignment_at(s1, total, 2, target),
    ) + if_nonempty(assignment_at(s1 + s2, total, 3, target))
}

/// The plan splits `0..total` into non-empty consecutive ranges, in order,
/// one per worker hart, whose sizes differ by at most one.
pub proof fn law_work_plan_partitions(total: nat, target: SemanticAtom)
    requires
        0 < total <= MAX_TRIPLES,
    ensures
        ({
            let p = work_plan(total, target);
            &&& 1 <= p.len() <= 3
            &&& p[0].start_index == 0
            &&& p[p.len() - 1].end_index == total
            &&& forall|i: int| 0 <= i < p.len() - 1 ==> #[trigger] p[i].end_index == p[i + 1].start_index
            &&& forall|i: int|
                0 <= i < p.len() ==> {
                    &&& #[trigger] p[i].start_index < p[i].end_index
                    &&& 1 <= p[i].hart_id <= 3
                    &&& p[i].hart_id == i + 1
                    &&& p[i].target_predicate == target
                    &&& total / 3 <= p[i].end_index - p[i].start_index <= total / 3 + 1
                }
        }),
{
    let q = total / 3;
    let r = total % 3;
    assert(total == 3 * q + r);
    let p = work_plan(total, target);
    if q == 0 {
        if r == 1 {
            assert(p =~= seq![assignment_at(0, total, 1, target)]);
        } else {
            assert(r == 2);
            assert(p =~= seq![
                assignment_at(0, total, 1, target),
                assignment_at(1, total, 2, target),
            ]);
        }
    } else {
        assert(p =~= seq![
            assignment_at(0, total, 1, target),
            assignment_at(worker_share(total, 1), total, 2, target),
            assignment_at(worker_share(total, 1) + worker_share(total, 2), total, 3, target),
        ]);
    }
}

/// The matches that running every assignment of a plan, in order, lists.
pub open spec fn plan_matches(
    plan: Seq<WorkAssignment>,
    triples: Seq<SemanticTriple>,
    target: SemanticAtom,
) -> Seq<SearchResult>
    decreases plan.len(),
{
    if plan.len() == 0 {
        seq![]
    } else {
        plan_matches(plan.drop_last(), triples, target) + effective_matches(
            triples,
            target,
            plan.last().start_index,
            plan.last().end_index,
            plan.last().hart_id,
        )
    }
}

/// The matches of a range request: a range outside `0..len` or empty finds
/// nothing.
pub open spec fn effective_matches(
    triples: Seq<SemanticTriple>,
    target: SemanticAtom,
    start: usize,
    end: usize,
    hart: usize,
) -> Seq<SearchResult> {
    if start < end && end <= triples.len() {
        range_matches(triples, target, start as int, end as int, hart)
    } else {
        seq![]
    }
}

/// The at most `MAX_RESULTS` results kept of a list of matches.
pub open spec fn kept(all: Seq<SearchResult>) -> Seq<SearchResult> {
    if all.len() <= MAX_RESULTS {
        all
    } else {
        all.take(MAX_RESULTS as int)
    }
}

/// Collects the matches of searches; keeps the first `MAX_RESULTS` of them
/// and counts them all.
pub struct SemanticNavigator {
    results: Vec<SearchResult>,
    match_count: usize,
    harts_completed: usize,
    all_matches: Ghost<Seq<SearchResult>>,
}

impl SemanticNavigator {
    #[verifier::type_invariant]
    spec fn consistent(self) -> bool {
        &&& self.match_count == self.all_matches@.len()
        &&& self.results@ == kept(self.all_matches@)
    }

    /// Every match found since the last clear, in the order found.
    pub closed spec fn matches(self) -> Seq<SearchResult> {
        self.all_matches@
    }

    /// Number of workers that completed since the last clear.
    pub closed spec fn completed(self) -> nat {
        self.harts_completed as nat
    }

    /// A navigator with no match.
    pub fn new() -> (n: Self)
        ensures
            n.matches() == Seq::<SearchResult>::empty(),
            n.completed() == 0,
    {
        SemanticNavigator {
            results: Vec::new(),
            match_count: 0,
            harts_completed: 0,
            all_matches: Ghost(Seq::empty()),
        }
    }

    /// The work plan for `total` triples (the orchestrator's distribution).
    pub fn plan_work(total: usize, target_predicate: &SemanticAtom) -> (plan: Vec<WorkAssignment>)
        requires
            total <= MAX_TRIPLES,
        ensures
            plan@ == work_plan(total as nat, *target_predicate),
    {
        let worker_harts: usize = WORKER_HARTS;
        let triples_per_hart = total / worker_harts;
        let remainder = total % worker_harts;
        let mut plan: Vec<WorkAssignment> = Vec::new();
        let mut start_index: usize = 0;
        let mut hart_id: usize = 1;
        while hart_id <= worker_harts
            invariant
                1 <= hart_id <= 4,
                worker_harts == 3,
                total <= MAX_TRIPLES,
                triples_per_hart == total / 3,
                remainder == total % 3,
                start_index == (if hart_id == 1 {
                    0
                } else if hart_id == 2 {
                    worker_share(total as nat, 1)
                } else if hart_id == 3 {
                    worker_share(total as nat, 1) + worker_share(total as nat, 2)
                } else {
                    total as nat
                }),
                plan@ == (if hart_id == 1 {
                    seq![]
                } else if hart_id == 2 {
                    if_nonempty(assignment_at(0, total as nat, 1, *target_predicate))
                } else if hart_id == 3 {
                    if_nonempty(assignment_at(0, total as nat, 1, *target_predicate)) + if_nonempty(
                        assignment_at(worker_share(total as nat, 1), total as nat, 2, *target_predicate),
                    )
                } else {
                    work_plan(total as nat, *target_predicate)
                }),
            decreases 4 - hart_id,
        {
            let work_size = triples_per_hart + if hart_id <= remainder { 1 } else { 0 };
            let end_index = start_index + work_size;
            let ghost before = plan@;
            if work_size > 0 {
                let assignment = WorkAssignment::new(
                    start_index,
                    end_index,
                    *target_predicate,
                    hart_id,
                );
                plan.push(assignment);
            }
            proof {
                let a = assignment_at(start_index as nat, total as nat, hart_id as nat, *target_predicate);
                assert(plan@ =~= before + if_nonempty(a));
                assert(total == 3 * (total / 3) + total % 3);
            }
            start_index = end_index;
            hart_id = hart_id + 1;
        }
        plan
    }

    /// Records a match: kept while fewer than `MAX_RESULTS` are kept, counted
    /// in any case.
    fn record_match(&mut self, result: SearchResult)
        requires
            old(self).matches().len() < usize::MAX,
        ensures
            final(self).matches() == old(self).matches().push(result),
            final(self).completed() == old(self).completed(),
    {
        proof {
            use_type_invariant(&*self);
        }
        let mut taken = SemanticNavigator::new();
        std::mem::swap(self, &mut taken);
        let SemanticNavigator { mut results, match_count, harts_completed, all_matches } = taken;
        let ghost all = all_matches@.push(result);
        if match_count < MAX_RESULTS {
            results.push(result);
        }
        proof {
            if match_count < MAX_RESULTS {
                assert(results@ =~= kept(all));
            } else {
                assert(all_matches@.take(MAX_RESULTS as int) =~= all.take(MAX_RESULTS as int));
                assert(results@ =~= kept(all));
            }
        }
        *self = SemanticNavigator {
            results,
            match_count: match_count + 1,
            harts_completed,
            all_matches: Ghost(all),
        };
    }

    /// Searches `start_index..end_index` of the store for triples whose
    /// predicate matches, recording each match (object, hart, triple index)
    /// and returning how many there were. A range that is empty or not
    /// within the store finds nothing.
    pub fn search_range(
        &mut self,
        triple_store: &TripleStore,
        target_predicate: &SemanticAtom,
        start_index: usize,
        end_index: usize,
        hart_id: usize,
    ) -> (found: usize)
        requires
            start_index < end_index && end_index <= triple_store.triples().len() ==> old(
                self,
            ).matches().len() + (end_index - start_index) <= usize::MAX,
        ensures
            final(self).matches() == old(self).matches() + effective_matches(
                triple_store.triples(),
                *target_predicate,
                start_index,
                end_index,
                hart_id,
            ),
            found == effective_matches(
                triple_store.triples(),
                *target_predicate,
                start_index,
                end_index,
                hart_id,
            ).len(),
            final(self).completed() == old(self).completed(),
    {
        let ghost all = triple_store.triples();
        let len = triple_store.len();
        if start_index >= len || end_index > len || start_index >= end_index {
            assert(self.matches() =~= old(self).matches() + Seq::<SearchResult>::empty());
            return 0;
        }
        let mut matches_found: usize = 0;
        let mut i: usize = start_index;
        while i < end_index
            invariant
                start_index <= i <= end_index <= len,
                len == all.len(),
                len <= MAX_TRIPLES,
                all == triple_store.triples(),
                old(self).matches().len() + (end_index - start_index) <= usize::MAX,
                matches_found <= i - start_index,
                self.matches() == old(self).matches() + range_matches(
                    all,
                    *target_predicate,
                    start_index as int,
                    i as int,
                    hart_id,
                ),
                matches_found == range_matches(all, *target_predicate, start_index as int, i as int, hart_id).len(),
                self.completed() == old(self).completed(),
            decreases end_index - i,
        {
            proof {
                lemma_range_matches_len(all, *target_predicate, start_index as int, i as int, hart_id);
                lemma_count_bound(all, *target_predicate, start_index as int, i as int);
            }
            let triple = match triple_store.get_triple(i) {
                Some(t) => t,
                None => {
                    return 0;
                },
            };
            if SemanticAtom::compare_scie(&triple.predicate, target_predicate) {
                self.record_match(SearchResult::new(triple.object, hart_id, i));
                matches_found = matches_found + 1;
            }
            proof {
                assert(self.matches() =~= old(self).matches() + range_matches(
                    all,
                    *target_predicate,
                    start_index as int,
                    i + 1,
                    hart_id,
                ));
            }
            i = i + 1;
        }
        matches_found
    }

    /// A worker's part: a valid assignment is searched and the worker counts
    /// as completed; an invalid one finds nothing.
    pub fn worker_search(&mut self, assignment: &WorkAssignment, triple_store: &TripleStore) -> (found: usize)
        requires
            assignment.start_index < assignment.end_index && assignment.end_index
                <= triple_store.triples().len() ==> old(self).matches().len() + (assignment.end_index
                - assignment.start_index) <= usize::MAX,
            assignment.start_index < assignment.end_index && assignment.hart_id < 4 ==> old(
                self,
            ).completed() < usize::MAX,
        ensures
            assignment.start_index < assignment.end_index && assignment.hart_id < 4 ==> {
                &&& final(self).matches() == old(self).matches() + effective_matches(
                    triple_store.triples(),
                    assignment.target_predicate,
                    assignment.start_index,
                    assignment.end_index,
                    assignment.hart_id,
                )
                &&& found == effective_matches(
                    triple_store.triples(),
                    assignment.target_predicate,
                    assignment.start_index,
                    assignment.end_index,
                    assignment.hart_id,
                ).len()
                &&& final(self).completed() == old(self).completed() + 1
            },
            !(assignment.start_index < assignment.end_index && assignment.hart_id < 4) ==> {
                &&& final(self).matches() == old(self).matches()
                &&& found == 0
                &&& final(self).completed() == old(self).completed()
            },
    {
        if !assignment.is_valid() {
            return 0;
        }
        let found = self.search_range(
            triple_store,
            &assignment.target_predicate,
            assignment.start_index,
            assignment.end_index,
            assignment.hart_id,
        );
        proof {
            use_type_invariant(&*self);
        }
        let mut taken = SemanticNavigator::new();
        std::mem::swap(self, &mut taken);
        let SemanticNavigator { results, match_count, harts_completed, all_matches } = taken;
        *self = SemanticNavigator {
            results,
            match_count,
            harts_completed: harts_completed + 1,
            all_matches,
        };
        found
    }

    /// The kept results (at most `MAX_RESULTS`, in the order found).
    pub fn get_results(&self) -> (r: &[SearchResult])
        ensures
            r@ == kept(self.matches()),
    {
        proof {
            use_type_invariant(self);
        }
        self.results.as_slice()
    }

    /// Number of matches found since the last clear.
    pub fn match_count(&self) -> (n: usize)
        ensures
            n == self.matches().len(),
    {
        proof {
            use_type_invariant(self);
        }
        self.match_count
    }

    /// Number of workers that completed since the last clear.
    pub fn harts_completed(&self) -> (n: usize)
        ensures
            n == self.completed(),
    {
        self.harts_completed
    }

    /// Forgets all matches and completions.
    pub fn clear_results(&mut self)
        ensures
            final(self).matches() == Seq::<SearchResult>::empty(),
            final(self).completed() == 0,
    {
        *self = SemanticNavigator::new();
    }

    /// The orchestrator's search: clears the results, distributes the store
    /// over the worker harts and runs each assignment, returning the total
    /// number of matches.
    pub fn orchestrator_search(&mut self, target_predicate: &SemanticAtom, triple_store: &TripleStore) -> (found: usize)
        ensures
            final(self).matches() == plan_matches(
                work_plan(triple_store.triples().len(), *target_predicate),
                triple_store.triples(),
                *target_predicate,
            ),
            found == count_matches(
                triple_store.triples(),
                *target_predicate,
                0,
                triple_store.triples().len() as int,
            ),
    {
        let total = triple_store.len();
        self.clear_results();
        if total == 0 {
            assert(work_plan(0, *target_predicate) =~= Seq::<WorkAssignment>::empty());
            return 0;
        }
        let plan = Self::plan_work(total, target_predicate);
        proof {
            law_work_plan_partitions(total as nat, *target_predicate);
        }
        let ghost p = plan@;
        let mut k: usize = 0;
        let mut done: usize = 0;
        while k < plan.len()
            invariant
                0 < total <= MAX_TRIPLES,
                total == triple_store.triples().len(),
                p == plan@,
                p == work_plan(total as nat, *target_predicate),
                1 <= p.len() <= 3,
                p[0].start_index == 0,
                p[p.len() - 1].end_index == total,
                forall|i: int| 0 <= i < p.len() - 1 ==> #[trigger] p[i].end_index == p[i + 1].start_index,
                forall|i: int| 0 <= i < p.len() ==> #[trigger] p[i].start_index < p[i].end_index && p[i].hart_id < 4,
                k <= p.len(),
                done == (if k == 0 { 0 } else { p[k - 1].end_index }),
                done <= total,
                self.matches() == plan_matches(p.take(k as int), triple_store.triples(), *target_predicate),
                self.matches().len() == count_matches(triple_store.triples(), *target_predicate, 0, done as int),
                self.completed() == k,
            decreases p.len() - k,
        {
            proof {
                lemma_count_bound(triple_store.triples(), *target_predicate, 0, done as int);
            }
            let a = plan[k];
            assert(a.start_index == done);
            self.worker_search(&a, triple_store);
            proof {
                assert(p.take(k + 1).drop_last() =~= p.take(k as int));
                lemma_range_matches_len(triple_store.triples(), *target_predicate, a.start_index as int, a.end_index as int, a.hart_id);
                lemma_count_split(triple_store.triples(), *target_predicate, 0, done as int, a.end_index as int);
            }
            done = a.end_index;
            k = k + 1;
        }
        proof {
            assert(p.take(p.len() as int) =~= p);
        }
        self.match_count()
    }
}

/// Number of matches is at most the size of the range.
pub proof fn lemma_count_bound(triples: Seq<SemanticTriple>, target: SemanticAtom, start: int, end: int)
    ensures
        count_matches(triples, target, start, end) <= if end > start { end - start } else { 0 },
    decreases end - start,
{
    if end > start {
        lemma_count_bound(triples, target, start, end - 1);
    }
}

/// Counts the triples of the store whose predicate matches, distributing
/// the search over the worker harts.
pub fn find_by_predicate(target_predicate: &SemanticAtom, triple_store: &TripleStore) -> (found: usize)
    ensures
        found == count_matches(
            triple_store.triples(),
            *target_predicate,
            0,
            triple_store.triples().len() as int,
        ),
{
    let mut navigator = SemanticNavigator::new();
    navigator.orchestrator_search(target_predicate, triple_store)
}

impl Default for SemanticNavigator {
    fn default() -> (n: Self)
        ensures
            n.matches() == Seq::<SearchResult>::empty(),
            n.completed() == 0,
    {
        Self::new()
    }
}

} // verus!
