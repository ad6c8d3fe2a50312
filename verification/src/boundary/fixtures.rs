//! Builders for the standard atoms, evidence, descriptors and snapshots used
//! by demonstrations and tests.

use vstd::prelude::*;
use crate::boundary::model::{
    Atom, BoundaryDescriptor, BoundaryDescriptorView, EvaluationSnapshot, EvaluationSnapshotView,
    EvidenceReference, EvidenceReferenceView, PredicateDescriptor, ReferencedState,
    ReferencedStateView,
};
use crate::text::{decimal_spec, push_decimal};

verus! {

/// An atom with the given identifier and an all-zero payload.
pub fn create_test_atom(global_id: u32) -> (a: Atom)
    ensures
        a.global_id == global_id,
        a.payload@ == Seq::new(28, |i: int| 0u8),
{
    let a = Atom { global_id, payload: [0u8; 28] };
    assert(a.payload@ =~= Seq::new(28, |i: int| 0u8));
    a
}

/// Evidence bytes `seed, seed+1, ..., seed+31`, each modulo 256.
pub open spec fn test_evidence(seed: u8) -> Seq<u8> {
    Seq::new(32, |i: int| ((seed + i) % 256) as u8)
}

/// Deterministic test evidence derived from a seed.
pub fn create_test_evidence(seed: u8) -> (e: [u8; 32])
    ensures
        e@ == test_evidence(seed),
{
    let mut evidence = [0u8; 32];
    let mut i: usize = 0;
    while i < 32
        invariant
            i <= 32,
            evidence@.len() == 32,
            forall|j: int| 0 <= j < i ==> evidence@[j] == ((seed + j) % 256) as u8,
        decreases 32 - i,
    {
        let v = seed.wrapping_add(i as u8);
        assert(v == ((seed + i) % 256) as u8) by {
            assert(i < 32);
        }
        evidence[i] = v;
        i = i + 1;
    }
    assert(evidence@ =~= test_evidence(seed));
    evidence
}

/// The standard boundary descriptor: version "1.0.0", marker hash `0xb0`
/// followed by zero bytes, routing semantics version 1.
pub open spec fn standard_boundary() -> BoundaryDescriptorView {
    BoundaryDescriptorView {
        semantic_version: "1.0.0"@,
        implementation_hash: Seq::new(32, |i: int| if i == 0 { 0xb0u8 } else { 0u8 }),
        routing_semantics_version: 1,
    }
}

/// The standard boundary descriptor.
pub fn create_boundary_descriptor() -> (d: BoundaryDescriptor)
    ensures
        d@ == standard_boundary(),
{
    let mut hash = [0u8; 32];
    hash[0] = 0xb0;
    assert(hash@ =~= Seq::new(32, |i: int| if i == 0 { 0xb0u8 } else { 0u8 }));
    BoundaryDescriptor {
        semantic_version: String::from_str("1.0.0"),
        implementation_hash: hash,
        routing_semantics_version: 1,
    }
}

/// The evidence references built for the given hashes: the `i`-th has type
/// `test_evidence_i` and was acquired at `1000 + i`.
pub open spec fn test_evidence_references(hashes: Seq<Seq<u8>>) -> Seq<EvidenceReferenceView> {
    Seq::new(
        hashes.len(),
        |i: int|
            EvidenceReferenceView {
                evidence_hash: hashes[i],
                evidence_type: "test_evidence_"@ + decimal_spec(i as nat),
                acquired_at: (1000 + i) as u64,
            },
    )
}

/// A snapshot observing the account ledger with the given state hash and the
/// given evidence, evaluated at time 1000.
pub fn create_evaluation_snapshot(
    predicate: PredicateDescriptor,
    boundary: BoundaryDescriptor,
    state_hash: [u8; 32],
    evidence_hashes: Vec<[u8; 32]>,
) -> (s: EvaluationSnapshot)
    requires
        evidence_hashes@.len() + 1000 <= u64::MAX,
    ensures
        s@ == (EvaluationSnapshotView {
            predicate: predicate@,
            boundary: boundary@,
            referenced_states: seq![
                ReferencedStateView { state_id: "account_ledger"@, state_hash: state_hash@ },
            ],
            evidence_references: test_evidence_references(
                evidence_hashes@.map_values(|h: [u8; 32]| h@),
            ),
            evaluation_timestamp: 1000,
        }),
{
    let ghost hashes = evidence_hashes@.map_values(|h: [u8; 32]| h@);
    let mut evidence_references: Vec<EvidenceReference> = Vec::new();
    let mut idx: usize = 0;
    while idx < evidence_hashes.len()
        invariant
            idx <= evidence_hashes@.len(),
            evidence_hashes@.len() + 1000 <= u64::MAX,
            hashes == evidence_hashes@.map_values(|h: [u8; 32]| h@),
            evidence_references@.map_values(|e: EvidenceReference| e@)
                == test_evidence_references(hashes).take(idx as int),
        decreases evidence_hashes@.len() - idx,
    {
        let mut evidence_type = String::from_str("test_evidence_");
        push_decimal(&mut evidence_type, idx as u64);
        let r = EvidenceReference {
            evidence_hash: evidence_hashes[idx],
            evidence_type,
            acquired_at: 1000 + idx as u64,
        };
        let ghost before = evidence_references@;
        proof {
            assert(r@ == test_evidence_references(hashes)[idx as int]);
        }
        evidence_references.push(r);
        proof {
            assert(evidence_references@ == before.push(r));
            assert(evidence_references@.map_values(|e: EvidenceReference| e@)
                =~= before.map_values(|e: EvidenceReference| e@).push(r@));
            assert(evidence_references@.map_values(|e: EvidenceReference| e@)
                =~= test_evidence_references(hashes).take(idx + 1));
        }
        idx = idx + 1;
    }
    proof {
        assert(test_evidence_references(hashes).take(hashes.len() as int) =~= test_evidence_references(hashes));
    }
    let mut referenced_states: Vec<ReferencedState> = Vec::new();
    referenced_states.push(
        ReferencedState { state_id: String::from_str("account_ledger"), state_hash },
    );
    let s = EvaluationSnapshot {
        predicate,
        boundary,
        referenced_states,
        evidence_references,
        evaluation_timestamp: 1000,
    };
    assert(s@.referenced_states =~= seq![
        ReferencedStateView { state_id: "account_ledger"@, state_hash: state_hash@ },
    ]);
    s
}

} // verus!
