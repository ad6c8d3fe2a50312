//! Properties of the execution boundary as a whole.

use vstd::prelude::*;
use crate::boundary::model::{
    bit31_set,
    BoundaryDescriptorView, BoundaryErrorView, ClaimView, EvaluationSnapshotView,
    PredicateErrorView, PredicateResultView, RecordView, SystemStateView, TransitionView,
    claim_hash, snapshot_hash, state_hash,
};
use crate::boundary::predicate::{financial_descriptor, financial_evaluation};
use crate::boundary::gate::{applied_state, balance_of, gate_next_state, gate_outcome};
use crate::string_map::{
    keys_sorted, law_insert_keeps_other_keys, law_lookup_after_insert, law_sorted_entries_determined_by_lookups,
    lookup,
};
use crate::boundary::model::{
    EvidenceReferenceView, ReferencedStateView, closure_well_formed, predicate_error_message,
    state_keys_sorted, evidence_well_formed,
    state_well_formed, boundary_descriptor_bytes, evidence_item_bytes,
    evidence_references_bytes, predicate_descriptor_bytes, referenced_states_bytes, snapshot_bytes,
    state_item_bytes,
};
use crate::hashing::sha256_spec;
use crate::text::framed;
use vstd::bytes::{lemma_auto_spec_u64_to_from_le_bytes, spec_u64_to_le_bytes};
use vstd::utf8::{encode_utf8, encode_utf8_decode_utf8};

verus! {

/// Two snapshots make the same observations: same predicate, boundary,
/// referenced states and evidence (the evaluation timestamp may differ).
pub open spec fn same_observation(a: EvaluationSnapshotView, b: EvaluationSnapshotView) -> bool {
    &&& a.predicate == b.predicate
    &&& a.boundary == b.boundary
    &&& a.referenced_states == b.referenced_states
    &&& a.evidence_references == b.evidence_references
}

/// The observation closure hash is determined by the observations alone;
/// in particular the evaluation timestamp does not affect it.
pub proof fn law_closure_hash_ignores_timestamp(a: EvaluationSnapshotView, b: EvaluationSnapshotView)
    requires
        same_observation(a, b),
    ensures
        snapshot_hash(a) == snapshot_hash(b),
{
}

/// The financial limit predicate's decision is determined by the claim and
/// the observation closure: snapshots that observe the same things get the
/// same decision.
pub proof fn law_financial_decision_determined_by_closure(
    max_transfer_amount: u64,
    require_invoice_evidence: bool,
    claim: ClaimView,
    a: EvaluationSnapshotView,
    b: EvaluationSnapshotView,
)
    requires
        same_observation(a, b),
    ensures
        financial_evaluation(max_transfer_amount, require_invoice_evidence, claim, a)
            == financial_evaluation(max_transfer_amount, require_invoice_evidence, claim, b),
{
}

/// Same claim, same observation closure, same predicate and same state give
/// the same answer (record included) and the same resulting state.
pub proof fn law_gate_determined_by_closure(
    boundary: BoundaryDescriptorView,
    max_transfer_amount: u64,
    require_invoice_evidence: bool,
    claim: ClaimView,
    a: EvaluationSnapshotView,
    b: EvaluationSnapshotView,
    state: SystemStateView,
)
    requires
        same_observation(a, b),
    ensures
        gate_outcome(
            boundary,
            financial_evaluation(max_transfer_amount, require_invoice_evidence, claim, a),
            claim,
            a,
            state,
        ) == gate_outcome(
            boundary,
            financial_evaluation(max_transfer_amount, require_invoice_evidence, claim, b),
            claim,
            b,
            state,
        ),
        gate_next_state(
            boundary,
            financial_evaluation(max_transfer_amount, require_invoice_evidence, claim, a),
            claim,
            a,
            state,
        ) == gate_next_state(
            boundary,
            financial_evaluation(max_transfer_amount, require_invoice_evidence, claim, b),
            claim,
            b,
            state,
        ),
{
    law_closure_hash_ignores_timestamp(a, b);
}

/// A claim whose verification path bit is set is deferred to extended
/// verification and leaves the state unchanged.
pub proof fn law_extended_path_defers(
    boundary: BoundaryDescriptorView,
    evaluation: Result<PredicateResultView, PredicateErrorView>,
    claim: ClaimView,
    snapshot: EvaluationSnapshotView,
    state: SystemStateView,
)
    requires
        snapshot.boundary == boundary,
        claim.verification_path_bit,
    ensures
        gate_outcome(boundary, evaluation, claim, snapshot, state) == Err::<RecordView, BoundaryErrorView>(
            BoundaryErrorView::ExtendedVerificationRequired,
        ),
        gate_next_state(boundary, evaluation, claim, snapshot, state) == state,
{
}

/// The state changes only when processing produces a record, and a record is
/// produced only for an approved decision.
pub proof fn law_state_changes_only_on_approval(
    boundary: BoundaryDescriptorView,
    evaluation: Result<PredicateResultView, PredicateErrorView>,
    claim: ClaimView,
    snapshot: EvaluationSnapshotView,
    state: SystemStateView,
)
    ensures
        gate_outcome(boundary, evaluation, claim, snapshot, state) is Err ==> gate_next_state(
            boundary,
            evaluation,
            claim,
            snapshot,
            state,
        ) == state,
        gate_outcome(boundary, evaluation, claim, snapshot, state) is Ok ==> evaluation == Ok::<
            PredicateResultView,
            PredicateErrorView,
        >(PredicateResultView::Approved),
{
}

/// A record identifies the claim and the observation closure by their
/// hashes, and the states before and after the transition by theirs.
pub proof fn law_record_identifies_transition(
    boundary: BoundaryDescriptorView,
    evaluation: Result<PredicateResultView, PredicateErrorView>,
    claim: ClaimView,
    snapshot: EvaluationSnapshotView,
    state: SystemStateView,
    record: RecordView,
)
    requires
        gate_outcome(boundary, evaluation, claim, snapshot, state) == Ok::<
            RecordView,
            BoundaryErrorView,
        >(record),
    ensures
        record.claim_hash == claim_hash(claim),
        record.snapshot_hash == snapshot_hash(snapshot),
        record.predicate_result == PredicateResultView::Approved,
        record.state_before_hash == state_hash(state),
        record.state_after_hash == state_hash(
            gate_next_state(boundary, evaluation, claim, snapshot, state),
        ),
{
}

/// A transfer credits exactly the amount to the recipient and changes no
/// other account and no configuration.
pub proof fn law_transfer_credits_recipient(
    state: SystemStateView,
    amount: u64,
    recipient: Seq<char>,
    other: Seq<char>,
)
    requires
        keys_sorted(state.account_balances),
        balance_of(state, recipient) + amount <= u64::MAX,
    ensures
        balance_of(
            applied_state(state, TransitionView::TransferFunds { amount, recipient }),
            recipient,
        ) == balance_of(state, recipient) + amount,
        other != recipient ==> lookup(
            applied_state(
                state,
                TransitionView::TransferFunds { amount, recipient },
            ).account_balances,
            other,
        ) == lookup(state.account_balances, other),
        applied_state(state, TransitionView::TransferFunds { amount, recipient }).configuration
            == state.configuration,
{
    let credited = (balance_of(state, recipient) + amount) as u64;
    law_lookup_after_insert(state.account_balances, recipient, credited);
    if other != recipient {
        law_insert_keeps_other_keys(state.account_balances, recipient, credited, other);
    }
}

/// A configuration update stores the value under its key and changes no
/// other entry and no balance.
pub proof fn law_update_configuration_stores_value(
    state: SystemStateView,
    key: Seq<char>,
    value: Seq<char>,
    other: Seq<char>,
)
    requires
        keys_sorted(state.configuration),
    ensures
        lookup(
            applied_state(
                state,
                TransitionView::UpdateConfiguration { key, value },
            ).configuration,
            key,
        ) == Some(value),
        other != key ==> lookup(
            applied_state(
                state,
                TransitionView::UpdateConfiguration { key, value },
            ).configuration,
            other,
        ) == lookup(state.configuration, other),
        applied_state(state, TransitionView::UpdateConfiguration { key, value }).account_balances
            == state.account_balances,
{
    law_lookup_after_insert(state.configuration, key, value);
    if other != key {
        law_insert_keeps_other_keys(state.configuration, key, value, other);
    }
}

// ========== INJECTIVITY OF THE CLOSURE ENCODING ==========

/// Equal concatenations with equally long first parts have equal parts.
proof fn lemma_split<A>(x1: Seq<A>, r1: Seq<A>, x2: Seq<A>, r2: Seq<A>)
    requires
        x1.len() == x2.len(),
        x1 + r1 == x2 + r2,
    ensures
        x1 == x2,
        r1 == r2,
{
    assert(x1 =~= (x1 + r1).subrange(0, x1.len() as int));
    assert(x2 =~= (x2 + r2).subrange(0, x2.len() as int));
    assert(r1 =~= (x1 + r1).subrange(x1.len() as int, (x1 + r1).len() as int));
    assert(r2 =~= (x2 + r2).subrange(x2.len() as int, (x2 + r2).len() as int));
}

/// Little-endian encodings of two integers are equal only for equal
/// integers, and are 8 bytes long.
proof fn lemma_le64(a: u64, b: u64)
    ensures
        spec_u64_to_le_bytes(a).len() == 8,
        spec_u64_to_le_bytes(b).len() == 8,
        spec_u64_to_le_bytes(a) == spec_u64_to_le_bytes(b) ==> a == b,
{
    lemma_auto_spec_u64_to_from_le_bytes();
}

/// A framed byte string followed by anything determines the string and the
/// rest.
proof fn lemma_framed(b1: Seq<u8>, r1: Seq<u8>, b2: Seq<u8>, r2: Seq<u8>)
    requires
        b1.len() <= u64::MAX,
        b2.len() <= u64::MAX,
        framed(b1) + r1 == framed(b2) + r2,
    ensures
        b1 == b2,
        r1 == r2,
{
    let l1 = spec_u64_to_le_bytes(b1.len() as u64);
    let l2 = spec_u64_to_le_bytes(b2.len() as u64);
    lemma_le64(b1.len() as u64, b2.len() as u64);
    assert(framed(b1) + r1 =~= l1 + (b1 + r1));
    assert(framed(b2) + r2 =~= l2 + (b2 + r2));
    lemma_split(l1, b1 + r1, l2, b2 + r2);
    lemma_split(b1, r1, b2, r2);
}

/// Distinct texts have distinct UTF-8 encodings.
proof fn lemma_utf8_injective(a: Seq<char>, b: Seq<char>)
    requires
        encode_utf8(a) == encode_utf8(b),
    ensures
        a == b,
{
    encode_utf8_decode_utf8(a);
    encode_utf8_decode_utf8(b);
}

proof fn lemma_state_item(a: ReferencedStateView, r1: Seq<u8>, b: ReferencedStateView, r2: Seq<u8>)
    requires
        state_well_formed(a),
        state_well_formed(b),
        state_item_bytes(a) + r1 == state_item_bytes(b) + r2,
    ensures
        a == b,
        r1 == r2,
{
    let ea = encode_utf8(a.state_id);
    let eb = encode_utf8(b.state_id);
    assert(state_item_bytes(a) + r1 =~= framed(ea) + (a.state_hash + r1));
    assert(state_item_bytes(b) + r2 =~= framed(eb) + (b.state_hash + r2));
    lemma_framed(ea, a.state_hash + r1, eb, b.state_hash + r2);
    lemma_split(a.state_hash, r1, b.state_hash, r2);
    lemma_utf8_injective(a.state_id, b.state_id);
}

proof fn lemma_evidence_item(a: EvidenceReferenceView, r1: Seq<u8>, b: EvidenceReferenceView, r2: Seq<u8>)
    requires
        evidence_well_formed(a),
        evidence_well_formed(b),
        evidence_item_bytes(a) + r1 == evidence_item_bytes(b) + r2,
    ensures
        a == b,
        r1 == r2,
{
    let ea = encode_utf8(a.evidence_type);
    let eb = encode_utf8(b.evidence_type);
    let ta = spec_u64_to_le_bytes(a.acquired_at);
    let tb = spec_u64_to_le_bytes(b.acquired_at);
    lemma_le64(a.acquired_at, b.acquired_at);
    lemma_le64(b.acquired_at, a.acquired_at);
    assert(evidence_item_bytes(a) + r1 =~= a.evidence_hash + (framed(ea) + (ta + r1)));
    assert(evidence_item_bytes(b) + r2 =~= b.evidence_hash + (framed(eb) + (tb + r2)));
    lemma_split(a.evidence_hash, framed(ea) + (ta + r1), b.evidence_hash, framed(eb) + (tb + r2));
    lemma_framed(ea, ta + r1, eb, tb + r2);
    lemma_split(ta, r1, tb, r2);
    lemma_utf8_injective(a.evidence_type, b.evidence_type);
}

proof fn lemma_states_front(states: Seq<ReferencedStateView>)
    requires
        states.len() > 0,
    ensures
        referenced_states_bytes(states) == state_item_bytes(states[0]) + referenced_states_bytes(
            states.drop_first(),
        ),
    decreases states.len(),
{
    if states.len() == 1 {
        assert(states.drop_last() =~= Seq::<ReferencedStateView>::empty());
        assert(states.drop_first() =~= Seq::<ReferencedStateView>::empty());
        assert(referenced_states_bytes(states.drop_last()) == Seq::<u8>::empty());
        assert(referenced_states_bytes(states.drop_first()) == Seq::<u8>::empty());
        assert(referenced_states_bytes(states) =~= state_item_bytes(states[0]));
    } else {
        lemma_states_front(states.drop_last());
        assert(states.drop_last().drop_first() =~= states.drop_first().drop_last());
        assert(states.drop_first().last() == states.last());
        assert(referenced_states_bytes(states) =~= state_item_bytes(states[0]) + referenced_states_bytes(
            states.drop_first(),
        ));
    }
}

proof fn lemma_evidence_front(evidence: Seq<EvidenceReferenceView>)
    requires
        evidence.len() > 0,
    ensures
        evidence_references_bytes(evidence) == evidence_item_bytes(evidence[0]) + evidence_references_bytes(
            evidence.drop_first(),
        ),
    decreases evidence.len(),
{
    if evidence.len() == 1 {
        assert(evidence.drop_last() =~= Seq::<EvidenceReferenceView>::empty());
        assert(evidence.drop_first() =~= Seq::<EvidenceReferenceView>::empty());
        assert(evidence_references_bytes(evidence.drop_last()) == Seq::<u8>::empty());
        assert(evidence_references_bytes(evidence.drop_first()) == Seq::<u8>::empty());
        assert(evidence_references_bytes(evidence) =~= evidence_item_bytes(evidence[0]));
    } else {
        lemma_evidence_front(evidence.drop_last());
        assert(evidence.drop_last().drop_first() =~= evidence.drop_first().drop_last());
        assert(evidence.drop_first().last() == evidence.last());
        assert(evidence_references_bytes(evidence) =~= evidence_item_bytes(evidence[0])
            + evidence_references_bytes(evidence.drop_first()));
    }
}

proof fn lemma_states_injective(
    sa: Seq<ReferencedStateView>,
    r1: Seq<u8>,
    sb: Seq<ReferencedStateView>,
    r2: Seq<u8>,
)
    requires
        sa.len() == sb.len(),
        forall|i: int| 0 <= i < sa.len() ==> state_well_formed(#[trigger] sa[i]),
        forall|i: int| 0 <= i < sb.len() ==> state_well_formed(#[trigger] sb[i]),
        referenced_states_bytes(sa) + r1 == referenced_states_bytes(sb) + r2,
    ensures
        sa == sb,
        r1 == r2,
    decreases sa.len(),
{
    if sa.len() == 0 {
        assert(referenced_states_bytes(sa) + r1 =~= r1);
        assert(referenced_states_bytes(sb) + r2 =~= r2);
        assert(sa =~= sb);
    } else {
        lemma_states_front(sa);
        lemma_states_front(sb);
        let ta = referenced_states_bytes(sa.drop_first());
        let tb = referenced_states_bytes(sb.drop_first());
        assert(referenced_states_bytes(sa) + r1 =~= state_item_bytes(sa[0]) + (ta + r1));
        assert(referenced_states_bytes(sb) + r2 =~= state_item_bytes(sb[0]) + (tb + r2));
        lemma_state_item(sa[0], ta + r1, sb[0], tb + r2);
        lemma_states_injective(sa.drop_first(), r1, sb.drop_first(), r2);
        assert(sa =~= sb) by {
            assert forall|i: int| 0 <= i < sa.len() implies sa[i] == sb[i] by {
                if i > 0 {
                    assert(sa[i] == sa.drop_first()[i - 1]);
                    assert(sb[i] == sb.drop_first()[i - 1]);
                }
            }
        }
    }
}

proof fn lemma_evidence_injective(
    sa: Seq<EvidenceReferenceView>,
    r1: Seq<u8>,
    sb: Seq<EvidenceReferenceView>,
    r2: Seq<u8>,
)
    requires
        sa.len() == sb.len(),
        forall|i: int| 0 <= i < sa.len() ==> evidence_well_formed(#[trigger] sa[i]),
        forall|i: int| 0 <= i < sb.len() ==> evidence_well_formed(#[trigger] sb[i]),
        evidence_references_bytes(sa) + r1 == evidence_references_bytes(sb) + r2,
    ensures
        sa == sb,
        r1 == r2,
    decreases sa.len(),
{
    if sa.len() == 0 {
        assert(evidence_references_bytes(sa) + r1 =~= r1);
        assert(evidence_references_bytes(sb) + r2 =~= r2);
        assert(sa =~= sb);
    } else {
        lemma_evidence_front(sa);
        lemma_evidence_front(sb);
        let ta = evidence_references_bytes(sa.drop_first());
        let tb = evidence_references_bytes(sb.drop_first());
        assert(evidence_references_bytes(sa) + r1 =~= evidence_item_bytes(sa[0]) + (ta + r1));
        assert(evidence_references_bytes(sb) + r2 =~= evidence_item_bytes(sb[0]) + (tb + r2));
        lemma_evidence_item(sa[0], ta + r1, sb[0], tb + r2);
        lemma_evidence_injective(sa.drop_first(), r1, sb.drop_first(), r2);
        assert(sa =~= sb) by {
            assert forall|i: int| 0 <= i < sa.len() implies sa[i] == sb[i] by {
                if i > 0 {
                    assert(sa[i] == sa.drop_first()[i - 1]);
                    assert(sb[i] == sb.drop_first()[i - 1]);
                }
            }
        }
    }
}

/// The closure encoding is injective: two well-formed snapshots with the
/// same canonical bytes have the same predicate and boundary descriptor
/// digests, the same referenced states and the same evidence references,
/// in the same order. So snapshots that observe different things hash the
/// same only through a SHA-256 collision.
pub proof fn law_closure_encoding_injective(a: EvaluationSnapshotView, b: EvaluationSnapshotView)
    requires
        closure_well_formed(a),
        closure_well_formed(b),
        snapshot_bytes(a) == snapshot_bytes(b),
    ensures
        sha256_spec(predicate_descriptor_bytes(a.predicate)) == sha256_spec(
            predicate_descriptor_bytes(b.predicate),
        ),
        sha256_spec(boundary_descriptor_bytes(a.boundary)) == sha256_spec(
            boundary_descriptor_bytes(b.boundary),
        ),
        a.referenced_states == b.referenced_states,
        a.evidence_references == b.evidence_references,
{
    let pa = sha256_spec(predicate_descriptor_bytes(a.predicate));
    let pb = sha256_spec(predicate_descriptor_bytes(b.predicate));
    let ba = sha256_spec(boundary_descriptor_bytes(a.boundary));
    let bb = sha256_spec(boundary_descriptor_bytes(b.boundary));
    let na = spec_u64_to_le_bytes(a.referenced_states.len() as u64);
    let nb = spec_u64_to_le_bytes(b.referenced_states.len() as u64);
    let ma = spec_u64_to_le_bytes(a.evidence_references.len() as u64);
    let mb = spec_u64_to_le_bytes(b.evidence_references.len() as u64);
    let sa = referenced_states_bytes(a.referenced_states);
    let sb = referenced_states_bytes(b.referenced_states);
    let ea = evidence_references_bytes(a.evidence_references);
    let eb = evidence_references_bytes(b.evidence_references);
    lemma_le64(a.referenced_states.len() as u64, b.referenced_states.len() as u64);
    lemma_le64(a.evidence_references.len() as u64, b.evidence_references.len() as u64);
    assert(snapshot_bytes(a) =~= pa + (ba + (na + (sa + (ma + ea)))));
    assert(snapshot_bytes(b) =~= pb + (bb + (nb + (sb + (mb + eb)))));
    lemma_split(pa, ba + (na + (sa + (ma + ea))), pb, bb + (nb + (sb + (mb + eb))));
    lemma_split(ba, na + (sa + (ma + ea)), bb, nb + (sb + (mb + eb)));
    lemma_split(na, sa + (ma + ea), nb, sb + (mb + eb));
    lemma_states_injective(a.referenced_states, ma + ea, b.referenced_states, mb + eb);
    lemma_split(ma, ea, mb, eb);
    assert(ea + Seq::<u8>::empty() =~= ea);
    assert(eb + Seq::<u8>::empty() =~= eb);
    lemma_evidence_injective(a.evidence_references, Seq::empty(), b.evidence_references, Seq::empty());
}

/// The state hash is canonical: two states whose maps agree on every key
/// (however they were filled) and that have the same last transition have
/// the same hash.
pub proof fn law_state_hash_canonical(a: SystemStateView, b: SystemStateView)
    requires
        state_keys_sorted(a),
        state_keys_sorted(b),
        forall|k: Seq<char>| #[trigger] lookup(a.account_balances, k) == lookup(b.account_balances, k),
        forall|k: Seq<char>| #[trigger] lookup(a.configuration, k) == lookup(b.configuration, k),
        a.last_transition_id == b.last_transition_id,
    ensures
        state_hash(a) == state_hash(b),
{
    law_sorted_entries_determined_by_lookups(a.account_balances, b.account_balances);
    law_sorted_entries_determined_by_lookups(a.configuration, b.configuration);
    assert(a == b);
}

/// A snapshot taken against another boundary descriptor is refused with the
/// mismatch error before anything is evaluated, and the state is unchanged.
pub proof fn law_boundary_mismatch_refused(
    boundary: BoundaryDescriptorView,
    evaluation: Result<PredicateResultView, PredicateErrorView>,
    claim: ClaimView,
    snapshot: EvaluationSnapshotView,
    state: SystemStateView,
)
    requires
        snapshot.boundary != boundary,
    ensures
        gate_outcome(boundary, evaluation, claim, snapshot, state) == Err::<RecordView, BoundaryErrorView>(
            BoundaryErrorView::PredicateError("Snapshot boundary descriptor mismatch"@),
        ),
        gate_next_state(boundary, evaluation, claim, snapshot, state) == state,
{
}

/// No predicate error reads as the boundary mismatch message.
proof fn lemma_predicate_messages_differ_from_mismatch(e: PredicateErrorView)
    ensures
        predicate_error_message(e) != "Snapshot boundary descriptor mismatch"@,
{
    reveal_strlit("Snapshot boundary descriptor mismatch");
    reveal_strlit("Predicate descriptor mismatch");
    reveal_strlit("Unsupported transition type: ");
    reveal_strlit("State reference not found: ");
    reveal_strlit("Evidence reference not found: ");
    reveal_strlit("Internal predicate error: ");
    let m = predicate_error_message(e);
    let lit = "Snapshot boundary descriptor mismatch"@;
    assert(m[0] != lit[0] || m[1] != lit[1]);
}

/// Processing fails with the boundary mismatch error exactly when the
/// snapshot was taken against another boundary descriptor; and every
/// record carries the boundary's semantic version.
pub proof fn law_boundary_mismatch_iff(
    boundary: BoundaryDescriptorView,
    evaluation: Result<PredicateResultView, PredicateErrorView>,
    claim: ClaimView,
    snapshot: EvaluationSnapshotView,
    state: SystemStateView,
)
    ensures
        (gate_outcome(boundary, evaluation, claim, snapshot, state) == Err::<RecordView, BoundaryErrorView>(
            BoundaryErrorView::PredicateError("Snapshot boundary descriptor mismatch"@),
        )) <==> snapshot.boundary != boundary,
        gate_outcome(boundary, evaluation, claim, snapshot, state) is Ok ==> gate_outcome(
            boundary,
            evaluation,
            claim,
            snapshot,
            state,
        )->Ok_0.boundary_version == boundary.semantic_version,
{
    match evaluation {
        Err(e) => lemma_predicate_messages_differ_from_mismatch(e),
        Ok(_) => {},
    }
}

/// The financial limit predicate decides a transfer by the predicate's own
/// limit, whatever limit the claim's constraints carry: a transfer above the
/// predicate's maximum is rejected; one within it is approved when evidence
/// is present or not required, and reported as missing evidence otherwise.
/// Any other transition is refused with an error, and so is a snapshot that
/// names another predicate.
pub proof fn law_financial_limit_decides(
    max_transfer_amount: u64,
    require_invoice_evidence: bool,
    claim: ClaimView,
    snapshot: EvaluationSnapshotView,
)
    ensures
        snapshot.predicate != financial_descriptor() ==> financial_evaluation(
            max_transfer_amount,
            require_invoice_evidence,
            claim,
            snapshot,
        ) == Err::<PredicateResultView, PredicateErrorView>(PredicateErrorView::DescriptorMismatch),
        snapshot.predicate == financial_descriptor() ==> match claim.requested_transition {
            TransitionView::TransferFunds { amount, .. } => {
                &&& amount > max_transfer_amount ==> financial_evaluation(
                    max_transfer_amount,
                    require_invoice_evidence,
                    claim,
                    snapshot,
                ) == Ok::<PredicateResultView, PredicateErrorView>(PredicateResultView::Rejected)
                &&& amount <= max_transfer_amount && (!require_invoice_evidence
                    || claim.evidence_refs.len() > 0) ==> financial_evaluation(
                    max_transfer_amount,
                    require_invoice_evidence,
                    claim,
                    snapshot,
                ) == Ok::<PredicateResultView, PredicateErrorView>(PredicateResultView::Approved)
                &&& amount <= max_transfer_amount && require_invoice_evidence
                    && claim.evidence_refs.len() == 0 ==> financial_evaluation(
                    max_transfer_amount,
                    require_invoice_evidence,
                    claim,
                    snapshot,
                ) == Ok::<PredicateResultView, PredicateErrorView>(
                    PredicateResultView::IncompleteEvidence { missing: Seq::empty() },
                )
            },
            _ => financial_evaluation(max_transfer_amount, require_invoice_evidence, claim, snapshot) is Err,
        },
{
    assert(claim.evidence_refs.len() == 0 ==> claim.evidence_refs =~= Seq::<Seq<u8>>::empty());
}

/// The descriptor the financial limit predicate answers to: identifier
/// `financial_limit_predicate`, version 1, implementation hash `0xf1`
/// followed by zeros.
pub proof fn law_financial_descriptor_fields()
    ensures
        financial_descriptor().predicate_id == "financial_limit_predicate"@,
        financial_descriptor().version == 1,
        financial_descriptor().implementation_hash.len() == 32,
        financial_descriptor().implementation_hash[0] == 0xf1,
        forall|i: int| 1 <= i < 32 ==> financial_descriptor().implementation_hash[i] == 0,
{
}

/// A claim takes the extended path exactly when bit 31 of its primary atom's
/// identifier is set: identifiers from `0x8000_0000` up, and no others.
pub proof fn law_routing_bit_is_bit_31(id: u32)
    ensures
        bit31_set(id) <==> id / 0x8000_0000 == 1,
        bit31_set(id) <==> (id & 0x8000_0000) != 0,
        bit31_set(0x8000_0000),
        bit31_set(0xFFFF_FFFF),
        !bit31_set(0x7FFF_FFFF),
        !bit31_set(0x4000_0001),
{
    assert(((id & 0x8000_0000u32) != 0) == (id / 0x8000_0000u32 == 1)) by (bit_vector);
}

} // verus!
