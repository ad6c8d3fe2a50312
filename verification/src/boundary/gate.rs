//! Processing of claims at the execution boundary, and the determinism checks.

use vstd::prelude::*;
use crate::boundary::model::{
    BoundaryDescriptor, BoundaryDescriptorView, BoundaryError, BoundaryErrorView,
    CausalAccountabilityRecord, ClaimView, EvaluationSnapshot, EvaluationSnapshotView,
    ExecutionIntegrityClaim, PredicateError, PredicateResult, PredicateResultView, RecordView,
    RequestedTransition, SystemState, SystemStateView, TransitionView, claim_hash,
    predicate_error_message, snapshot_hash, state_hash, transition_debug, transition_debug_text,
};
use crate::boundary::predicate::{TransitionPredicate, eval_view};
use crate::hashing::digest_eq;
use crate::string_map::{
    insert_position, inserted, key_index, keys_unique, lemma_insert_position_le, lookup,
};
use crate::text::{decimal_spec, push_decimal};

verus! {

/// The balance an account holds in a state (zero when it has none).
pub open spec fn balance_of(s: SystemStateView, account: Seq<char>) -> nat {
    match lookup(s.account_balances, account) {
        Some(b) => b as nat,
        None => 0,
    }
}

/// The state after applying a transition: a transfer credits the recipient,
/// a configuration update stores the value under the key; commands leave the
/// state as it is.
pub open spec fn applied_state(s: SystemStateView, t: TransitionView) -> SystemStateView {
    match t {
        TransitionView::TransferFunds { amount, recipient } => SystemStateView {
            account_balances: inserted(
                s.account_balances,
                recipient,
                (balance_of(s, recipient) + amount) as u64,
            ),
            configuration: s.configuration,
            last_transition_id: s.last_transition_id,
        },
        TransitionView::UpdateConfiguration { key, value } => SystemStateView {
            account_balances: s.account_balances,
            configuration: inserted(s.configuration, key, value),
            last_transition_id: s.last_transition_id,
        },
        TransitionView::ExecuteCommand { .. } => s,
    }
}

/// Configuration entries with their values taken as text.
pub open spec fn text_entries(e: Seq<(Seq<char>, String)>) -> Seq<(Seq<char>, Seq<char>)> {
    e.map_values(|p: (Seq<char>, String)| (p.0, p.1@))
}

proof fn lemma_text_entries_position(e: Seq<(Seq<char>, String)>, k: Seq<char>)
    ensures
        insert_position(text_entries(e), k) == insert_position(e, k),
    decreases e.len(),
{
    if e.len() > 0 {
        assert(text_entries(e).drop_first() =~= text_entries(e.drop_first()));
        assert(text_entries(e)[0].0 == e[0].0);
        lemma_text_entries_position(e.drop_first(), k);
    }
}

proof fn lemma_text_entries_inserted(e: Seq<(Seq<char>, String)>, k: Seq<char>, v: String)
    requires
        keys_unique(e),
    ensures
        text_entries(inserted(e, k, v)) == inserted(text_entries(e), k, v@),
{
    let t = text_entries(e);
    if exists|i: int| 0 <= i < e.len() && #[trigger] e[i].0 == k {
        let i1 = choose|i: int| 0 <= i < e.len() && #[trigger] e[i].0 == k;
        assert(0 <= i1 < t.len() && t[i1].0 == k);
        let i2 = choose|i: int| 0 <= i < t.len() && #[trigger] t[i].0 == k;
        assert(t[i2].0 == e[i2].0);
        assert(i1 == i2);
        assert(key_index(t, k) == Some(i1));
        assert(text_entries(inserted(e, k, v)) =~= inserted(t, k, v@));
    } else {
        assert forall|i: int| 0 <= i < t.len() implies #[trigger] t[i].0 != k by {
            assert(t[i].0 == e[i].0);
        }
        assert(key_index(t, k) is None);
        lemma_text_entries_position(e, k);
        let p = insert_position(e, k) as int;
        assert(p <= e.len()) by {
            lemma_insert_position_le(e, k);
        }
        assert(text_entries(inserted(e, k, v)) =~= inserted(t, k, v@));
    }
}

/// Whether processing reaches the point of applying an approved transition.
pub open spec fn reaches_application(
    boundary: BoundaryDescriptorView,
    evaluation: Result<PredicateResultView, crate::boundary::model::PredicateErrorView>,
    claim: ClaimView,
    snapshot: EvaluationSnapshotView,
) -> bool {
    &&& snapshot.boundary == boundary
    &&& !claim.verification_path_bit
    &&& evaluation == Ok::<PredicateResultView, crate::boundary::model::PredicateErrorView>(
        PredicateResultView::Approved,
    )
}

/// A credit that processing would apply fits in a `u64`.
pub open spec fn credit_fits(state: SystemStateView, t: TransitionView) -> bool {
    match t {
        TransitionView::TransferFunds { amount, recipient } => balance_of(state, recipient) + amount
            <= u64::MAX,
        _ => true,
    }
}

/// The answer of boundary processing: a mismatched boundary descriptor and the extended
/// path are refused before evaluation; a predicate error, a rejection or
/// missing evidence is reported; an approved command is refused as not
/// implemented; any other approved transition yields a record of the claim,
/// the closure, the decision and the state before and after.
pub open spec fn gate_outcome(
    boundary: BoundaryDescriptorView,
    evaluation: Result<PredicateResultView, crate::boundary::model::PredicateErrorView>,
    claim: ClaimView,
    snapshot: EvaluationSnapshotView,
    state: SystemStateView,
) -> Result<RecordView, BoundaryErrorView> {
    if snapshot.boundary != boundary {
        Err(BoundaryErrorView::PredicateError("Snapshot boundary descriptor mismatch"@))
    } else if claim.verification_path_bit {
        Err(BoundaryErrorView::ExtendedVerificationRequired)
    } else {
        match evaluation {
            Err(e) => Err(BoundaryErrorView::PredicateError(predicate_error_message(e))),
            Ok(PredicateResultView::Rejected) => Err(BoundaryErrorView::PredicateRejected),
            Ok(PredicateResultView::IncompleteEvidence { missing }) => Err(
                BoundaryErrorView::IncompleteEvidence(
                    decimal_spec(missing.len()) + " pieces of evidence missing"@,
                ),
            ),
            Ok(PredicateResultView::Approved) => match claim.requested_transition {
                TransitionView::ExecuteCommand { .. } => Err(
                    BoundaryErrorView::InvalidTransition(
                        "Command execution not implemented in PoC"@,
                    ),
                ),
                t => Ok(
                    RecordView {
                        claim_hash: claim_hash(claim),
                        snapshot_hash: snapshot_hash(snapshot),
                        predicate_result: PredicateResultView::Approved,
                        state_before_hash: state_hash(state),
                        state_after_hash: state_hash(applied_state(state, t)),
                        actor_ref: claim.actor_ref,
                        transition_type: transition_debug(t),
                        boundary_version: boundary.semantic_version,
                    },
                ),
            },
        }
    }
}

/// The state after processing: changed only when a record is produced.
pub open spec fn gate_next_state(
    boundary: BoundaryDescriptorView,
    evaluation: Result<PredicateResultView, crate::boundary::model::PredicateErrorView>,
    claim: ClaimView,
    snapshot: EvaluationSnapshotView,
    state: SystemStateView,
) -> SystemStateView {
    if gate_outcome(boundary, evaluation, claim, snapshot, state) is Ok {
        applied_state(state, claim.requested_transition)
    } else {
        state
    }
}

/// The model of a processing answer.
pub open spec fn gate_view(r: Result<CausalAccountabilityRecord, BoundaryError>) -> Result<
    RecordView,
    BoundaryErrorView,
> {
    match r {
        Ok(rec) => Ok(rec@),
        Err(e) => Err(e@),
    }
}

/// Enforces the observation closure model and routes transitions.
pub struct ExecutionBoundaryGate<P: TransitionPredicate> {
    predicate: Box<P>,
    boundary_descriptor: BoundaryDescriptor,
}

impl<P: TransitionPredicate> ExecutionBoundaryGate<P> {
    /// The predicate this boundary evaluates.
    pub closed spec fn predicate(&self) -> P {
        *self.predicate
    }

    /// The boundary descriptor this boundary enforces.
    pub closed spec fn boundary(&self) -> BoundaryDescriptorView {
        self.boundary_descriptor@
    }

    /// A boundary for the given predicate and boundary descriptor.
    pub fn new(predicate: Box<P>, boundary_descriptor: BoundaryDescriptor) -> (g: Self)
        ensures
            g.predicate() == *predicate,
            g.boundary() == boundary_descriptor@,
    {
        ExecutionBoundaryGate { predicate, boundary_descriptor }
    }

    fn verify_snapshot_consistency(&self, snapshot: &EvaluationSnapshot) -> (r: Result<
        (),
        BoundaryError,
    >)
        ensures
            r is Ok <==> snapshot@.boundary == self.boundary(),
            r is Err ==> r->Err_0@ == BoundaryErrorView::PredicateError(
                "Snapshot boundary descriptor mismatch"@,
            ),
    {
        if !snapshot.boundary.same_as(&self.boundary_descriptor) {
            return Err(
                BoundaryError::PredicateError(
                    String::from_str("Snapshot boundary descriptor mismatch"),
                ),
            );
        }
        Ok(())
    }

    fn apply_transition(&self, claim: &ExecutionIntegrityClaim, state: &mut SystemState) -> (r:
        Result<(), BoundaryError>)
        requires
            credit_fits(old(state)@, claim@.requested_transition),
        ensures
            match claim@.requested_transition {
                TransitionView::ExecuteCommand { .. } => {
                    &&& r is Err
                    &&& r->Err_0@ == BoundaryErrorView::InvalidTransition(
                        "Command execution not implemented in PoC"@,
                    )
                    &&& final(state)@ == old(state)@
                },
                t => r is Ok && final(state)@ == applied_state(old(state)@, t),
            },
    {
        match &claim.requested_transition {
            RequestedTransition::TransferFunds { amount, recipient } => {
                let current: u64 = match state.account_balances.get(recipient.as_str()) {
                    Some(v) => *v,
                    None => 0,
                };
                state.account_balances.insert(recipient.clone(), current + *amount);
                Ok(())
            },
            RequestedTransition::UpdateConfiguration { key, value } => {
                let ghost before = state.configuration.entries();
                state.configuration.insert(key.clone(), value.clone());
                proof {
                    lemma_text_entries_inserted(before, key@, *value);
                }
                Ok(())
            },
            RequestedTransition::ExecuteCommand { .. } => {
                Err(
                    BoundaryError::InvalidTransition(
                        String::from_str("Command execution not implemented in PoC"),
                    ),
                )
            },
        }
    }

    /// Processes a claim: checks the snapshot's boundary descriptor, routes
    /// extended-path claims away, evaluates the predicate, and applies the
    /// transition only when it is approved, producing an accountability
    /// record.
    pub fn process_transition(
        &self,
        claim: ExecutionIntegrityClaim,
        snapshot: EvaluationSnapshot,
        state: &mut SystemState,
    ) -> (r: Result<CausalAccountabilityRecord, BoundaryError>)
        requires
            reaches_application(
                self.boundary(),
                self.predicate().spec_evaluate(claim@, snapshot@, old(state)@),
                claim@,
                snapshot@,
            ) ==> credit_fits(old(state)@, claim@.requested_transition),
        ensures
            gate_view(r) == gate_outcome(
                self.boundary(),
                self.predicate().spec_evaluate(claim@, snapshot@, old(state)@),
                claim@,
                snapshot@,
                old(state)@,
            ),
            final(state)@ == gate_next_state(
                self.boundary(),
                self.predicate().spec_evaluate(claim@, snapshot@, old(state)@),
                claim@,
                snapshot@,
                old(state)@,
            ),
    {
        let consistent = self.verify_snapshot_consistency(&snapshot);
        if let Err(e) = consistent {
            return Err(e);
        }
        if claim.verification_path_bit {
            return Err(BoundaryError::ExtendedVerificationRequired);
        }
        let state_before_hash = state.compute_hash();
        let evaluated = self.predicate.evaluate(&claim, &snapshot, &*state);
        let predicate_result = match evaluated {
            Ok(res) => res,
            Err(e) => {
                return Err(BoundaryError::PredicateError(e.to_display_string()));
            },
        };
        match predicate_result {
            PredicateResult::Approved => {
                let applied = self.apply_transition(&claim, state);
                if let Err(e) = applied {
                    return Err(e);
                }
                let state_after_hash = state.compute_hash();
                let record = CausalAccountabilityRecord {
                    claim_hash: claim.compute_hash(),
                    snapshot_hash: snapshot.compute_hash(),
                    predicate_result: PredicateResult::Approved,
                    state_before_hash,
                    state_after_hash,
                    actor_ref: claim.actor_ref.clone(),
                    transition_type: transition_debug_text(&claim.requested_transition),
                    boundary_version: self.boundary_descriptor.semantic_version.clone(),
                };
                Ok(record)
            },
            PredicateResult::Rejected => Err(BoundaryError::PredicateRejected),
            PredicateResult::IncompleteEvidence { missing } => {
                let mut msg = String::new();
                push_decimal(&mut msg, missing.len() as u64);
                msg.append(" pieces of evidence missing");
                Err(BoundaryError::IncompleteEvidence(msg))
            },
        }
    }
}

/// Utilities that check the determinism properties of predicates and records.
pub struct DeterminismVerifier;

impl DeterminismVerifier {
    /// Whether two snapshots have the same observation closure hash.
    pub fn are_observation_equivalent(
        snapshot1: &EvaluationSnapshot,
        snapshot2: &EvaluationSnapshot,
    ) -> (b: bool)
        ensures
            b == (snapshot_hash(snapshot1@) == snapshot_hash(snapshot2@)),
    {
        snapshot1.is_observation_equivalent(snapshot2)
    }

    /// Evaluates the predicate twice on the same inputs and reports a
    /// determinism violation if the two outcomes differ; otherwise returns the
    /// outcome.
    pub fn verify_determinism<P: TransitionPredicate>(
        predicate: &P,
        claim: &ExecutionIntegrityClaim,
        snapshot: &EvaluationSnapshot,
        state: &SystemState,
    ) -> (r: Result<PredicateResult, PredicateError>)
        ensures
            eval_view(r) == predicate.spec_evaluate(claim@, snapshot@, state@),
    {
        let result1 = predicate.evaluate(claim, snapshot, state)?;
        let result2 = predicate.evaluate(claim, snapshot, state)?;
        if !result1.same_as(&result2) {
            return Err(
                PredicateError::InternalError(
                    String::from_str(
                        "Determinism violation: identical inputs produced different results",
                    ),
                ),
            );
        }
        Ok(result1)
    }

    /// Whether two records carry the same observation closure and the same
    /// decision.
    pub fn are_records_deterministic_equivalent(
        record1: &CausalAccountabilityRecord,
        record2: &CausalAccountabilityRecord,
    ) -> (b: bool)
        ensures
            b == (record1@.snapshot_hash == record2@.snapshot_hash && record1@.predicate_result
                == record2@.predicate_result),
    {
        let same_closure = digest_eq(&record1.snapshot_hash, &record2.snapshot_hash);
        let same_result = record1.predicate_result.same_as(&record2.predicate_result);
        same_closure && same_result
    }
}

} // verus!
