//! Predicates: pure decisions over a claim, its observation closure and the
//! current state.

use vstd::prelude::*;
use crate::boundary::model::{
    ClaimView, EvaluationSnapshot, EvaluationSnapshotView, ExecutionIntegrityClaim,
    PredicateDescriptor, PredicateDescriptorView, PredicateError, PredicateErrorView,
    PredicateResult, PredicateResultView, RequestedTransition, SystemState, SystemStateView,
    TransitionView, transition_debug, transition_debug_text,
};

verus! {

/// The model of an evaluation outcome.
pub open spec fn eval_view(r: Result<PredicateResult, PredicateError>) -> Result<
    PredicateResultView,
    PredicateErrorView,
> {
    match r {
        Ok(x) => Ok(x@),
        Err(e) => Err(e@),
    }
}

/// A pure function over an observation closure.
///
/// An implementation's outcome is fixed by its `spec_evaluate`, a function of
/// the claim, the snapshot and the state alone: evaluating twice on the same
/// inputs gives the same outcome, and nothing else is read.
pub trait TransitionPredicate: Send + Sync {
    /// The descriptor this predicate reports.
    spec fn spec_descriptor(&self) -> PredicateDescriptorView;

    /// The outcome of evaluating on the given inputs.
    spec fn spec_evaluate(
        &self,
        claim: ClaimView,
        snapshot: EvaluationSnapshotView,
        state: SystemStateView,
    ) -> Result<PredicateResultView, PredicateErrorView>;

    /// Describes this predicate's implementation and version.
    fn descriptor(&self) -> (d: PredicateDescriptor)
        ensures
            d@ == self.spec_descriptor(),
    ;

    /// Evaluates the claim against the snapshot and the current state.
    fn evaluate(
        &self,
        claim: &ExecutionIntegrityClaim,
        snapshot: &EvaluationSnapshot,
        current_state: &SystemState,
    ) -> (r: Result<PredicateResult, PredicateError>)
        ensures
            eval_view(r) == self.spec_evaluate(claim@, snapshot@, current_state@),
    ;
}

/// Limits the amount of a funds transfer and may demand invoice evidence.
#[derive(Debug, Clone)]
pub struct FinancialLimitPredicate {
    pub max_transfer_amount: u64,
    pub require_invoice_evidence: bool,
}

/// The implementation marker of the financial limit predicate: `0xf1`
/// followed by 31 zero bytes.
pub open spec fn financial_implementation_hash() -> Seq<u8> {
    Seq::new(32, |i: int| if i == 0 { 0xf1u8 } else { 0u8 })
}

/// The descriptor of the financial limit predicate.
pub open spec fn financial_descriptor() -> PredicateDescriptorView {
    PredicateDescriptorView {
        predicate_id: "financial_limit_predicate"@,
        version: 1,
        implementation_hash: financial_implementation_hash(),
    }
}

/// The decision of the financial limit predicate: the snapshot must name
/// this predicate; only transfers are supported; a transfer above the limit
/// is rejected; one without evidence, when evidence is required, is
/// incomplete; anything else is approved.
pub open spec fn financial_evaluation(
    max_transfer_amount: u64,
    require_invoice_evidence: bool,
    claim: ClaimView,
    snapshot: EvaluationSnapshotView,
) -> Result<PredicateResultView, PredicateErrorView> {
    if snapshot.predicate != financial_descriptor() {
        Err(PredicateErrorView::DescriptorMismatch)
    } else {
        match claim.requested_transition {
            TransitionView::TransferFunds { amount, .. } => {
                if amount > max_transfer_amount {
                    Ok(PredicateResultView::Rejected)
                } else if require_invoice_evidence && claim.evidence_refs.len() == 0 {
                    Ok(PredicateResultView::IncompleteEvidence { missing: claim.evidence_refs })
                } else {
                    Ok(PredicateResultView::Approved)
                }
            },
            t => Err(PredicateErrorView::UnsupportedTransitionType(transition_debug(t))),
        }
    }
}

impl FinancialLimitPredicate {
    /// A predicate with the given limit and evidence requirement.
    pub fn new(max_transfer_amount: u64, require_invoice_evidence: bool) -> (p: Self)
        ensures
            p.max_transfer_amount == max_transfer_amount,
            p.require_invoice_evidence == require_invoice_evidence,
    {
        FinancialLimitPredicate { max_transfer_amount, require_invoice_evidence }
    }

    /// The implementation marker hash.
    pub fn implementation_hash() -> (h: [u8; 32])
        ensures
            h@ == financial_implementation_hash(),
    {
        let mut hash = [0u8; 32];
        hash[0] = 0xf1;
        assert(hash@ =~= financial_implementation_hash());
        hash
    }
}

impl TransitionPredicate for FinancialLimitPredicate {
    open spec fn spec_descriptor(&self) -> PredicateDescriptorView {
        financial_descriptor()
    }

    open spec fn spec_evaluate(
        &self,
        claim: ClaimView,
        snapshot: EvaluationSnapshotView,
        state: SystemStateView,
    ) -> Result<PredicateResultView, PredicateErrorView> {
        financial_evaluation(self.max_transfer_amount, self.require_invoice_evidence, claim, snapshot)
    }

    fn descriptor(&self) -> (d: PredicateDescriptor) {
        PredicateDescriptor {
            predicate_id: String::from_str("financial_limit_predicate"),
            version: 1,
            implementation_hash: Self::implementation_hash(),
        }
    }

    fn evaluate(
        &self,
        claim: &ExecutionIntegrityClaim,
        snapshot: &EvaluationSnapshot,
        current_state: &SystemState,
    ) -> (r: Result<PredicateResult, PredicateError>) {
        let own = self.descriptor();
        if !snapshot.predicate.same_as(&own) {
            return Err(PredicateError::DescriptorMismatch);
        }
        match &claim.requested_transition {
            RequestedTransition::TransferFunds { amount, .. } => {
                if *amount > self.max_transfer_amount {
                    return Ok(PredicateResult::Rejected);
                }
                if self.require_invoice_evidence && claim.evidence_refs.len() == 0 {
                    let missing: Vec<[u8; 32]> = Vec::new();
                    assert(missing@.map_values(|h: [u8; 32]| h@) =~= claim@.evidence_refs);
                    return Ok(PredicateResult::IncompleteEvidence { missing });
                }
                Ok(PredicateResult::Approved)
            },
            _ => Err(
                PredicateError::UnsupportedTransitionType(
                    transition_debug_text(&claim.requested_transition),
                ),
            ),
        }
    }
}

} // verus!
