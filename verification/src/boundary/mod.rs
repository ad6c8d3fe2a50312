//! Execution integrity boundary: evaluates state-transition claims against
//! typed predicates over a deterministic observation closure and produces
//! hash-identified accountability records.

pub mod model;
pub mod predicate;
pub mod gate;
pub mod fixtures;
pub mod laws;
pub mod report;

pub use crate::text::hex;
pub use fixtures::{
    create_boundary_descriptor, create_evaluation_snapshot, create_test_atom, create_test_evidence,
};
pub use gate::{DeterminismVerifier, ExecutionBoundaryGate};
pub use model::{
    Atom, BoundaryDescriptor, BoundaryError, CausalAccountabilityRecord, EvaluationSnapshot,
    EvidenceReference, ExecutionIntegrityClaim, PredicateDescriptor, PredicateError,
    PredicateResult, ReferencedState, RequestedTransition, SystemState, TransitionConstraints,
};
pub use predicate::{FinancialLimitPredicate, TransitionPredicate};
