//! Claims, predicates, state mutation and records at the execution boundary.

use omwei::boundary::{
    create_boundary_descriptor, create_evaluation_snapshot, create_test_atom, create_test_evidence,
    hex, BoundaryDescriptor, BoundaryError, DeterminismVerifier, ExecutionBoundaryGate,
    ExecutionIntegrityClaim, FinancialLimitPredicate, PredicateDescriptor, PredicateError,
    PredicateResult, RequestedTransition, SystemState, TransitionConstraints, TransitionPredicate,
};
use omwei::boundary::model::{constraints_debug_text, encode_claim};
use omwei::boundary::{EvaluationSnapshot, EvidenceReference, ReferencedState};
use sha2::{Digest, Sha256};

fn sha256(data: &[u8]) -> [u8; 32] {
    Sha256::digest(data).into()
}

fn transfer_claim(amount: u64, evidence: Vec<[u8; 32]>, atom_id: u32) -> ExecutionIntegrityClaim {
    ExecutionIntegrityClaim::new(
        RequestedTransition::TransferFunds {
            amount,
            recipient: "recipient@example.com".to_string(),
        },
        "agent-test".to_string(),
        evidence,
        TransitionConstraints::default(),
        create_test_atom(atom_id),
    )
}

fn funded_state() -> SystemState {
    let mut state = SystemState::new();
    state.account_balances.insert("recipient@example.com".to_string(), 100_000);
    state
}

#[test]
fn test_determinism_identical_snapshots() {
    let predicate = FinancialLimitPredicate::new(50_000, true);
    let mut state = SystemState::new();
    state.account_balances.insert("recipient@example.com".to_string(), 100_000);

    let claim = ExecutionIntegrityClaim::new(
        RequestedTransition::TransferFunds {
            amount: 10_000,
            recipient: "recipient@example.com".to_string(),
        },
        "agent-test".to_string(),
        vec![create_test_evidence(1)],
        TransitionConstraints::default(),
        create_test_atom(0x00000001),
    );

    let boundary = create_boundary_descriptor();
    let snapshot1 = create_evaluation_snapshot(
        predicate.descriptor(),
        boundary.clone(),
        state.compute_hash(),
        vec![create_test_evidence(1)],
    );
    let snapshot2 = snapshot1.clone();

    assert_eq!(snapshot1.compute_hash(), snapshot2.compute_hash());

    let result1 = predicate.evaluate(&claim, &snapshot1, &state).unwrap();
    let result2 = predicate.evaluate(&claim, &snapshot2, &state).unwrap();
    assert_eq!(result1, result2);
}

#[test]
fn test_state_mutation_on_predicate_success() {
    let mut state = SystemState::new();
    state.account_balances.insert("recipient@example.com".to_string(), 100_000);

    let claim = ExecutionIntegrityClaim::new(
        RequestedTransition::TransferFunds {
            amount: 10_000,
            recipient: "recipient@example.com".to_string(),
        },
        "agent-test".to_string(),
        vec![create_test_evidence(1)],
        TransitionConstraints::default(),
        create_test_atom(0x00000001),
    );

    let predicate = FinancialLimitPredicate::new(50_000, true);
    let boundary = create_boundary_descriptor();
    let snapshot = create_evaluation_snapshot(
        predicate.descriptor(),
        boundary.clone(),
        state.compute_hash(),
        vec![create_test_evidence(1)],
    );

    let gate = ExecutionBoundaryGate::new(Box::new(predicate), boundary);

    let result = gate.process_transition(claim, snapshot, &mut state);

    assert!(result.is_ok());
    assert_eq!(state.account_balances.get("recipient@example.com"), Some(&110_000));
}

#[test]
fn test_verification_path_bit_extraction() {
    let atom_inline = create_test_atom(0x00000001);
    let claim_inline = ExecutionIntegrityClaim::new(
        RequestedTransition::TransferFunds {
            amount: 10_000,
            recipient: "test@example.com".to_string(),
        },
        "agent-test".to_string(),
        vec![],
        TransitionConstraints::default(),
        atom_inline,
    );
    assert_eq!(claim_inline.verification_path_bit, false);

    let atom_extended = create_test_atom(0x80000001);
    let claim_extended = ExecutionIntegrityClaim::new(
        RequestedTransition::TransferFunds {
            amount: 10_000,
            recipient: "test@example.com".to_string(),
        },
        "agent-test".to_string(),
        vec![],
        TransitionConstraints::default(),
        atom_extended,
    );
    assert_eq!(claim_extended.verification_path_bit, true);
}

#[test]
fn test_observation_closure_equivalence() {
    let predicate = FinancialLimitPredicate::new(50_000, true);
    let boundary = create_boundary_descriptor();
    let state = SystemState::new();

    let snapshot1 = create_evaluation_snapshot(
        predicate.descriptor(),
        boundary.clone(),
        state.compute_hash(),
        vec![create_test_evidence(1), create_test_evidence(2)],
    );

    let snapshot2 = create_evaluation_snapshot(
        predicate.descriptor(),
        boundary.clone(),
        state.compute_hash(),
        vec![create_test_evidence(1), create_test_evidence(2)],
    );

    assert!(snapshot1.is_observation_equivalent(&snapshot2));
}

#[test]
fn descriptor_hash_is_the_standard_digest_of_its_bytes() {
    // Canonical bytes "abc" + version 0 (four zero bytes) + an empty-looking
    // marker are hashed; compare with a digest computed independently.
    let d = PredicateDescriptor {
        predicate_id: "abc".to_string(),
        version: 0,
        implementation_hash: [0u8; 32],
    };
    let mut bytes = b"abc".to_vec();
    bytes.extend_from_slice(&[0u8; 36]);
    assert_eq!(d.canonical_bytes(), bytes);
    assert_eq!(d.compute_hash(), sha256(&bytes));
    assert_ne!(d.compute_hash().to_vec(), bytes[..32].to_vec());
}

#[test]
fn empty_state_hash_is_the_digest_of_nothing() {
    let state = SystemState::new();
    assert_eq!(
        hex(&state.compute_hash()),
        "e3b0c44298fc1c149afbf4c8996fb92427ae41e4649b934ca495991b7852b855"
    );
}

#[test]
fn descriptor_hash_is_sha256_of_canonical_bytes() {
    let d = PredicateDescriptor {
        predicate_id: "ab".to_string(),
        version: 0x0102_0304,
        implementation_hash: [7u8; 32],
    };
    let bytes = d.canonical_bytes();
    let mut expected = vec![b'a', b'b', 0x04, 0x03, 0x02, 0x01];
    expected.extend_from_slice(&[7u8; 32]);
    assert_eq!(bytes, expected);
    assert_eq!(d.compute_hash(), sha256(&expected));

    let b = BoundaryDescriptor {
        semantic_version: "1".to_string(),
        implementation_hash: [9u8; 32],
        routing_semantics_version: 2,
    };
    let mut expected_b = vec![b'1'];
    expected_b.extend_from_slice(&[9u8; 32]);
    expected_b.extend_from_slice(&[2, 0, 0, 0]);
    assert_eq!(b.canonical_bytes(), expected_b);
    assert_eq!(b.compute_hash(), sha256(&expected_b));
}

#[test]
fn snapshot_bytes_follow_the_canonical_order() {
    let predicate = FinancialLimitPredicate::new(50_000, true);
    let boundary = create_boundary_descriptor();
    let snapshot = create_evaluation_snapshot(
        predicate.descriptor(),
        boundary.clone(),
        [3u8; 32],
        vec![create_test_evidence(5)],
    );
    let mut expected = Vec::new();
    expected.extend_from_slice(&predicate.descriptor().compute_hash());
    expected.extend_from_slice(&boundary.compute_hash());
    expected.extend_from_slice(&1u64.to_le_bytes());
    expected.extend_from_slice(&14u64.to_le_bytes());
    expected.extend_from_slice(b"account_ledger");
    expected.extend_from_slice(&[3u8; 32]);
    expected.extend_from_slice(&1u64.to_le_bytes());
    expected.extend_from_slice(&create_test_evidence(5));
    expected.extend_from_slice(&15u64.to_le_bytes());
    expected.extend_from_slice(b"test_evidence_0");
    expected.extend_from_slice(&1000u64.to_le_bytes());
    assert_eq!(snapshot.canonical_bytes(), expected);
    assert_eq!(snapshot.compute_hash(), sha256(&expected));
}

#[test]
fn claim_encoding_and_debug_texts() {
    let claim = transfer_claim(10_000, vec![create_test_evidence(1)], 0x8000_0000);
    let t = "TransferFunds { amount: 10000, recipient: \"recipient@example.com\" }";
    let c = constraints_debug_text(&claim.constraints);
    assert_eq!(
        c,
        "TransitionConstraints { max_amount: Some(50000), time_window_start: None, time_window_end: None, required_evidence_count: 1 }"
    );
    let bytes = encode_claim(t, "agent-test", &[create_test_evidence(1)], &c, true);
    let mut expected = Vec::new();
    expected.extend_from_slice(t.as_bytes());
    expected.extend_from_slice(b"agent-test");
    expected.extend_from_slice(&create_test_evidence(1));
    expected.extend_from_slice(c.as_bytes());
    expected.push(1);
    assert_eq!(bytes, expected);
    assert_eq!(claim.canonical_bytes(), expected);
    assert_eq!(claim.compute_hash(), sha256(&expected));
}

#[test]
fn test_evidence_wraps_around() {
    let e = create_test_evidence(250);
    assert_eq!(e[0], 250);
    assert_eq!(e[5], 255);
    assert_eq!(e[6], 0);
    assert_eq!(e[31], 25);
}

#[test]
fn hex_renders_two_lowercase_digits_per_byte() {
    assert_eq!(hex(&[]), "");
    assert_eq!(hex(&[0x00, 0x0f, 0xa0, 0xff]), "000fa0ff");
}

#[test]
fn evaluation_snapshot_fixture_numbers_evidence() {
    let predicate = FinancialLimitPredicate::new(1, false);
    let s = create_evaluation_snapshot(
        predicate.descriptor(),
        create_boundary_descriptor(),
        [0u8; 32],
        vec![[1u8; 32], [2u8; 32], [3u8; 32]],
    );
    assert_eq!(s.evaluation_timestamp, 1000);
    assert_eq!(s.referenced_states.len(), 1);
    assert_eq!(s.referenced_states[0].state_id, "account_ledger");
    assert_eq!(s.evidence_references.len(), 3);
    assert_eq!(s.evidence_references[2].evidence_type, "test_evidence_2");
    assert_eq!(s.evidence_references[2].acquired_at, 1002);
    assert_eq!(s.evidence_references[1].evidence_hash, [2u8; 32]);
}

#[test]
fn boundary_descriptor_fixture() {
    let b = create_boundary_descriptor();
    assert_eq!(b.semantic_version, "1.0.0");
    assert_eq!(b.implementation_hash[0], 0xb0);
    assert!(b.implementation_hash[1..].iter().all(|x| *x == 0));
    assert_eq!(b.routing_semantics_version, 1);
}

#[test]
fn financial_predicate_decisions() {
    let predicate = FinancialLimitPredicate::new(50_000, true);
    let state = funded_state();
    let snapshot = create_evaluation_snapshot(
        predicate.descriptor(),
        create_boundary_descriptor(),
        state.compute_hash(),
        vec![],
    );
    let over = transfer_claim(50_001, vec![create_test_evidence(1)], 1);
    assert_eq!(predicate.evaluate(&over, &snapshot, &state), Ok(PredicateResult::Rejected));
    let at_limit = transfer_claim(50_000, vec![create_test_evidence(1)], 1);
    assert_eq!(predicate.evaluate(&at_limit, &snapshot, &state), Ok(PredicateResult::Approved));
    let no_evidence = transfer_claim(1, vec![], 1);
    assert_eq!(
        predicate.evaluate(&no_evidence, &snapshot, &state),
        Ok(PredicateResult::IncompleteEvidence { missing: vec![] })
    );
    let lenient = FinancialLimitPredicate::new(50_000, false);
    assert_eq!(lenient.evaluate(&no_evidence, &snapshot, &state), Ok(PredicateResult::Approved));

    let config = ExecutionIntegrityClaim::new(
        RequestedTransition::UpdateConfiguration { key: "k".to_string(), value: "v".to_string() },
        "agent".to_string(),
        vec![],
        TransitionConstraints::default(),
        create_test_atom(1),
    );
    assert_eq!(
        predicate.evaluate(&config, &snapshot, &state),
        Err(PredicateError::UnsupportedTransitionType(
            "UpdateConfiguration { key: \"k\", value: \"v\" }".to_string()
        ))
    );

    let other = PredicateDescriptor {
        predicate_id: "other".to_string(),
        version: 1,
        implementation_hash: FinancialLimitPredicate::implementation_hash(),
    };
    let foreign = create_evaluation_snapshot(other, create_boundary_descriptor(), [0u8; 32], vec![]);
    assert_eq!(
        predicate.evaluate(&at_limit, &foreign, &state),
        Err(PredicateError::DescriptorMismatch)
    );
}

#[test]
fn implementation_hash_marker() {
    let h = FinancialLimitPredicate::implementation_hash();
    assert_eq!(h[0], 0xf1);
    assert!(h[1..].iter().all(|x| *x == 0));
    let d = FinancialLimitPredicate::new(5, true).descriptor();
    assert_eq!(d.predicate_id, "financial_limit_predicate");
    assert_eq!(d.version, 1);
    assert_eq!(d.implementation_hash, h);
}

fn gate() -> ExecutionBoundaryGate<FinancialLimitPredicate> {
    ExecutionBoundaryGate::new(
        Box::new(FinancialLimitPredicate::new(50_000, true)),
        create_boundary_descriptor(),
    )
}

fn snapshot_for(state: &SystemState) -> omwei::boundary::EvaluationSnapshot {
    create_evaluation_snapshot(
        FinancialLimitPredicate::new(50_000, true).descriptor(),
        create_boundary_descriptor(),
        state.compute_hash(),
        vec![create_test_evidence(1)],
    )
}

#[test]
fn process_transition_record_contents() {
    let mut state = funded_state();
    let before = state.compute_hash();
    let claim = transfer_claim(10_000, vec![create_test_evidence(1)], 1);
    let claim_hash = claim.compute_hash();
    let snapshot = snapshot_for(&state);
    let snapshot_hash = snapshot.compute_hash();
    let record = gate().process_transition(claim, snapshot, &mut state).unwrap();
    assert_eq!(record.claim_hash, claim_hash);
    assert_eq!(record.snapshot_hash, snapshot_hash);
    assert_eq!(record.predicate_result, PredicateResult::Approved);
    assert_eq!(record.state_before_hash, before);
    assert_eq!(record.state_after_hash, state.compute_hash());
    assert_ne!(record.state_before_hash, record.state_after_hash);
    assert_eq!(record.actor_ref, "agent-test");
    assert_eq!(
        record.transition_type,
        "TransferFunds { amount: 10000, recipient: \"recipient@example.com\" }"
    );
    assert_eq!(record.boundary_version, "1.0.0");
    let text = record.to_display_string();
    assert!(text.starts_with("=== Causal Accountability Record ===\nObservation Closure: "));
    assert!(text.contains(&format!("Observation Closure: {}\n", hex(&snapshot_hash[..8]))));
    assert!(text.contains("Predicate Result:    APPROVED\n"));
    assert!(text.ends_with("Boundary Version:    1.0.0\n"));
}

#[test]
fn new_recipient_starts_from_zero() {
    let mut state = SystemState::new();
    let claim = transfer_claim(7, vec![create_test_evidence(1)], 1);
    let snapshot = snapshot_for(&state);
    assert!(gate().process_transition(claim, snapshot, &mut state).is_ok());
    assert_eq!(state.account_balances.get("recipient@example.com"), Some(&7));
    assert_eq!(state.account_balances.len(), 1);
}

#[test]
fn rejected_transfer_leaves_state_unchanged() {
    let mut state = funded_state();
    let before = state.compute_hash();
    let claim = transfer_claim(100_000, vec![create_test_evidence(2)], 2);
    let snapshot = snapshot_for(&state);
    let r = gate().process_transition(claim, snapshot, &mut state);
    assert_eq!(r, Err(BoundaryError::PredicateRejected));
    assert_eq!(state.compute_hash(), before);
    assert_eq!(state.account_balances.get("recipient@example.com"), Some(&100_000));
}

#[test]
fn extended_path_is_deferred() {
    let mut state = funded_state();
    let claim = transfer_claim(25_000, vec![create_test_evidence(3)], 0x8000_0001);
    let snapshot = snapshot_for(&state);
    let r = gate().process_transition(claim, snapshot, &mut state);
    assert_eq!(r, Err(BoundaryError::ExtendedVerificationRequired));
    assert_eq!(state.account_balances.get("recipient@example.com"), Some(&100_000));
}

#[test]
fn boundary_mismatch_is_reported() {
    let mut state = funded_state();
    let claim = transfer_claim(1, vec![create_test_evidence(1)], 1);
    let mut other = create_boundary_descriptor();
    other.semantic_version = "2.0.0".to_string();
    let snapshot = create_evaluation_snapshot(
        FinancialLimitPredicate::new(50_000, true).descriptor(),
        other,
        state.compute_hash(),
        vec![],
    );
    let r = gate().process_transition(claim, snapshot, &mut state);
    assert_eq!(
        r,
        Err(BoundaryError::PredicateError("Snapshot boundary descriptor mismatch".to_string()))
    );
}

#[test]
fn missing_evidence_is_reported() {
    let mut state = funded_state();
    let claim = transfer_claim(1, vec![], 1);
    let snapshot = snapshot_for(&state);
    let r = gate().process_transition(claim, snapshot, &mut state);
    assert_eq!(
        r,
        Err(BoundaryError::IncompleteEvidence("0 pieces of evidence missing".to_string()))
    );
}

#[test]
fn predicate_errors_are_reported_with_their_message() {
    let mut state = funded_state();
    let claim = ExecutionIntegrityClaim::new(
        RequestedTransition::ExecuteCommand { command: "ls".to_string(), args: vec!["-l".to_string()] },
        "agent".to_string(),
        vec![],
        TransitionConstraints::default(),
        create_test_atom(1),
    );
    let snapshot = snapshot_for(&state);
    let r = gate().process_transition(claim, snapshot, &mut state);
    assert_eq!(
        r,
        Err(BoundaryError::PredicateError(
            "Unsupported transition type: ExecuteCommand { command: \"ls\", args: [\"-l\"] }"
                .to_string()
        ))
    );
    let wrong = PredicateDescriptor {
        predicate_id: "x".to_string(),
        version: 2,
        implementation_hash: [0u8; 32],
    };
    let snapshot = create_evaluation_snapshot(wrong, create_boundary_descriptor(), [0u8; 32], vec![]);
    let claim = transfer_claim(1, vec![create_test_evidence(1)], 1);
    let r = gate().process_transition(claim, snapshot, &mut state);
    assert_eq!(
        r,
        Err(BoundaryError::PredicateError("Predicate descriptor mismatch".to_string()))
    );
}

#[test]
fn error_messages() {
    assert_eq!(
        BoundaryError::ExtendedVerificationRequired.to_display_string(),
        "Extended verification required (verification_path_bit = 1)"
    );
    assert_eq!(BoundaryError::PredicateRejected.to_display_string(), "Predicate evaluation rejected");
    assert_eq!(
        BoundaryError::IncompleteEvidence("x".to_string()).to_display_string(),
        "Incomplete evidence: x"
    );
    assert_eq!(
        BoundaryError::InvalidTransition("y".to_string()).to_display_string(),
        "Invalid state transition: y"
    );
    assert_eq!(
        BoundaryError::DeterminismViolation.to_display_string(),
        "Determinism violation: snapshot_hash mismatch or non-deterministic predicate behavior"
    );
    assert_eq!(
        PredicateError::StateNotFound("s".to_string()).to_display_string(),
        "State reference not found: s"
    );
    assert_eq!(
        PredicateError::EvidenceNotFound("e".to_string()).to_display_string(),
        "Evidence reference not found: e"
    );
    assert_eq!(
        PredicateError::InternalError("i".to_string()).to_display_string(),
        "Internal predicate error: i"
    );
    assert_eq!(PredicateResult::Approved.to_display_string(), "APPROVED");
    assert_eq!(PredicateResult::Rejected.to_display_string(), "REJECTED");
    assert_eq!(
        PredicateResult::IncompleteEvidence { missing: vec![[0u8; 32], [1u8; 32]] }.to_display_string(),
        "INCOMPLETE_EVIDENCE (2 missing)"
    );
}

#[test]
fn result_equality_compares_missing_evidence() {
    let a = PredicateResult::IncompleteEvidence { missing: vec![[1u8; 32]] };
    let b = PredicateResult::IncompleteEvidence { missing: vec![[1u8; 32]] };
    let c = PredicateResult::IncompleteEvidence { missing: vec![[2u8; 32]] };
    assert!(a.same_as(&b));
    assert!(!a.same_as(&c));
    assert!(!a.same_as(&PredicateResult::Approved));
    assert!(PredicateResult::Rejected.same_as(&PredicateResult::Rejected));
}

#[test]
fn records_equivalence_and_verifier() {
    let mut s1 = funded_state();
    let mut s2 = funded_state();
    let r1 = gate()
        .process_transition(transfer_claim(5, vec![create_test_evidence(1)], 1), snapshot_for(&s1), &mut s1)
        .unwrap();
    let r2 = gate()
        .process_transition(transfer_claim(5, vec![create_test_evidence(1)], 1), snapshot_for(&s2), &mut s2)
        .unwrap();
    assert!(DeterminismVerifier::are_records_deterministic_equivalent(&r1, &r2));
    let mut s3 = SystemState::new();
    let r3 = gate()
        .process_transition(transfer_claim(5, vec![create_test_evidence(1)], 1), snapshot_for(&s3), &mut s3)
        .unwrap();
    assert!(!DeterminismVerifier::are_records_deterministic_equivalent(&r1, &r3));
    let a = snapshot_for(&s1);
    let mut b = a.clone();
    b.evaluation_timestamp = 99;
    assert!(DeterminismVerifier::are_observation_equivalent(&a, &b));
}

#[test]
fn update_configuration_is_stored_and_commands_are_refused() {
    let mut state = SystemState::new();
    let lenient = ExecutionBoundaryGate::new(
        Box::new(FinancialLimitPredicate::new(10, false)),
        create_boundary_descriptor(),
    );
    let claim = transfer_claim(10, vec![], 1);
    let snapshot = create_evaluation_snapshot(
        FinancialLimitPredicate::new(10, false).descriptor(),
        create_boundary_descriptor(),
        state.compute_hash(),
        vec![],
    );
    assert!(lenient.process_transition(claim, snapshot, &mut state).is_ok());
    assert_eq!(state.account_balances.get("recipient@example.com"), Some(&10));
    state.configuration.insert("mode".to_string(), "a".to_string());
    state.configuration.insert("mode".to_string(), "b".to_string());
    assert_eq!(state.configuration.len(), 1);
    assert_eq!(state.configuration.get("mode"), Some(&"b".to_string()));
}

#[test]
fn state_hash_covers_balances_configuration_and_last_id() {
    let mut state = SystemState::new();
    assert_eq!(state.compute_hash(), sha256(&[]));
    state.account_balances.insert("a".to_string(), 1);
    state.configuration.insert("k".to_string(), "v".to_string());
    state.last_transition_id = Some("t".to_string());
    let mut expected = vec![b'a'];
    expected.extend_from_slice(&1u64.to_le_bytes());
    expected.extend_from_slice(b"kvt");
    assert_eq!(state.canonical_bytes(), expected);
    assert_eq!(state.compute_hash(), sha256(&expected));
}

#[test]
fn default_constraints() {
    let c = TransitionConstraints::default();
    assert_eq!(c.max_amount, Some(50_000));
    assert_eq!(c.time_window_start, None);
    assert_eq!(c.time_window_end, None);
    assert_eq!(c.required_evidence_count, 1);
}

#[test]
fn constraints_text_matches_debug_formatting() {
    let c = TransitionConstraints {
        max_amount: None,
        time_window_start: Some(5),
        time_window_end: Some(18_446_744_073_709_551_615),
        required_evidence_count: 3,
    };
    let text = constraints_debug_text(&c);
    assert_eq!(
        text,
        "TransitionConstraints { max_amount: None, time_window_start: Some(5), time_window_end: Some(18446744073709551615), required_evidence_count: 3 }"
    );
    assert_eq!(text, format!("{:?}", c));
    let d = TransitionConstraints::default();
    assert_eq!(constraints_debug_text(&d), format!("{:?}", d));
}

#[test]
fn state_and_evidence_with_the_same_raw_bytes_hash_differently() {
    let predicate = FinancialLimitPredicate::new(50_000, true).descriptor();
    let boundary = create_boundary_descriptor();
    let y = [7u8; 32];
    let id = "ledger01";
    let a = EvaluationSnapshot {
        predicate: predicate.clone(),
        boundary: boundary.clone(),
        referenced_states: vec![ReferencedState { state_id: id.to_string(), state_hash: y }],
        evidence_references: vec![],
        evaluation_timestamp: 0,
    };
    let mut evidence_hash = [0u8; 32];
    evidence_hash[..8].copy_from_slice(id.as_bytes());
    evidence_hash[8..].copy_from_slice(&y[..24]);
    let mut tail = [0u8; 8];
    tail.copy_from_slice(&y[24..]);
    let b = EvaluationSnapshot {
        predicate,
        boundary,
        referenced_states: vec![],
        evidence_references: vec![EvidenceReference {
            evidence_hash,
            evidence_type: String::new(),
            acquired_at: u64::from_le_bytes(tail),
        }],
        evaluation_timestamp: 0,
    };
    assert_ne!(a.canonical_bytes(), b.canonical_bytes());
    assert_ne!(a.compute_hash(), b.compute_hash());
    assert!(!a.is_observation_equivalent(&b));
}

#[test]
fn state_hash_ignores_insertion_order() {
    let mut a = SystemState::new();
    a.account_balances.insert("zed".to_string(), 5);
    a.account_balances.insert("amy".to_string(), 7);
    a.configuration.insert("mode".to_string(), "x".to_string());
    a.configuration.insert("limit".to_string(), "9".to_string());
    let mut b = SystemState::new();
    b.configuration.insert("limit".to_string(), "9".to_string());
    b.account_balances.insert("amy".to_string(), 1);
    b.configuration.insert("mode".to_string(), "x".to_string());
    b.account_balances.insert("zed".to_string(), 5);
    b.account_balances.insert("amy".to_string(), 7);
    assert_eq!(a.compute_hash(), b.compute_hash());
    assert_eq!(a.account_balances.key_at(0), "amy");
    assert_eq!(a.account_balances.key_at(1), "zed");
    let mut expected = b"amy".to_vec();
    expected.extend_from_slice(&7u64.to_le_bytes());
    expected.extend_from_slice(b"zed");
    expected.extend_from_slice(&5u64.to_le_bytes());
    expected.extend_from_slice(b"limit9modex");
    assert_eq!(a.canonical_bytes(), expected);
}

#[test]
fn transition_text_matches_debug_formatting() {
    use_transition_texts(&[
        RequestedTransition::TransferFunds { amount: 0, recipient: "a\"b\\c\n".to_string() },
        RequestedTransition::TransferFunds { amount: u64::MAX, recipient: String::new() },
        RequestedTransition::UpdateConfiguration { key: "k".to_string(), value: "é\t".to_string() },
        RequestedTransition::ExecuteCommand { command: "ls".to_string(), args: vec![] },
        RequestedTransition::ExecuteCommand { command: "ls".to_string(), args: vec!["-l".to_string()] },
        RequestedTransition::ExecuteCommand {
            command: "cp".to_string(),
            args: vec!["a".to_string(), "b c".to_string(), "\"d\"".to_string()],
        },
    ]);
    assert_eq!(
        omwei::boundary::model::transition_debug_text(&RequestedTransition::ExecuteCommand {
            command: "ls".to_string(),
            args: vec!["-l".to_string(), "/".to_string()],
        }),
        "ExecuteCommand { command: \"ls\", args: [\"-l\", \"/\"] }"
    );
}

fn use_transition_texts(ts: &[RequestedTransition]) {
    for t in ts {
        assert_eq!(omwei::boundary::model::transition_debug_text(t), format!("{:?}", t));
    }
}
