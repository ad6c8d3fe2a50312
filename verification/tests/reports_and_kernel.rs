use omwei::boundary::report::{claim_details, state_snapshot};
use omwei::boundary::{
    create_test_atom, create_test_evidence, hex, ExecutionIntegrityClaim, RequestedTransition,
    SystemState, TransitionConstraints,
};
use omwei::kernel::{
    classify_trap, demo_random_numbers, demo_semantic_table, fatal_message,
    navigator_verification_report, on_claimed_interrupt, perform_semantic_search, processed_value,
    is_search_hart, ClaimAction, TrapAction,
};
use omwei::semantic::atom::{SemanticAtom, SemanticTriple};
use omwei::semantic::selftest::perform_navigator_verification;
use omwei::semantic::store::{SemanticTable, TargetAtom, TripleStore};

fn scenario_claim(amount: u64, global_id: u32) -> ExecutionIntegrityClaim {
    ExecutionIntegrityClaim::new(
        RequestedTransition::TransferFunds {
            amount,
            recipient: "recipient@example.com".to_string(),
        },
        "agent-liquidity-manager".to_string(),
        vec![create_test_evidence(1)],
        TransitionConstraints {
            max_amount: Some(50_000),
            required_evidence_count: 1,
            ..Default::default()
        },
        create_test_atom(global_id),
    )
}

#[test]
fn claim_details_inline_path() {
    let claim = scenario_claim(10_000, 0x0000_0001);
    let hash = [0xABu8, 0x01, 0xFF];
    let text = claim_details(&claim, &hash);
    assert_eq!(
        text,
        "\n--- Claim Details ---\n\
         Actor:                agent-liquidity-manager\n\
         Verification Path Bit: false (Inline/Direct)\n\
         Evidence References:   1\n\
         Max Amount Constraint:  Some(50000)\n\
         Transition:           TransferFunds { amount: 10000, recipient: \"recipient@example.com\" }\n\
         Snapshot Hash:         ab01ff\n"
    );
}

#[test]
fn claim_details_extended_path_without_limit() {
    let claim = ExecutionIntegrityClaim::new(
        RequestedTransition::UpdateConfiguration { key: "k".to_string(), value: "v".to_string() },
        "ops".to_string(),
        vec![],
        TransitionConstraints { max_amount: None, ..Default::default() },
        create_test_atom(0x8000_0001),
    );
    let text = claim_details(&claim, &[]);
    assert!(text.contains("Verification Path Bit: true (Extended Path)\n"));
    assert!(text.contains("Evidence References:   0\n"));
    assert!(text.contains("Max Amount Constraint:  None\n"));
    assert!(text.contains("Transition:           UpdateConfiguration { key: \"k\", value: \"v\" }\n"));
    assert!(text.ends_with("Snapshot Hash:         \n"));
}

#[test]
fn state_snapshot_lists_balances_and_hash_prefix() {
    let mut state = SystemState::new();
    state.account_balances.insert("recipient@example.com".to_string(), 100_000);
    let text = state_snapshot(&state, "BEFORE");
    assert_eq!(
        text,
        "\n--- BEFORE State Snapshot ---\n\
         Account Balances:\n  recipient@example.com: $100000\n\
         State Hash:           26cd260bc9339393\n"
    );
    assert_eq!(hex(&state.compute_hash()[..8]), "26cd260bc9339393");
}

#[test]
fn state_snapshot_of_empty_state() {
    let state = SystemState::new();
    assert_eq!(
        state_snapshot(&state, "AFTER"),
        "\n--- AFTER State Snapshot ---\nAccount Balances:\n  (empty)\nState Hash:           e3b0c44298fc1c14\n"
    );
}

#[test]
fn trap_dispatch() {
    assert_eq!(classify_trap(true, 3), TrapAction::SoftwareInterrupt);
    assert_eq!(classify_trap(true, 11), TrapAction::ExternalInterrupt);
    assert_eq!(classify_trap(true, 7), TrapAction::Ignore);
    assert_eq!(classify_trap(false, 2), TrapAction::Fatal { code: 2 });
    assert_eq!(fatal_message(13), "Unhandled exception: 13");
}

#[test]
fn claimed_interrupt_actions() {
    assert_eq!(on_claimed_interrupt(0), ClaimAction::Nothing);
    assert_eq!(on_claimed_interrupt(10), ClaimAction::CountAndComplete);
    assert_eq!(on_claimed_interrupt(11), ClaimAction::Complete);
}

#[test]
fn secondary_hart_task_values() {
    assert!(is_search_hart(1) && is_search_hart(3));
    assert!(!is_search_hart(0) && !is_search_hart(4));
    assert_eq!(processed_value(5, 2), 15);
    assert_eq!(processed_value(0x8000_0000, 1), 0);
    assert_eq!(demo_random_numbers(), [0x87654321, 0x87654322, 0x87654323, 0x87654324]);
}

#[test]
fn demo_table_holds_ten_mixed_atoms() {
    let table = demo_semantic_table();
    assert_eq!(table.len(), 10);
    let first = table.get_atom(0).unwrap();
    let m = 0x12345678u64.wrapping_mul(0x9e3779b9);
    assert_eq!(
        first.data,
        [0x12345678, m, m.wrapping_add(0xdeadbeef), m.wrapping_add(0xcafebabe)]
    );
}

#[test]
fn semantic_search_reports_found_index() {
    let table = demo_semantic_table();
    let wanted = *table.get_atom(3).unwrap();
    let mut target = TargetAtom::new(wanted);
    let mut results = [None; 3];
    assert_eq!(perform_semantic_search(2, &table, &mut target, &mut results), Some(3));
    assert_eq!(results, [None, Some(3), None]);
    assert!(target.is_found());
    assert_eq!(target.found_by(), Some(2));
}

#[test]
fn semantic_search_without_match_changes_nothing() {
    let table = SemanticTable::new();
    let mut target = TargetAtom::new(SemanticAtom::from_seed(9));
    let mut results = [Some(1), None, None];
    assert_eq!(perform_semantic_search(1, &table, &mut target, &mut results), None);
    assert_eq!(results, [Some(1), None, None]);
    assert!(!target.is_found());
}

#[test]
fn navigator_report_lines() {
    let (store, _) = perform_navigator_verification();
    assert_eq!(navigator_verification_report(&store), "Verification: SUCCESS - 300 triples created\n");
    let mut small = TripleStore::new();
    for _ in 0..7 {
        small.add_triple(SemanticTriple::default());
    }
    assert_eq!(navigator_verification_report(&small), "Verification: PARTIAL - 7 triples created\n");
    assert_eq!(
        navigator_verification_report(&TripleStore::new()),
        "Verification: PARTIAL - 0 triples created\n"
    );
}
