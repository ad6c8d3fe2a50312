//! Human-readable reports of claims and states, as the demonstration
//! prints them.

use vstd::prelude::*;
use crate::boundary::model::{
    option_u64_debug, push_option_u64, transition_debug, transition_debug_text, ClaimView, ExecutionIntegrityClaim, SystemState,
    SystemStateView, state_hash,
};
use crate::text::{decimal_spec, hex, hex_spec, push_decimal};

verus! {

/// `true` or `false`.
pub open spec fn bool_text(b: bool) -> Seq<char> {
    if b {
        "true"@
    } else {
        "false"@
    }
}

/// The name of the verification path a claim takes.
pub open spec fn path_name(extended: bool) -> Seq<char> {
    if extended {
        "Extended Path"@
    } else {
        "Inline/Direct"@
    }
}

/// The claim details block: actor, verification path, number of evidence
/// references, amount limit, transition and the snapshot hash in
/// hexadecimal.
pub open spec fn claim_details_text(c: ClaimView, snapshot_hash: Seq<u8>) -> Seq<char> {
    "\n--- Claim Details ---\n"@ + "Actor:                "@ + c.actor_ref + "\n"@
        + "Verification Path Bit: "@ + bool_text(c.verification_path_bit) + " ("@ + path_name(
        c.verification_path_bit,
    ) + ")\n"@ + "Evidence References:   "@ + decimal_spec(c.evidence_refs.len()) + "\n"@
        + "Max Amount Constraint:  "@ + option_u64_debug(c.constraints.max_amount) + "\n"@
        + "Transition:           "@ + transition_debug(c.requested_transition) + "\n"@
        + "Snapshot Hash:         "@ + hex_spec(snapshot_hash) + "\n"@
}

/// One line per balance, `  <account>: $<amount>`, in stored order.
pub open spec fn balance_lines(entries: Seq<(Seq<char>, u64)>) -> Seq<char>
    decreases entries.len(),
{
    if entries.len() == 0 {
        seq![]
    } else {
        balance_lines(entries.drop_last()) + "  "@ + entries.last().0 + ": $"@ + decimal_spec(
            entries.last().1 as nat,
        ) + "\n"@
    }
}

/// The state snapshot block: the balances (or `(empty)`) and the first
/// eight bytes of the state hash in hexadecimal.
pub open spec fn state_snapshot_text(s: SystemStateView, label: Seq<char>) -> Seq<char> {
    "\n--- "@ + label + " State Snapshot ---\n"@ + "Account Balances:\n"@ + (if s.account_balances.len()
        == 0 {
        "  (empty)\n"@
    } else {
        balance_lines(s.account_balances)
    }) + "State Hash:           "@ + hex_spec(state_hash(s).take(8)) + "\n"@
}

/// Renders the details of a claim about to be processed.
pub fn claim_details(claim: &ExecutionIntegrityClaim, snapshot_hash: &[u8]) -> (s: String)
    ensures
        s@ == claim_details_text(claim@, snapshot_hash@),
{
    let mut s = String::from_str("\n--- Claim Details ---\n");
    s.append("Actor:                ");
    s.append(claim.actor_ref.as_str());
    s.append("\n");
    s.append("Verification Path Bit: ");
    if claim.verification_path_bit {
        s.append("true");
        s.append(" (");
        s.append("Extended Path");
    } else {
        s.append("false");
        s.append(" (");
        s.append("Inline/Direct");
    }
    s.append(")\n");
    s.append("Evidence References:   ");
    let count = claim.evidence_refs.len();
    assert(claim@.evidence_refs.len() == count);
    push_decimal(&mut s, count as u64);
    s.append("\n");
    s.append("Max Amount Constraint:  ");
    push_option_u64(&mut s, claim.constraints.max_amount);
    s.append("\n");
    s.append("Transition:           ");
    let t = transition_debug_text(&claim.requested_transition);
    s.append(t.as_str());
    s.append("\n");
    s.append("Snapshot Hash:         ");
    let h = hex(snapshot_hash);
    s.append(h.as_str());
    s.append("\n");
    s
}

/// Renders the balances and state hash of a state under a label.
pub fn state_snapshot(state: &SystemState, label: &str) -> (s: String)
    ensures
        s@ == state_snapshot_text(state@, label@),
{
    let mut s = String::from_str("\n--- ");
    s.append(label);
    s.append(" State Snapshot ---\n");
    s.append("Account Balances:\n");
    if state.account_balances.is_empty() {
        s.append("  (empty)\n");
    } else {
        let ghost balances = state@.account_balances;
        let ghost prefix = s@;
        let n = state.account_balances.len();
        let mut i: usize = 0;
        while i < n
            invariant
                n == balances.len(),
                i <= n,
                balances == state@.account_balances,
                balances == state.account_balances.entries(),
                s@ == prefix + balance_lines(balances.take(i as int)),
            decreases n - i,
        {
            let k = state.account_balances.key_at(i);
            let v = *state.account_balances.value_at(i);
            s.append("  ");
            s.append(k.as_str());
            s.append(": $");
            push_decimal(&mut s, v);
            s.append("\n");
            proof {
                assert(balances.take(i + 1).drop_last() =~= balances.take(i as int));
                assert(balances.take(i + 1).last() == balances[i as int]);
            }
            i = i + 1;
        }
        proof {
            assert(balances.take(n as int) =~= balances);
        }
    }
    s.append("State Hash:           ");
    let full = state.compute_hash();
    let mut prefix8: Vec<u8> = Vec::new();
    let mut j: usize = 0;
    while j < 8
        invariant
            j <= 8,
            full@.len() == 32,
            prefix8@ == full@.take(j as int),
        decreases 8 - j,
    {
        prefix8.push(full[j]);
        proof {
            assert(full@.take(j + 1) =~= full@.take(j as int).push(full@[j as int]));
        }
        j = j + 1;
    }
    let h = hex(prefix8.as_slice());
    s.append(h.as_str());
    s.append("\n");
    s
}

} // verus!
