//! Claims, descriptors, observation closures and system state, with their
//! canonical byte encodings and SHA-256 identities.

use vstd::prelude::*;
use vstd::bytes::{spec_u32_to_le_bytes, spec_u64_to_le_bytes, u32_to_le_bytes, u64_to_le_bytes};
use vstd::utf8::encode_utf8;
use crate::hashing::{digest_eq, sha256, sha256_spec};
use crate::string_map::{key_less, keys_sorted, StringMap};
use crate::text::{
    decimal_spec, framed, hex, hex_spec, push_bytes, push_decimal, push_framed_str, push_str_bytes,
    push_u64_le,
};

verus! {

// ========== TRANSITION PROPOSAL ==========

/// A proposed state transition.
#[derive(Debug, Clone)]
pub enum RequestedTransition {
    TransferFunds { amount: u64, recipient: String },
    UpdateConfiguration { key: String, value: String },
    ExecuteCommand { command: String, args: Vec<String> },
}

/// Mathematical model of a [`RequestedTransition`].
pub enum TransitionView {
    TransferFunds { amount: u64, recipient: Seq<char> },
    UpdateConfiguration { key: Seq<char>, value: Seq<char> },
    ExecuteCommand { command: Seq<char>, args: Seq<Seq<char>> },
}

impl View for RequestedTransition {
    type V = TransitionView;

    open spec fn view(&self) -> TransitionView {
        match self {
            RequestedTransition::TransferFunds { amount, recipient } => TransitionView::TransferFunds {
                amount: *amount,
                recipient: recipient@,
            },
            RequestedTransition::UpdateConfiguration { key, value } => TransitionView::UpdateConfiguration {
                key: key@,
                value: value@,
            },
            RequestedTransition::ExecuteCommand { command, args } => TransitionView::ExecuteCommand {
                command: command@,
                args: args@.map_values(|a: String| a@),
            },
        }
    }
}

/// The `{:?}` rendering of a string: quoted, with its characters escaped.
pub uninterp spec fn str_debug(s: Seq<char>) -> Seq<char>;

/// Renders a string with its `Debug` formatting.
///
/// Trusted: `format!("{:?}", ..)` of a `String` quotes and escapes its
/// characters; the text depends only on the characters and is named
/// `str_debug` of them.
#[verifier::external_body]
fn string_debug_text(s: &String) -> (r: String)
    ensures
        r@ == str_debug(s@),
{
    format!("{:?}", s)
}

/// The `{:?}` renderings of strings separated by `", "`.
pub open spec fn str_list_items(items: Seq<Seq<char>>) -> Seq<char>
    decreases items.len(),
{
    if items.len() == 0 {
        seq![]
    } else if items.len() == 1 {
        str_debug(items[0])
    } else {
        str_list_items(items.drop_last()) + ", "@ + str_debug(items.last())
    }
}

/// The `{:?}` rendering of a list of strings: `[` the items `]`.
pub open spec fn str_list_debug(items: Seq<Seq<char>>) -> Seq<char> {
    "["@ + str_list_items(items) + "]"@
}

/// The `{:?}` rendering of a transition: the variant name, then each field
/// with its value in braces; amounts in decimal, strings quoted and escaped.
pub open spec fn transition_debug(t: TransitionView) -> Seq<char> {
    match t {
        TransitionView::TransferFunds { amount, recipient } => "TransferFunds { amount: "@
            + decimal_spec(amount as nat) + ", recipient: "@ + str_debug(recipient) + " }"@,
        TransitionView::UpdateConfiguration { key, value } => "UpdateConfiguration { key: "@
            + str_debug(key) + ", value: "@ + str_debug(value) + " }"@,
        TransitionView::ExecuteCommand { command, args } => "ExecuteCommand { command: "@
            + str_debug(command) + ", args: "@ + str_list_debug(args) + " }"@,
    }
}

/// Renders a transition as its `Debug` formatting does.
pub fn transition_debug_text(t: &RequestedTransition) -> (s: String)
    ensures
        s@ == transition_debug(t@),
{
    match t {
        RequestedTransition::TransferFunds { amount, recipient } => {
            let mut s = String::from_str("TransferFunds { amount: ");
            push_decimal(&mut s, *amount);
            s.append(", recipient: ");
            let r = string_debug_text(recipient);
            s.append(r.as_str());
            s.append(" }");
            s
        },
        RequestedTransition::UpdateConfiguration { key, value } => {
            let mut s = String::from_str("UpdateConfiguration { key: ");
            let k = string_debug_text(key);
            s.append(k.as_str());
            s.append(", value: ");
            let v = string_debug_text(value);
            s.append(v.as_str());
            s.append(" }");
            s
        },
        RequestedTransition::ExecuteCommand { command, args } => {
            let mut s = String::from_str("ExecuteCommand { command: ");
            let c = string_debug_text(command);
            s.append(c.as_str());
            s.append(", args: ");
            s.append("[");
            let ghost items = args@.map_values(|a: String| a@);
            let mut i: usize = 0;
            let ghost prefix = s@;
            while i < args.len()
                invariant
                    i <= args@.len(),
                    items == args@.map_values(|a: String| a@),
                    s@ == prefix + str_list_items(items.take(i as int)),
                decreases args@.len() - i,
            {
                if i > 0 {
                    s.append(", ");
                }
                let a = string_debug_text(&args[i]);
                s.append(a.as_str());
                proof {
                    assert(items.take(i + 1).drop_last() =~= items.take(i as int));
                    assert(items.take(i + 1).last() == args@[i as int]@);
                }
                i = i + 1;
            }
            proof {
                assert(items.take(items.len() as int) =~= items);
            }
            s.append("]");
            s.append(" }");
            s
        },
    }
}

// ========== DESCRIPTORS ==========

/// Identifies a predicate implementation and its version.
#[derive(Debug, Clone, PartialEq, Eq)]
pub struct PredicateDescriptor {
    pub predicate_id: String,
    pub version: u32,
    pub implementation_hash: [u8; 32],
}

/// Mathematical model of a [`PredicateDescriptor`].
pub struct PredicateDescriptorView {
    pub predicate_id: Seq<char>,
    pub version: u32,
    pub implementation_hash: Seq<u8>,
}

impl View for PredicateDescriptor {
    type V = PredicateDescriptorView;

    open spec fn view(&self) -> PredicateDescriptorView {
        PredicateDescriptorView {
            predicate_id: self.predicate_id@,
            version: self.version,
            implementation_hash: self.implementation_hash@,
        }
    }
}

/// Canonical encoding: identifier bytes, version (little-endian), hash.
pub open spec fn predicate_descriptor_bytes(d: PredicateDescriptorView) -> Seq<u8> {
    encode_utf8(d.predicate_id) + spec_u32_to_le_bytes(d.version) + d.implementation_hash
}

impl PredicateDescriptor {
    /// The canonical byte encoding that the descriptor hash covers.
    pub fn canonical_bytes(&self) -> (out: Vec<u8>)
        ensures
            out@ == predicate_descriptor_bytes(self@),
    {
        let mut out: Vec<u8> = Vec::new();
        push_str_bytes(&mut out, self.predicate_id.as_str());
        let v = u32_to_le_bytes(self.version);
        push_bytes(&mut out, v.as_slice());
        push_bytes(&mut out, &self.implementation_hash);
        out
    }

    /// Canonical SHA-256 hash of the descriptor.
    pub fn compute_hash(&self) -> (h: [u8; 32])
        ensures
            h@ == sha256_spec(predicate_descriptor_bytes(self@)),
    {
        let bytes = self.canonical_bytes();
        sha256(bytes.as_slice())
    }

    /// Field-by-field equality.
    pub fn same_as(&self, other: &PredicateDescriptor) -> (b: bool)
        ensures
            b == (self@ == other@),
    {
        let ids = self.predicate_id == other.predicate_id;
        let hashes = digest_eq(&self.implementation_hash, &other.implementation_hash);
        ids && self.version == other.version && hashes
    }
}

/// Identifies a boundary implementation and its routing semantics.
#[derive(Debug, Clone, PartialEq, Eq)]
pub struct BoundaryDescriptor {
    pub semantic_version: String,
    pub implementation_hash: [u8; 32],
    pub routing_semantics_version: u32,
}

/// Mathematical model of a [`BoundaryDescriptor`].
pub struct BoundaryDescriptorView {
    pub semantic_version: Seq<char>,
    pub implementation_hash: Seq<u8>,
    pub routing_semantics_version: u32,
}

impl View for BoundaryDescriptor {
    type V = BoundaryDescriptorView;

    open spec fn view(&self) -> BoundaryDescriptorView {
        BoundaryDescriptorView {
            semantic_version: self.semantic_version@,
            implementation_hash: self.implementation_hash@,
            routing_semantics_version: self.routing_semantics_version,
        }
    }
}

/// Canonical encoding: version text bytes, hash, routing version (little-endian).
pub open spec fn boundary_descriptor_bytes(d: BoundaryDescriptorView) -> Seq<u8> {
    encode_utf8(d.semantic_version) + d.implementation_hash + spec_u32_to_le_bytes(
        d.routing_semantics_version,
    )
}

impl BoundaryDescriptor {
    /// The canonical byte encoding that the descriptor hash covers.
    pub fn canonical_bytes(&self) -> (out: Vec<u8>)
        ensures
            out@ == boundary_descriptor_bytes(self@),
    {
        let mut out: Vec<u8> = Vec::new();
        push_str_bytes(&mut out, self.semantic_version.as_str());
        push_bytes(&mut out, &self.implementation_hash);
        let v = u32_to_le_bytes(self.routing_semantics_version);
        push_bytes(&mut out, v.as_slice());
        out
    }

    /// Canonical SHA-256 hash of the descriptor.
    pub fn compute_hash(&self) -> (h: [u8; 32])
        ensures
            h@ == sha256_spec(boundary_descriptor_bytes(self@)),
    {
        let bytes = self.canonical_bytes();
        sha256(bytes.as_slice())
    }

    /// Field-by-field equality.
    pub fn same_as(&self, other: &BoundaryDescriptor) -> (b: bool)
        ensures
            b == (self@ == other@),
    {
        let versions = self.semantic_version == other.semantic_version;
        let hashes = digest_eq(&self.implementation_hash, &other.implementation_hash);
        versions && hashes && self.routing_semantics_version == other.routing_semantics_version
    }
}

// ========== OBSERVATION CLOSURE ==========

/// A piece of system state observed during evaluation.
#[derive(Debug, Clone, PartialEq, Eq)]
pub struct ReferencedState {
    pub state_id: String,
    pub state_hash: [u8; 32],
}

/// Mathematical model of a [`ReferencedState`].
pub struct ReferencedStateView {
    pub state_id: Seq<char>,
    pub state_hash: Seq<u8>,
}

impl View for ReferencedState {
    type V = ReferencedStateView;

    open spec fn view(&self) -> ReferencedStateView {
        ReferencedStateView { state_id: self.state_id@, state_hash: self.state_hash@ }
    }
}

/// External evidence that was available during evaluation.
#[derive(Debug, Clone, PartialEq, Eq)]
pub struct EvidenceReference {
    pub evidence_hash: [u8; 32],
    pub evidence_type: String,
    pub acquired_at: u64,
}

/// Mathematical model of an [`EvidenceReference`].
pub struct EvidenceReferenceView {
    pub evidence_hash: Seq<u8>,
    pub evidence_type: Seq<char>,
    pub acquired_at: u64,
}

impl View for EvidenceReference {
    type V = EvidenceReferenceView;

    open spec fn view(&self) -> EvidenceReferenceView {
        EvidenceReferenceView {
            evidence_hash: self.evidence_hash@,
            evidence_type: self.evidence_type@,
            acquired_at: self.acquired_at,
        }
    }
}

/// The complete deterministic closure of everything a predicate may observe.
/// `evaluation_timestamp` is audit metadata and is not part of the closure.
#[derive(Debug, Clone, PartialEq, Eq)]
pub struct EvaluationSnapshot {
    pub predicate: PredicateDescriptor,
    pub boundary: BoundaryDescriptor,
    pub referenced_states: Vec<ReferencedState>,
    pub evidence_references: Vec<EvidenceReference>,
    pub evaluation_timestamp: u64,
}

/// Mathematical model of an [`EvaluationSnapshot`].
pub struct EvaluationSnapshotView {
    pub predicate: PredicateDescriptorView,
    pub boundary: BoundaryDescriptorView,
    pub referenced_states: Seq<ReferencedStateView>,
    pub evidence_references: Seq<EvidenceReferenceView>,
    pub evaluation_timestamp: u64,
}

impl View for EvaluationSnapshot {
    type V = EvaluationSnapshotView;

    open spec fn view(&self) -> EvaluationSnapshotView {
        EvaluationSnapshotView {
            predicate: self.predicate@,
            boundary: self.boundary@,
            referenced_states: self.referenced_states@.map_values(|r: ReferencedState| r@),
            evidence_references: self.evidence_references@.map_values(|e: EvidenceReference| e@),
            evaluation_timestamp: self.evaluation_timestamp,
        }
    }
}

/// A referenced state's bytes: its identifier (length-framed UTF-8), then
/// its hash.
pub open spec fn state_item_bytes(r: ReferencedStateView) -> Seq<u8> {
    framed(encode_utf8(r.state_id)) + r.state_hash
}

/// An evidence reference's bytes: its hash, its type (length-framed UTF-8),
/// then its acquisition time (little-endian).
pub open spec fn evidence_item_bytes(e: EvidenceReferenceView) -> Seq<u8> {
    e.evidence_hash + framed(encode_utf8(e.evidence_type)) + spec_u64_to_le_bytes(e.acquired_at)
}

/// The referenced states' bytes, in order.
pub open spec fn referenced_states_bytes(states: Seq<ReferencedStateView>) -> Seq<u8>
    decreases states.len(),
{
    if states.len() == 0 {
        seq![]
    } else {
        referenced_states_bytes(states.drop_last()) + state_item_bytes(states.last())
    }
}

/// The evidence references' bytes, in order.
pub open spec fn evidence_references_bytes(evidence: Seq<EvidenceReferenceView>) -> Seq<u8>
    decreases evidence.len(),
{
    if evidence.len() == 0 {
        seq![]
    } else {
        evidence_references_bytes(evidence.drop_last()) + evidence_item_bytes(evidence.last())
    }
}

/// Canonical encoding of an observation closure: the predicate descriptor
/// hash, the boundary descriptor hash, the number of referenced states and
/// the states, then the number of evidence references and the references.
/// Counts and lengths are little-endian `u64`s. The fields are not simply
/// concatenated: each string is framed by its byte length and each list by
/// its count (an empty list contributes its zero count), because a bare
/// concatenation would let a state identifier and the bytes after it be read
/// as a piece of evidence, so that two different closures shared a hash.
/// With the framing the encoding determines every field
/// (`law_closure_encoding_injective`). The evaluation timestamp is not part
/// of it.
pub open spec fn snapshot_bytes(s: EvaluationSnapshotView) -> Seq<u8> {
    sha256_spec(predicate_descriptor_bytes(s.predicate)) + sha256_spec(
        boundary_descriptor_bytes(s.boundary),
    ) + spec_u64_to_le_bytes(s.referenced_states.len() as u64) + referenced_states_bytes(
        s.referenced_states,
    ) + spec_u64_to_le_bytes(s.evidence_references.len() as u64) + evidence_references_bytes(
        s.evidence_references,
    )
}

/// A referenced state as an executable value has: a 32-byte hash and an
/// identifier whose encoding length fits a `u64`.
pub open spec fn state_well_formed(r: ReferencedStateView) -> bool {
    &&& r.state_hash.len() == 32
    &&& encode_utf8(r.state_id).len() <= u64::MAX
}

/// An evidence reference as an executable value has: a 32-byte hash and a
/// type whose encoding length fits a `u64`.
pub open spec fn evidence_well_formed(e: EvidenceReferenceView) -> bool {
    &&& e.evidence_hash.len() == 32
    &&& encode_utf8(e.evidence_type).len() <= u64::MAX
}

/// The shape every executable snapshot has: 32-byte digests and hashes, and
/// counts and lengths that fit a `u64`.
pub open spec fn closure_well_formed(s: EvaluationSnapshotView) -> bool {
    &&& sha256_spec(predicate_descriptor_bytes(s.predicate)).len() == 32
    &&& sha256_spec(boundary_descriptor_bytes(s.boundary)).len() == 32
    &&& s.referenced_states.len() <= u64::MAX
    &&& s.evidence_references.len() <= u64::MAX
    &&& forall|i: int| 0 <= i < s.referenced_states.len() ==> state_well_formed(#[trigger] s.referenced_states[i])
    &&& forall|i: int| 0 <= i < s.evidence_references.len() ==> evidence_well_formed(#[trigger] s.evidence_references[i])
}

/// The observation closure hash of a snapshot.
pub open spec fn snapshot_hash(s: EvaluationSnapshotView) -> Seq<u8> {
    sha256_spec(snapshot_bytes(s))
}

impl EvaluationSnapshot {
    /// The canonical byte encoding of the observation closure.
    pub fn canonical_bytes(&self) -> (out: Vec<u8>)
        ensures
            out@ == snapshot_bytes(self@),
            closure_well_formed(self@),
    {
        let mut out: Vec<u8> = Vec::new();
        let ph = self.predicate.compute_hash();
        push_bytes(&mut out, &ph);
        let bh = self.boundary.compute_hash();
        push_bytes(&mut out, &bh);
        push_u64_le(&mut out, self.referenced_states.len() as u64);
        let ghost prefix = out@;
        let ghost states = self@.referenced_states;
        let mut i: usize = 0;
        while i < self.referenced_states.len()
            invariant
                i <= self.referenced_states@.len(),
                states == self@.referenced_states,
                states.len() == self.referenced_states@.len(),
                out@ == prefix + referenced_states_bytes(states.take(i as int)),
                forall|k: int| 0 <= k < i ==> state_well_formed(#[trigger] states[k]),
            decreases self.referenced_states@.len() - i,
        {
            let r = &self.referenced_states[i];
            push_framed_str(&mut out, r.state_id.as_str());
            push_bytes(&mut out, &r.state_hash);
            proof {
                assert(states.take(i + 1).drop_last() =~= states.take(i as int));
                assert(states.take(i + 1).last() == r@);
            }
            i = i + 1;
        }
        proof {
            assert(states.take(states.len() as int) =~= states);
        }
        push_u64_le(&mut out, self.evidence_references.len() as u64);
        let ghost prefix2 = out@;
        let ghost evidence = self@.evidence_references;
        let mut j: usize = 0;
        while j < self.evidence_references.len()
            invariant
                j <= self.evidence_references@.len(),
                evidence == self@.evidence_references,
                evidence.len() == self.evidence_references@.len(),
                out@ == prefix2 + evidence_references_bytes(evidence.take(j as int)),
                forall|k: int| 0 <= k < j ==> evidence_well_formed(#[trigger] evidence[k]),
            decreases self.evidence_references@.len() - j,
        {
            let e = &self.evidence_references[j];
            push_bytes(&mut out, &e.evidence_hash);
            push_framed_str(&mut out, e.evidence_type.as_str());
            push_u64_le(&mut out, e.acquired_at);
            proof {
                assert(evidence.take(j + 1).drop_last() =~= evidence.take(j as int));
                assert(evidence.take(j + 1).last() == e@);
            }
            j = j + 1;
        }
        proof {
            assert(evidence.take(evidence.len() as int) =~= evidence);
        }
        assert(out@ =~= snapshot_bytes(self@));
        out
    }

    /// Canonical hash of the observation closure.
    pub fn compute_hash(&self) -> (h: [u8; 32])
        ensures
            h@ == snapshot_hash(self@),
            closure_well_formed(self@),
    {
        let bytes = self.canonical_bytes();
        sha256(bytes.as_slice())
    }

    /// Whether two snapshots have the same observation closure hash.
    pub fn is_observation_equivalent(&self, other: &EvaluationSnapshot) -> (b: bool)
        ensures
            b == (snapshot_hash(self@) == snapshot_hash(other@)),
    {
        let h1 = self.compute_hash();
        let h2 = other.compute_hash();
        digest_eq(&h1, &h2)
    }
}

// ========== EXECUTION INTEGRITY CLAIM ==========

/// Constraints attached to a transition claim.
#[derive(Debug, Clone, Copy, PartialEq, Eq)]
pub struct TransitionConstraints {
    pub max_amount: Option<u64>,
    pub time_window_start: Option<u64>,
    pub time_window_end: Option<u64>,
    pub required_evidence_count: usize,
}

impl Default for TransitionConstraints {
    fn default() -> (c: Self)
        ensures
            c.max_amount == Some(50_000u64),
            c.time_window_start is None,
            c.time_window_end is None,
            c.required_evidence_count == 1,
    {
        TransitionConstraints {
            max_amount: Some(50_000),
            time_window_start: None,
            time_window_end: None,
            required_evidence_count: 1,
        }
    }
}

/// `{:?}` of an optional integer: `Some(<decimal>)` or `None`.
pub open spec fn option_u64_debug(a: Option<u64>) -> Seq<char> {
    match a {
        Some(v) => "Some("@ + decimal_spec(v as nat) + ")"@,
        None => "None"@,
    }
}

/// The `{:?}` rendering of transition constraints: the struct name, then
/// each field with its value, in declaration order.
pub open spec fn constraints_debug(c: TransitionConstraints) -> Seq<char> {
    "TransitionConstraints { max_amount: "@ + option_u64_debug(c.max_amount)
        + ", time_window_start: "@ + option_u64_debug(c.time_window_start) + ", time_window_end: "@
        + option_u64_debug(c.time_window_end) + ", required_evidence_count: "@ + decimal_spec(
        c.required_evidence_count as nat,
    ) + " }"@
}

/// Appends `{:?}` of an optional integer.
pub fn push_option_u64(s: &mut String, a: Option<u64>)
    ensures
        final(s)@ == old(s)@ + option_u64_debug(a),
{
    match a {
        Some(v) => {
            s.append("Some(");
            push_decimal(s, v);
            s.append(")");
        },
        None => {
            s.append("None");
        },
    }
}

/// Renders constraints as their `Debug` formatting does.
pub fn constraints_debug_text(c: &TransitionConstraints) -> (s: String)
    ensures
        s@ == constraints_debug(*c),
{
    let mut s = String::from_str("TransitionConstraints { max_amount: ");
    push_option_u64(&mut s, c.max_amount);
    s.append(", time_window_start: ");
    push_option_u64(&mut s, c.time_window_start);
    s.append(", time_window_end: ");
    push_option_u64(&mut s, c.time_window_end);
    s.append(", required_evidence_count: ");
    push_decimal(&mut s, c.required_evidence_count as u64);
    s.append(" }");
    s
}

/// A 32-bit-identified atom as carried by a claim: its global identifier and
/// payload. Bit 31 of the identifier selects the verification path.
#[derive(Debug, Clone, Copy, PartialEq, Eq)]
pub struct Atom {
    pub global_id: u32,
    pub payload: [u8; 28],
}

/// Whether bit 31 of an atom identifier is set.
pub open spec fn bit31_set(global_id: u32) -> bool {
    global_id >= 0x8000_0000
}

/// An autonomous decision submitted for evaluation: the requested
/// transition, who asks, what evidence backs it, under which constraints,
/// and whether it must take the extended verification path.
#[derive(Debug, Clone)]
pub struct ExecutionIntegrityClaim {
    pub requested_transition: RequestedTransition,
    pub actor_ref: String,
    pub evidence_refs: Vec<[u8; 32]>,
    pub constraints: TransitionConstraints,
    pub verification_path_bit: bool,
}

/// Mathematical model of an [`ExecutionIntegrityClaim`].
pub struct ClaimView {
    pub requested_transition: TransitionView,
    pub actor_ref: Seq<char>,
    pub evidence_refs: Seq<Seq<u8>>,
    pub constraints: TransitionConstraints,
    pub verification_path_bit: bool,
}

impl View for ExecutionIntegrityClaim {
    type V = ClaimView;

    open spec fn view(&self) -> ClaimView {
        ClaimView {
            requested_transition: self.requested_transition@,
            actor_ref: self.actor_ref@,
            evidence_refs: self.evidence_refs@.map_values(|h: [u8; 32]| h@),
            constraints: self.constraints,
            verification_path_bit: self.verification_path_bit,
        }
    }
}

/// The concatenation of a sequence of byte strings.
pub open spec fn concat_bytes(parts: Seq<Seq<u8>>) -> Seq<u8>
    decreases parts.len(),
{
    if parts.len() == 0 {
        seq![]
    } else {
        concat_bytes(parts.drop_last()) + parts.last()
    }
}

/// Canonical claim encoding from its rendered parts: transition text,
/// actor, each evidence hash, constraints text, then one routing byte.
pub open spec fn claim_parts_bytes(
    transition_text: Seq<char>,
    actor_ref: Seq<char>,
    evidence_refs: Seq<Seq<u8>>,
    constraints_text: Seq<char>,
    verification_path_bit: bool,
) -> Seq<u8> {
    encode_utf8(transition_text) + encode_utf8(actor_ref) + concat_bytes(evidence_refs)
        + encode_utf8(constraints_text) + seq![if verification_path_bit { 1u8 } else { 0u8 }]
}

/// Canonical encoding of a claim.
pub open spec fn claim_bytes(c: ClaimView) -> Seq<u8> {
    claim_parts_bytes(
        transition_debug(c.requested_transition),
        c.actor_ref,
        c.evidence_refs,
        constraints_debug(c.constraints),
        c.verification_path_bit,
    )
}

/// The canonical hash of a claim.
pub open spec fn claim_hash(c: ClaimView) -> Seq<u8> {
    sha256_spec(claim_bytes(c))
}

/// Encodes a claim from its rendered transition and constraints texts.
pub fn encode_claim(
    transition_text: &str,
    actor_ref: &str,
    evidence_refs: &[[u8; 32]],
    constraints_text: &str,
    verification_path_bit: bool,
) -> (out: Vec<u8>)
    ensures
        out@ == claim_parts_bytes(
            transition_text@,
            actor_ref@,
            evidence_refs@.map_values(|h: [u8; 32]| h@),
            constraints_text@,
            verification_path_bit,
        ),
{
    let mut out: Vec<u8> = Vec::new();
    push_str_bytes(&mut out, transition_text);
    push_str_bytes(&mut out, actor_ref);
    let ghost prefix = out@;
    let ghost hashes = evidence_refs@.map_values(|h: [u8; 32]| h@);
    let mut i: usize = 0;
    while i < evidence_refs.len()
        invariant
            i <= evidence_refs@.len(),
            hashes == evidence_refs@.map_values(|h: [u8; 32]| h@),
            out@ == prefix + concat_bytes(hashes.take(i as int)),
        decreases evidence_refs@.len() - i,
    {
        push_bytes(&mut out, &evidence_refs[i]);
        proof {
            assert(hashes.take(i + 1).drop_last() =~= hashes.take(i as int));
            assert(hashes.take(i + 1).last() == evidence_refs@[i as int]@);
        }
        i = i + 1;
    }
    proof {
        assert(hashes.take(hashes.len() as int) =~= hashes);
    }
    push_str_bytes(&mut out, constraints_text);
    let tag: u8 = if verification_path_bit { 1 } else { 0 };
    out.push(tag);
    assert(out@ =~= claim_parts_bytes(
        transition_text@,
        actor_ref@,
        hashes,
        constraints_text@,
        verification_path_bit,
    ));
    out
}

impl ExecutionIntegrityClaim {
    /// Creates a claim; the verification path bit is bit 31 of the primary
    /// atom's global identifier.
    pub fn new(
        requested_transition: RequestedTransition,
        actor_ref: String,
        evidence_refs: Vec<[u8; 32]>,
        constraints: TransitionConstraints,
        primary_atom: Atom,
    ) -> (c: Self)
        ensures
            c.requested_transition == requested_transition,
            c.actor_ref == actor_ref,
            c.evidence_refs == evidence_refs,
            c.constraints == constraints,
            c.verification_path_bit == bit31_set(primary_atom.global_id),
            c.verification_path_bit == (primary_atom.global_id / 0x8000_0000 == 1),
    {
        let id = primary_atom.global_id;
        let verification_path_bit = (id & 0x8000_0000) != 0;
        assert(((id & 0x8000_0000u32) != 0) == (id >= 0x8000_0000u32)) by (bit_vector);
        ExecutionIntegrityClaim {
            requested_transition,
            actor_ref,
            evidence_refs,
            constraints,
            verification_path_bit,
        }
    }

    /// The canonical byte encoding of the claim.
    pub fn canonical_bytes(&self) -> (out: Vec<u8>)
        ensures
            out@ == claim_bytes(self@),
    {
        let t = transition_debug_text(&self.requested_transition);
        let c = constraints_debug_text(&self.constraints);
        encode_claim(
            t.as_str(),
            self.actor_ref.as_str(),
            self.evidence_refs.as_slice(),
            c.as_str(),
            self.verification_path_bit,
        )
    }

    /// Canonical hash of the claim.
    pub fn compute_hash(&self) -> (h: [u8; 32])
        ensures
            h@ == claim_hash(self@),
    {
        let bytes = self.canonical_bytes();
        sha256(bytes.as_slice())
    }
}

// ========== PREDICATE OUTCOMES ==========

/// Outcome of a predicate evaluation.
#[derive(Debug, Clone, PartialEq, Eq)]
pub enum PredicateResult {
    Approved,
    Rejected,
    IncompleteEvidence { missing: Vec<[u8; 32]> },
}

/// Mathematical model of a [`PredicateResult`].
pub enum PredicateResultView {
    Approved,
    Rejected,
    IncompleteEvidence { missing: Seq<Seq<u8>> },
}

impl View for PredicateResult {
    type V = PredicateResultView;

    open spec fn view(&self) -> PredicateResultView {
        match self {
            PredicateResult::Approved => PredicateResultView::Approved,
            PredicateResult::Rejected => PredicateResultView::Rejected,
            PredicateResult::IncompleteEvidence { missing } => PredicateResultView::IncompleteEvidence {
                missing: missing@.map_values(|h: [u8; 32]| h@),
            },
        }
    }
}

/// Human-readable rendering of a predicate outcome.
pub open spec fn predicate_result_text(r: PredicateResultView) -> Seq<char> {
    match r {
        PredicateResultView::Approved => "APPROVED"@,
        PredicateResultView::Rejected => "REJECTED"@,
        PredicateResultView::IncompleteEvidence { missing } => "INCOMPLETE_EVIDENCE ("@
            + decimal_spec(missing.len()) + " missing)"@,
    }
}

impl PredicateResult {
    /// Value equality, comparing missing evidence hashes byte by byte.
    pub fn same_as(&self, other: &PredicateResult) -> (b: bool)
        ensures
            b == (self@ == other@),
    {
        match (self, other) {
            (PredicateResult::Approved, PredicateResult::Approved) => true,
            (PredicateResult::Rejected, PredicateResult::Rejected) => true,
            (
                PredicateResult::IncompleteEvidence { missing: a },
                PredicateResult::IncompleteEvidence { missing: b },
            ) => {
                let ghost va = a@.map_values(|h: [u8; 32]| h@);
                let ghost vb = b@.map_values(|h: [u8; 32]| h@);
                assert(self@ == (PredicateResultView::IncompleteEvidence { missing: va }));
                assert(other@ == (PredicateResultView::IncompleteEvidence { missing: vb }));
                if a.len() != b.len() {
                    assert(va.len() != vb.len());
                    return false;
                }
                let mut i: usize = 0;
                while i < a.len()
                    invariant
                        i <= a@.len(),
                        a@.len() == b@.len(),
                        va == a@.map_values(|h: [u8; 32]| h@),
                        vb == b@.map_values(|h: [u8; 32]| h@),
                        self@ == (PredicateResultView::IncompleteEvidence { missing: va }),
                        other@ == (PredicateResultView::IncompleteEvidence { missing: vb }),
                        forall|j: int| 0 <= j < i ==> va[j] == vb[j],
                    decreases a@.len() - i,
                {
                    if !digest_eq(&a[i], &b[i]) {
                        assert(va[i as int] != vb[i as int]);
                        return false;
                    }
                    i = i + 1;
                }
                assert(va =~= vb);
                true
            },
            _ => false,
        }
    }

    /// The human-readable rendering (`APPROVED`, `REJECTED`,
    /// `INCOMPLETE_EVIDENCE (n missing)`).
    pub fn to_display_string(&self) -> (s: String)
        ensures
            s@ == predicate_result_text(self@),
    {
        match self {
            PredicateResult::Approved => String::from_str("APPROVED"),
            PredicateResult::Rejected => String::from_str("REJECTED"),
            PredicateResult::IncompleteEvidence { missing } => {
                let mut s = String::from_str("INCOMPLETE_EVIDENCE (");
                push_decimal(&mut s, missing.len() as u64);
                s.append(" missing)");
                s
            },
        }
    }
}

/// Errors of predicate evaluation.
#[derive(Debug, Clone, PartialEq, Eq)]
pub enum PredicateError {
    DescriptorMismatch,
    UnsupportedTransitionType(String),
    StateNotFound(String),
    EvidenceNotFound(String),
    InternalError(String),
}

/// Mathematical model of a [`PredicateError`].
pub enum PredicateErrorView {
    DescriptorMismatch,
    UnsupportedTransitionType(Seq<char>),
    StateNotFound(Seq<char>),
    EvidenceNotFound(Seq<char>),
    InternalError(Seq<char>),
}

impl View for PredicateError {
    type V = PredicateErrorView;

    open spec fn view(&self) -> PredicateErrorView {
        match self {
            PredicateError::DescriptorMismatch => PredicateErrorView::DescriptorMismatch,
            PredicateError::UnsupportedTransitionType(s) => PredicateErrorView::UnsupportedTransitionType(s@),
            PredicateError::StateNotFound(s) => PredicateErrorView::StateNotFound(s@),
            PredicateError::EvidenceNotFound(s) => PredicateErrorView::EvidenceNotFound(s@),
            PredicateError::InternalError(s) => PredicateErrorView::InternalError(s@),
        }
    }
}

/// The message of a predicate error.
pub open spec fn predicate_error_message(e: PredicateErrorView) -> Seq<char> {
    match e {
        PredicateErrorView::DescriptorMismatch => "Predicate descriptor mismatch"@,
        PredicateErrorView::UnsupportedTransitionType(s) => "Unsupported transition type: "@ + s,
        PredicateErrorView::StateNotFound(s) => "State reference not found: "@ + s,
        PredicateErrorView::EvidenceNotFound(s) => "Evidence reference not found: "@ + s,
        PredicateErrorView::InternalError(s) => "Internal predicate error: "@ + s,
    }
}

impl PredicateError {
    /// The error message.
    pub fn to_display_string(&self) -> (s: String)
        ensures
            s@ == predicate_error_message(self@),
    {
        match self {
            PredicateError::DescriptorMismatch => String::from_str("Predicate descriptor mismatch"),
            PredicateError::UnsupportedTransitionType(t) => {
                let mut s = String::from_str("Unsupported transition type: ");
                s.append(t.as_str());
                s
            },
            PredicateError::StateNotFound(t) => {
                let mut s = String::from_str("State reference not found: ");
                s.append(t.as_str());
                s
            },
            PredicateError::EvidenceNotFound(t) => {
                let mut s = String::from_str("Evidence reference not found: ");
                s.append(t.as_str());
                s
            },
            PredicateError::InternalError(t) => {
                let mut s = String::from_str("Internal predicate error: ");
                s.append(t.as_str());
                s
            },
        }
    }
}

// ========== SYSTEM STATE ==========

/// The mutable system state that transitions act on.
pub struct SystemState {
    pub account_balances: StringMap<u64>,
    pub configuration: StringMap<String>,
    pub last_transition_id: Option<String>,
}

/// Mathematical model of a [`SystemState`]: entries in stored order.
pub struct SystemStateView {
    pub account_balances: Seq<(Seq<char>, u64)>,
    pub configuration: Seq<(Seq<char>, Seq<char>)>,
    pub last_transition_id: Option<Seq<char>>,
}

impl View for SystemState {
    type V = SystemStateView;

    open spec fn view(&self) -> SystemStateView {
        SystemStateView {
            account_balances: self.account_balances.entries(),
            configuration: self.configuration.entries().map_values(
                |e: (Seq<char>, String)| (e.0, e.1@),
            ),
            last_transition_id: match &self.last_transition_id {
                Some(id) => Some(id@),
                None => None,
            },
        }
    }
}

/// Each balance contributes the account name bytes then the amount (little-endian).
pub open spec fn balances_bytes(entries: Seq<(Seq<char>, u64)>) -> Seq<u8>
    decreases entries.len(),
{
    if entries.len() == 0 {
        seq![]
    } else {
        balances_bytes(entries.drop_last()) + encode_utf8(entries.last().0) + spec_u64_to_le_bytes(
            entries.last().1,
        )
    }
}

/// Each configuration entry contributes its key bytes then its value bytes.
pub open spec fn configuration_bytes(entries: Seq<(Seq<char>, Seq<char>)>) -> Seq<u8>
    decreases entries.len(),
{
    if entries.len() == 0 {
        seq![]
    } else {
        configuration_bytes(entries.drop_last()) + encode_utf8(entries.last().0) + encode_utf8(
            entries.last().1,
        )
    }
}

/// Canonical encoding of a system state: balances, configuration, then the
/// last transition identifier if there is one.
pub open spec fn state_bytes(s: SystemStateView) -> Seq<u8> {
    balances_bytes(s.account_balances) + configuration_bytes(s.configuration) + match s.last_transition_id {
        Some(id) => encode_utf8(id),
        None => seq![],
    }
}

/// Balances and configuration entries are in key order, as every state's
/// maps keep them.
pub open spec fn state_keys_sorted(s: SystemStateView) -> bool {
    keys_sorted(s.account_balances) && keys_sorted(s.configuration)
}

/// The canonical hash of a system state.
pub open spec fn state_hash(s: SystemStateView) -> Seq<u8> {
    sha256_spec(state_bytes(s))
}

impl SystemState {
    /// An empty state.
    pub fn new() -> (s: Self)
        ensures
            s@.account_balances.len() == 0,
            s@.configuration.len() == 0,
            s@.last_transition_id is None,
    {
        SystemState {
            account_balances: StringMap::new(),
            configuration: StringMap::new(),
            last_transition_id: None,
        }
    }

    /// The canonical byte encoding of the state.
    pub fn canonical_bytes(&self) -> (out: Vec<u8>)
        ensures
            out@ == state_bytes(self@),
            state_keys_sorted(self@),
    {
        let mut out: Vec<u8> = Vec::new();
        let ghost balances = self@.account_balances;
        let n = self.account_balances.len();
        let config_count: usize = self.configuration.len();
        proof {
            let c = self.configuration.entries();
            assert(config_count == c.len());
            let t = self@.configuration;
            assert forall|i: int, j: int| 0 <= i < j < t.len() implies key_less(
                #[trigger] t[i].0,
                #[trigger] t[j].0,
            ) by {
                assert(t[i].0 == c[i].0 && t[j].0 == c[j].0);
            }
        }
        let mut i: usize = 0;
        while i < n
            invariant
                n == balances.len(),
                i <= n,
                balances == self@.account_balances,
                out@ == balances_bytes(balances.take(i as int)),
            decreases n - i,
        {
            let k = self.account_balances.key_at(i);
            let v = *self.account_balances.value_at(i);
            push_str_bytes(&mut out, k.as_str());
            let b = u64_to_le_bytes(v);
            push_bytes(&mut out, b.as_slice());
            proof {
                assert(balances.take(i + 1).drop_last() =~= balances.take(i as int));
                assert(balances.take(i + 1).last() == balances[i as int]);
            }
            i = i + 1;
        }
        proof {
            assert(balances.take(n as int) =~= balances);
        }
        let ghost prefix = out@;
        let ghost config = self@.configuration;
        let m = self.configuration.len();
        let mut j: usize = 0;
        while j < m
            invariant
                m == config.len(),
                j <= m,
                config == self@.configuration,
                config == self.configuration.entries().map_values(
                    |e: (Seq<char>, String)| (e.0, e.1@),
                ),
                out@ == prefix + configuration_bytes(config.take(j as int)),
            decreases m - j,
        {
            let k = self.configuration.key_at(j);
            let v = self.configuration.value_at(j);
            push_str_bytes(&mut out, k.as_str());
            push_str_bytes(&mut out, v.as_str());
            proof {
                assert(config.take(j + 1).drop_last() =~= config.take(j as int));
                assert(config.take(j + 1).last() == config[j as int]);
            }
            j = j + 1;
        }
        proof {
            assert(config.take(m as int) =~= config);
        }
        match &self.last_transition_id {
            Some(id) => push_str_bytes(&mut out, id.as_str()),
            None => {},
        }
        assert(out@ =~= state_bytes(self@));
        out
    }

    /// Canonical hash of the state.
    pub fn compute_hash(&self) -> (h: [u8; 32])
        ensures
            h@ == state_hash(self@),
            state_keys_sorted(self@),
    {
        let bytes = self.canonical_bytes();
        sha256(bytes.as_slice())
    }
}

impl Default for SystemState {
    fn default() -> (s: Self)
        ensures
            s@.account_balances.len() == 0,
            s@.configuration.len() == 0,
            s@.last_transition_id is None,
    {
        Self::new()
    }
}

// ========== BOUNDARY ERRORS ==========

/// Errors reported by the execution boundary.
#[derive(Debug, Clone, PartialEq, Eq)]
pub enum BoundaryError {
    ExtendedVerificationRequired,
    PredicateRejected,
    IncompleteEvidence(String),
    PredicateError(String),
    InvalidTransition(String),
    DeterminismViolation,
}

/// Mathematical model of a [`BoundaryError`].
pub enum BoundaryErrorView {
    ExtendedVerificationRequired,
    PredicateRejected,
    IncompleteEvidence(Seq<char>),
    PredicateError(Seq<char>),
    InvalidTransition(Seq<char>),
    DeterminismViolation,
}

impl View for BoundaryError {
    type V = BoundaryErrorView;

    open spec fn view(&self) -> BoundaryErrorView {
        match self {
            BoundaryError::ExtendedVerificationRequired => BoundaryErrorView::ExtendedVerificationRequired,
            BoundaryError::PredicateRejected => BoundaryErrorView::PredicateRejected,
            BoundaryError::IncompleteEvidence(s) => BoundaryErrorView::IncompleteEvidence(s@),
            BoundaryError::PredicateError(s) => BoundaryErrorView::PredicateError(s@),
            BoundaryError::InvalidTransition(s) => BoundaryErrorView::InvalidTransition(s@),
            BoundaryError::DeterminismViolation => BoundaryErrorView::DeterminismViolation,
        }
    }
}

/// The message of a boundary error.
pub open spec fn boundary_error_message(e: BoundaryErrorView) -> Seq<char> {
    match e {
        BoundaryErrorView::ExtendedVerificationRequired => "Extended verification required (verification_path_bit = 1)"@,
        BoundaryErrorView::PredicateRejected => "Predicate evaluation rejected"@,
        BoundaryErrorView::IncompleteEvidence(s) => "Incomplete evidence: "@ + s,
        BoundaryErrorView::PredicateError(s) => "Predicate error: "@ + s,
        BoundaryErrorView::InvalidTransition(s) => "Invalid state transition: "@ + s,
        BoundaryErrorView::DeterminismViolation => "Determinism violation: snapshot_hash mismatch or non-deterministic predicate behavior"@,
    }
}

impl BoundaryError {
    /// The error message.
    pub fn to_display_string(&self) -> (s: String)
        ensures
            s@ == boundary_error_message(self@),
    {
        match self {
            BoundaryError::ExtendedVerificationRequired => String::from_str(
                "Extended verification required (verification_path_bit = 1)",
            ),
            BoundaryError::PredicateRejected => String::from_str("Predicate evaluation rejected"),
            BoundaryError::IncompleteEvidence(t) => {
                let mut s = String::from_str("Incomplete evidence: ");
                s.append(t.as_str());
                s
            },
            BoundaryError::PredicateError(t) => {
                let mut s = String::from_str("Predicate error: ");
                s.append(t.as_str());
                s
            },
            BoundaryError::InvalidTransition(t) => {
                let mut s = String::from_str("Invalid state transition: ");
                s.append(t.as_str());
                s
            },
            BoundaryError::DeterminismViolation => String::from_str(
                "Determinism violation: snapshot_hash mismatch or non-deterministic predicate behavior",
            ),
        }
    }
}

// ========== CAUSAL ACCOUNTABILITY RECORD ==========

/// Immutable audit entry: the observation closure, the decision and the
/// state transition it caused.
#[derive(Debug, Clone, PartialEq, Eq)]
pub struct CausalAccountabilityRecord {
    pub claim_hash: [u8; 32],
    pub snapshot_hash: [u8; 32],
    pub predicate_result: PredicateResult,
    pub state_before_hash: [u8; 32],
    pub state_after_hash: [u8; 32],
    pub actor_ref: String,
    pub transition_type: String,
    pub boundary_version: String,
}

/// Mathematical model of a [`CausalAccountabilityRecord`].
pub struct RecordView {
    pub claim_hash: Seq<u8>,
    pub snapshot_hash: Seq<u8>,
    pub predicate_result: PredicateResultView,
    pub state_before_hash: Seq<u8>,
    pub state_after_hash: Seq<u8>,
    pub actor_ref: Seq<char>,
    pub transition_type: Seq<char>,
    pub boundary_version: Seq<char>,
}

impl View for CausalAccountabilityRecord {
    type V = RecordView;

    open spec fn view(&self) -> RecordView {
        RecordView {
            claim_hash: self.claim_hash@,
            snapshot_hash: self.snapshot_hash@,
            predicate_result: self.predicate_result@,
            state_before_hash: self.state_before_hash@,
            state_after_hash: self.state_after_hash@,
            actor_ref: self.actor_ref@,
            transition_type: self.transition_type@,
            boundary_version: self.boundary_version@,
        }
    }
}

/// The multi-line rendering of a record; the observation closure is shown
/// by the hexadecimal of its first eight bytes.
pub open spec fn record_text(r: RecordView) -> Seq<char> {
    "=== Causal Accountability Record ===\n"@ + "Observation Closure: "@ + hex_spec(
        r.snapshot_hash.take(8),
    ) + "\n"@ + "Predicate Result:    "@ + predicate_result_text(r.predicate_result) + "\n"@
        + "Actor:               "@ + r.actor_ref + "\n"@ + "Transition Type:     "@
        + r.transition_type + "\n"@ + "Boundary Version:    "@ + r.boundary_version + "\n"@
}

impl CausalAccountabilityRecord {
    /// The multi-line human-readable rendering of the record.
    pub fn to_display_string(&self) -> (s: String)
        ensures
            s@ == record_text(self@),
    {
        let mut prefix: Vec<u8> = Vec::new();
        let mut i: usize = 0;
        while i < 8
            invariant
                i <= 8,
                self.snapshot_hash@.len() == 32,
                prefix@ == self.snapshot_hash@.take(i as int),
            decreases 8 - i,
        {
            prefix.push(self.snapshot_hash[i]);
            proof {
                assert(self.snapshot_hash@.take(i + 1) =~= self.snapshot_hash@.take(i as int).push(
                    self.snapshot_hash@[i as int],
                ));
            }
            i = i + 1;
        }
        let mut s = String::from_str("=== Causal Accountability Record ===\n");
        s.append("Observation Closure: ");
        let h = hex(prefix.as_slice());
        s.append(h.as_str());
        s.append("\n");
        s.append("Predicate Result:    ");
        let r = self.predicate_result.to_display_string();
        s.append(r.as_str());
        s.append("\n");
        s.append("Actor:               ");
        s.append(self.actor_ref.as_str());
        s.append("\n");
        s.append("Transition Type:     ");
        s.append(self.transition_type.as_str());
        s.append("\n");
        s.append("Boundary Version:    ");
        s.append(self.boundary_version.as_str());
        s.append("\n");
        s
    }
}

} // verus!
