//! Evidence Plane: append-only, hash-linked, Ed25519-signed evidence events,
//! grouped into epochs, with signed checkpoints.
//!
//! The plane records what the runtime decided; it never grants authority.
//! Raw prompts, tool arguments and resource locators are not stored here.

use vstd::prelude::*;
use vstd::string::*;
use vstd::utf8::*;

use std::collections::VecDeque;
use std::sync::Arc;

use crate::crypto::{
    CryptoEngine,
    compute_hash, hash_text, signature_hex_valid, signer_fingerprint, signer_fingerprint_spec,
    verify_signature_hex,
};
use crate::sink::RecordedSink;
use crate::clock::{reading_timestamp, SystemClock};
use crate::system::{is_lower_hex, now_nanos, random_uuid_simple, uuid_v4_text};
use crate::encoding::{
    bar_free, lemma_decimal_int_bar_free, lemma_decimal_int_injective, lemma_decimal_nat_injective,
    lemma_decimal_nat_shape, lemma_hex_lower_bar_free, lemma_hex_lower_injective, lemma_join_bar_injective,
    decimal_int, decimal_nat, hex_encode, hex_lower, i64_to_decimal, join_bar, join_with_bar,
    u64_to_decimal,
};

verus! {

pub const EVIDENCE_SCHEMA_VERSION: &'static str = "logos.govsec-evidence.v1";

pub const EVIDENCE_CHECKPOINT_SCHEMA_VERSION: &'static str = "logos.govsec-evidence-checkpoint.v1";

/// The kind of governance decision an evidence event records.
#[derive(Debug, Clone, Copy, PartialEq, Eq, Structural)]
pub enum EvidenceEventType {
    ContextApproved,
    ContextRefused,
    ProviderAuthorized,
    ProviderRefused,
    ActionAuthorized,
    ActionRefused,
    CapabilityConsumed,
    CapabilityRejected,
}

impl EvidenceEventType {
    /// The stable label of the event type.
    pub open spec fn label(self) -> Seq<char> {
        match self {
            EvidenceEventType::ContextApproved => "CONTEXT_APPROVED"@,
            EvidenceEventType::ContextRefused => "CONTEXT_REFUSED"@,
            EvidenceEventType::ProviderAuthorized => "PROVIDER_AUTHORIZED"@,
            EvidenceEventType::ProviderRefused => "PROVIDER_REFUSED"@,
            EvidenceEventType::ActionAuthorized => "ACTION_AUTHORIZED"@,
            EvidenceEventType::ActionRefused => "ACTION_REFUSED"@,
            EvidenceEventType::CapabilityConsumed => "CAPABILITY_CONSUMED"@,
            EvidenceEventType::CapabilityRejected => "CAPABILITY_REJECTED"@,
        }
    }

    pub fn as_str(self) -> (res: &'static str)
        ensures
            res@ == self.label(),
    {
        match self {
            EvidenceEventType::ContextApproved => "CONTEXT_APPROVED",
            EvidenceEventType::ContextRefused => "CONTEXT_REFUSED",
            EvidenceEventType::ProviderAuthorized => "PROVIDER_AUTHORIZED",
            EvidenceEventType::ProviderRefused => "PROVIDER_REFUSED",
            EvidenceEventType::ActionAuthorized => "ACTION_AUTHORIZED",
            EvidenceEventType::ActionRefused => "ACTION_REFUSED",
            EvidenceEventType::CapabilityConsumed => "CAPABILITY_CONSUMED",
            EvidenceEventType::CapabilityRejected => "CAPABILITY_REJECTED",
        }
    }
}

/// The view of an optional string.
pub open spec fn opt_view(value: Option<String>) -> Option<Seq<char>> {
    match value {
        Some(s) => Some(s@),
        None => None,
    }
}

/// Bounded execution evidence. It excludes raw prompt text, model output,
/// tool arguments, credentials and raw resource locators.
#[derive(Debug, Clone)]
pub struct EvidencePayload {
    pub gov_tx_id: Option<String>,
    pub session_id: Option<String>,
    pub run_id: Option<String>,
    pub principal_fingerprint: Option<String>,
    pub authority: Option<String>,
    pub context_hash: Option<String>,
    pub decision_id: Option<String>,
    pub capability_id: Option<String>,
    pub action_hash: Option<String>,
    pub tool_name: Option<String>,
    pub resource_kind: Option<String>,
    /// SHA-256 of the resource locator, never the raw locator.
    pub resource_locator_hash: Option<String>,
    pub tool_call_id: Option<String>,
    pub policy_version: Option<String>,
    pub policy_hash: Option<String>,
    pub outcome: String,
}

/// The model of a payload: its fields as character sequences.
pub struct PayloadView {
    pub gov_tx_id: Option<Seq<char>>,
    pub session_id: Option<Seq<char>>,
    pub run_id: Option<Seq<char>>,
    pub principal_fingerprint: Option<Seq<char>>,
    pub authority: Option<Seq<char>>,
    pub context_hash: Option<Seq<char>>,
    pub decision_id: Option<Seq<char>>,
    pub capability_id: Option<Seq<char>>,
    pub action_hash: Option<Seq<char>>,
    pub tool_name: Option<Seq<char>>,
    pub resource_kind: Option<Seq<char>>,
    pub resource_locator_hash: Option<Seq<char>>,
    pub tool_call_id: Option<Seq<char>>,
    pub policy_version: Option<Seq<char>>,
    pub policy_hash: Option<Seq<char>>,
    pub outcome: Seq<char>,
}

impl View for EvidencePayload {
    type V = PayloadView;

    open spec fn view(&self) -> PayloadView {
        PayloadView {
            gov_tx_id: opt_view(self.gov_tx_id),
            session_id: opt_view(self.session_id),
            run_id: opt_view(self.run_id),
            principal_fingerprint: opt_view(self.principal_fingerprint),
            authority: opt_view(self.authority),
            context_hash: opt_view(self.context_hash),
            decision_id: opt_view(self.decision_id),
            capability_id: opt_view(self.capability_id),
            action_hash: opt_view(self.action_hash),
            tool_name: opt_view(self.tool_name),
            resource_kind: opt_view(self.resource_kind),
            resource_locator_hash: opt_view(self.resource_locator_hash),
            tool_call_id: opt_view(self.tool_call_id),
            policy_version: opt_view(self.policy_version),
            policy_hash: opt_view(self.policy_hash),
            outcome: self.outcome@,
        }
    }
}

impl Default for EvidencePayload {
    fn default() -> (res: Self)
        ensures
            res@ == (PayloadView {
                gov_tx_id: None,
                session_id: None,
                run_id: None,
                principal_fingerprint: None,
                authority: None,
                context_hash: None,
                decision_id: None,
                capability_id: None,
                action_hash: None,
                tool_name: None,
                resource_kind: None,
                resource_locator_hash: None,
                tool_call_id: None,
                policy_version: None,
                policy_hash: None,
                outcome: Seq::empty(),
            }),
    {
        EvidencePayload {
            gov_tx_id: None,
            session_id: None,
            run_id: None,
            principal_fingerprint: None,
            authority: None,
            context_hash: None,
            decision_id: None,
            capability_id: None,
            action_hash: None,
            tool_name: None,
            resource_kind: None,
            resource_locator_hash: None,
            tool_call_id: None,
            policy_version: None,
            policy_hash: None,
            outcome: String::new(),
        }
    }
}

/// One evidence event. `timestamp` is nanoseconds since the Unix epoch (UTC).
#[derive(Debug, Clone)]
pub struct EvidenceEvent {
    pub schema_version: String,
    pub epoch_id: String,
    pub epoch_parent_hash: Option<String>,
    pub sequence: u64,
    pub event_id: String,
    pub timestamp: i64,
    pub event_type: EvidenceEventType,
    pub payload: EvidencePayload,
    pub previous_event_hash: String,
    pub event_hash: String,
    pub signer_fingerprint: String,
    pub signer_public_key: String,
    pub signature: String,
}

/// The model of an event.
pub struct EventView {
    pub schema_version: Seq<char>,
    pub epoch_id: Seq<char>,
    pub epoch_parent_hash: Option<Seq<char>>,
    pub sequence: u64,
    pub event_id: Seq<char>,
    pub timestamp: i64,
    pub event_type: EvidenceEventType,
    pub payload: PayloadView,
    pub previous_event_hash: Seq<char>,
    pub event_hash: Seq<char>,
    pub signer_fingerprint: Seq<char>,
    pub signer_public_key: Seq<char>,
    pub signature: Seq<char>,
}

impl View for EvidenceEvent {
    type V = EventView;

    open spec fn view(&self) -> EventView {
        EventView {
            schema_version: self.schema_version@,
            epoch_id: self.epoch_id@,
            epoch_parent_hash: opt_view(self.epoch_parent_hash),
            sequence: self.sequence,
            event_id: self.event_id@,
            timestamp: self.timestamp,
            event_type: self.event_type,
            payload: self.payload@,
            previous_event_hash: self.previous_event_hash@,
            event_hash: self.event_hash@,
            signer_fingerprint: self.signer_fingerprint@,
            signer_public_key: self.signer_public_key@,
            signature: self.signature@,
        }
    }
}

/// The models of a sequence of events.
pub open spec fn event_views(events: Seq<EvidenceEvent>) -> Seq<EventView> {
    events.map_values(|e: EvidenceEvent| e@)
}

/// A signed checkpoint of an epoch's head. `created_at` is nanoseconds since
/// the Unix epoch (UTC).
#[derive(Debug, Clone)]
pub struct EvidenceCheckpoint {
    pub schema_version: String,
    pub epoch_id: String,
    pub last_sequence: u64,
    pub head_hash: String,
    pub signer_fingerprint: String,
    pub signer_public_key: String,
    pub created_at: i64,
    pub checkpoint_hash: String,
    pub signature: String,
}

/// The model of a checkpoint.
pub struct CheckpointView {
    pub schema_version: Seq<char>,
    pub epoch_id: Seq<char>,
    pub last_sequence: u64,
    pub head_hash: Seq<char>,
    pub signer_fingerprint: Seq<char>,
    pub signer_public_key: Seq<char>,
    pub created_at: i64,
    pub checkpoint_hash: Seq<char>,
    pub signature: Seq<char>,
}

impl View for EvidenceCheckpoint {
    type V = CheckpointView;

    open spec fn view(&self) -> CheckpointView {
        CheckpointView {
            schema_version: self.schema_version@,
            epoch_id: self.epoch_id@,
            last_sequence: self.last_sequence,
            head_hash: self.head_hash@,
            signer_fingerprint: self.signer_fingerprint@,
            signer_public_key: self.signer_public_key@,
            created_at: self.created_at,
            checkpoint_hash: self.checkpoint_hash@,
            signature: self.signature@,
        }
    }
}

/// Hex of the UTF-8 bytes of a field.
pub open spec fn enc_spec(value: Seq<char>) -> Seq<char> {
    hex_lower(encode_utf8(value))
}

/// An optional field: `0` when absent, `1` followed by its hex when present.
pub open spec fn enc_opt_spec(value: Option<Seq<char>>) -> Seq<char> {
    match value {
        Some(v) => seq!['1'] + enc_spec(v),
        None => seq!['0'],
    }
}

/// The fields of an event that its hash covers, in canonical order. The
/// event's own hash and signature are not among them.
pub open spec fn event_fields(e: EventView) -> Seq<Seq<char>> {
    seq![
        enc_spec(e.schema_version),
        enc_spec(e.epoch_id),
        enc_opt_spec(e.epoch_parent_hash),
        decimal_nat(e.sequence as nat),
        enc_spec(e.event_id),
        decimal_int(e.timestamp as int),
        e.event_type.label(),
        enc_opt_spec(e.payload.gov_tx_id),
        enc_opt_spec(e.payload.session_id),
        enc_opt_spec(e.payload.run_id),
        enc_opt_spec(e.payload.principal_fingerprint),
        enc_opt_spec(e.payload.authority),
        enc_opt_spec(e.payload.context_hash),
        enc_opt_spec(e.payload.decision_id),
        enc_opt_spec(e.payload.capability_id),
        enc_opt_spec(e.payload.action_hash),
        enc_opt_spec(e.payload.tool_name),
        enc_opt_spec(e.payload.resource_kind),
        enc_opt_spec(e.payload.resource_locator_hash),
        enc_opt_spec(e.payload.tool_call_id),
        enc_opt_spec(e.payload.policy_version),
        enc_opt_spec(e.payload.policy_hash),
        enc_spec(e.payload.outcome),
        enc_spec(e.previous_event_hash),
        enc_spec(e.signer_fingerprint),
        enc_spec(e.signer_public_key),
    ]
}

/// The canonical material an event's hash is computed over.
pub open spec fn event_material(e: EventView) -> Seq<char> {
    join_bar(event_fields(e))
}

/// The fields of a checkpoint that its hash covers, in canonical order.
pub open spec fn checkpoint_fields(
    schema_version: Seq<char>,
    epoch_id: Seq<char>,
    last_sequence: u64,
    head_hash: Seq<char>,
    signer_fingerprint: Seq<char>,
    signer_public_key: Seq<char>,
    created_at: i64,
) -> Seq<Seq<char>> {
    seq![
        enc_spec(schema_version),
        enc_spec(epoch_id),
        decimal_nat(last_sequence as nat),
        enc_spec(head_hash),
        enc_spec(signer_fingerprint),
        enc_spec(signer_public_key),
        decimal_int(created_at as int),
    ]
}

/// The canonical material a checkpoint's hash is computed over.
pub open spec fn checkpoint_material(c: CheckpointView) -> Seq<char> {
    join_bar(
        checkpoint_fields(
            c.schema_version,
            c.epoch_id,
            c.last_sequence,
            c.head_hash,
            c.signer_fingerprint,
            c.signer_public_key,
            c.created_at,
        ),
    )
}

/// Hex of the UTF-8 bytes of `value`.
pub fn enc(value: &str) -> (res: String)
    ensures
        res@ == enc_spec(value@),
{
    hex_encode(value.as_bytes())
}

/// `0` for an absent field, `1` followed by the field's hex for a present one.
pub fn enc_opt(value: Option<&str>) -> (res: String)
    ensures
        res@ == enc_opt_spec(
            match value {
                Some(v) => Some(v@),
                None => None,
            },
        ),
{
    match value {
        Some(value) => {
            let mut res = String::from_str("1");
            proof {
                reveal_strlit("1");
            }
            let encoded = enc(value);
            res.append(encoded.as_str());
            res
        },
        None => {
            proof {
                reveal_strlit("0");
            }
            String::from_str("0")
        },
    }
}

fn enc_opt_string(value: &Option<String>) -> (res: String)
    ensures
        res@ == enc_opt_spec(opt_view(*value)),
{
    match value {
        Some(v) => enc_opt(Some(v.as_str())),
        None => enc_opt(None),
    }
}

/// The canonical hash material of an event.
pub fn canonical_event_material(event: &EvidenceEvent) -> (res: String)
    ensures
        res@ == event_material(event@),
{
    let payload = &event.payload;
    let mut fields: Vec<String> = Vec::new();
    fields.push(enc(event.schema_version.as_str()));
    fields.push(enc(event.epoch_id.as_str()));
    fields.push(enc_opt_string(&event.epoch_parent_hash));
    fields.push(u64_to_decimal(event.sequence));
    fields.push(enc(event.event_id.as_str()));
    fields.push(i64_to_decimal(event.timestamp));
    fields.push(String::from_str(event.event_type.as_str()));
    fields.push(enc_opt_string(&payload.gov_tx_id));
    fields.push(enc_opt_string(&payload.session_id));
    fields.push(enc_opt_string(&payload.run_id));
    fields.push(enc_opt_string(&payload.principal_fingerprint));
    fields.push(enc_opt_string(&payload.authority));
    fields.push(enc_opt_string(&payload.context_hash));
    fields.push(enc_opt_string(&payload.decision_id));
    fields.push(enc_opt_string(&payload.capability_id));
    fields.push(enc_opt_string(&payload.action_hash));
    fields.push(enc_opt_string(&payload.tool_name));
    fields.push(enc_opt_string(&payload.resource_kind));
    fields.push(enc_opt_string(&payload.resource_locator_hash));
    fields.push(enc_opt_string(&payload.tool_call_id));
    fields.push(enc_opt_string(&payload.policy_version));
    fields.push(enc_opt_string(&payload.policy_hash));
    fields.push(enc(payload.outcome.as_str()));
    fields.push(enc(event.previous_event_hash.as_str()));
    fields.push(enc(event.signer_fingerprint.as_str()));
    fields.push(enc(event.signer_public_key.as_str()));
    assert(fields.deep_view() =~= event_fields(event@));
    join_with_bar(&fields)
}

/// The canonical hash material of a checkpoint.
pub fn canonical_checkpoint_material(
    schema_version: &str,
    epoch_id: &str,
    last_sequence: u64,
    head_hash: &str,
    signer_fingerprint: &str,
    signer_public_key: &str,
    created_at: i64,
) -> (res: String)
    ensures
        res@ == join_bar(
            checkpoint_fields(
                schema_version@,
                epoch_id@,
                last_sequence,
                head_hash@,
                signer_fingerprint@,
                signer_public_key@,
                created_at,
            ),
        ),
{
    let mut fields: Vec<String> = Vec::new();
    fields.push(enc(schema_version));
    fields.push(enc(epoch_id));
    fields.push(u64_to_decimal(last_sequence));
    fields.push(enc(head_hash));
    fields.push(enc(signer_fingerprint));
    fields.push(enc(signer_public_key));
    fields.push(i64_to_decimal(created_at));
    assert(fields.deep_view() =~= checkpoint_fields(
        schema_version@,
        epoch_id@,
        last_sequence,
        head_hash@,
        signer_fingerprint@,
        signer_public_key@,
        created_at,
    ));
    join_with_bar(&fields)
}


/// Why an evidence snapshot or checkpoint failed verification.
#[derive(Debug, Clone, PartialEq, Eq, Structural)]
pub enum EvidenceVerificationError {
    InvalidCheckpoint,
    CheckpointSignerMismatch,
    SchemaMismatch { sequence: u64 },
    MixedEpoch,
    MixedSigner,
    SignerFingerprintMismatch,
    InvalidSequence { expected: u64, actual: u64 },
    ParentMismatch { sequence: u64 },
    HashMismatch { sequence: u64 },
    SignatureInvalid { sequence: u64 },
}

/// A random identifier: the prefix followed by the 32 lowercase hex digits
/// of a version 4 UUID.
pub open spec fn random_id(id: Seq<char>, prefix: Seq<char>) -> bool {
    &&& id.len() == 36
    &&& id.take(4) == prefix
    &&& is_lower_hex(id.skip(4))
    &&& uuid_v4_text(id.skip(4))
}

/// The hash an epoch without a parent starts its chain from.
pub open spec fn genesis_hash(epoch_id: Seq<char>, signer_fingerprint: Seq<char>) -> Seq<char> {
    hash_text(EVIDENCE_SCHEMA_VERSION@ + "|GENESIS|"@ + epoch_id + "|"@ + signer_fingerprint)
}

/// The hash the first event of an epoch links to: the parent checkpoint's
/// head, or the epoch's genesis hash.
pub open spec fn epoch_start_hash(
    epoch_id: Seq<char>,
    epoch_parent_hash: Option<Seq<char>>,
    signer_fingerprint: Seq<char>,
) -> Seq<char> {
    match epoch_parent_hash {
        Some(parent) => parent,
        None => genesis_hash(epoch_id, signer_fingerprint),
    }
}

/// Checks events from index `i` on, in order, against the first event's
/// epoch, parent and signer, with `previous` the hash event `i` must link to.
/// The first failing check of the first failing event decides the error.
pub open spec fn chain_check(
    events: Seq<EventView>,
    epoch_id: Seq<char>,
    epoch_parent_hash: Option<Seq<char>>,
    public_key: Seq<char>,
    fingerprint: Seq<char>,
    i: nat,
    previous: Seq<char>,
) -> Result<(), EvidenceVerificationError>
    decreases events.len() - i,
{
    if i >= events.len() {
        Ok(())
    } else {
        let e = events[i as int];
        if e.schema_version != EVIDENCE_SCHEMA_VERSION@ {
            Err(EvidenceVerificationError::SchemaMismatch { sequence: e.sequence })
        } else if e.epoch_id != epoch_id || e.epoch_parent_hash != epoch_parent_hash {
            Err(EvidenceVerificationError::MixedEpoch)
        } else if e.signer_public_key != public_key || e.signer_fingerprint != fingerprint {
            Err(EvidenceVerificationError::MixedSigner)
        } else if e.sequence != i + 1 {
            Err(EvidenceVerificationError::InvalidSequence { expected: (i + 1) as u64, actual: e.sequence })
        } else if e.previous_event_hash != previous {
            Err(EvidenceVerificationError::ParentMismatch { sequence: e.sequence })
        } else if hash_text(event_material(e)) != e.event_hash {
            Err(EvidenceVerificationError::HashMismatch { sequence: e.sequence })
        } else if !signature_hex_valid(e.signer_public_key, encode_utf8(e.event_hash), e.signature) {
            Err(EvidenceVerificationError::SignatureInvalid { sequence: e.sequence })
        } else {
            chain_check(events, epoch_id, epoch_parent_hash, public_key, fingerprint, i + 1, e.event_hash)
        }
    }
}

/// The outcome of verifying a snapshot of one epoch: empty snapshots pass;
/// otherwise the first event's public key must yield its fingerprint, and
/// every event is checked in order.
pub open spec fn verify_snapshot_spec(events: Seq<EventView>) -> Result<(), EvidenceVerificationError> {
    if events.len() == 0 {
        Ok(())
    } else {
        let first = events[0];
        match signer_fingerprint_spec(first.signer_public_key) {
            None => Err(EvidenceVerificationError::SignerFingerprintMismatch),
            Some(fp) => if fp != first.signer_fingerprint {
                Err(EvidenceVerificationError::SignerFingerprintMismatch)
            } else {
                chain_check(
                    events,
                    first.epoch_id,
                    first.epoch_parent_hash,
                    first.signer_public_key,
                    fp,
                    0,
                    epoch_start_hash(first.epoch_id, first.epoch_parent_hash, fp),
                )
            },
        }
    }
}

/// A checkpoint is valid when its schema is the checkpoint schema, its public
/// key yields its fingerprint, its hash covers its material, and its
/// signature over that hash verifies under its key.
pub open spec fn checkpoint_valid(c: CheckpointView) -> bool {
    &&& c.schema_version == EVIDENCE_CHECKPOINT_SCHEMA_VERSION@
    &&& signer_fingerprint_spec(c.signer_public_key) == Some(c.signer_fingerprint)
    &&& hash_text(checkpoint_material(c)) == c.checkpoint_hash
    &&& signature_hex_valid(c.signer_public_key, encode_utf8(c.checkpoint_hash), c.signature)
}

/// A valid checkpoint is signed: its signature over its hash verifies under
/// its public key, its hash covers its material, and its fingerprint is its
/// key's.
pub proof fn lemma_valid_checkpoint_is_signed(c: CheckpointView)
    requires
        checkpoint_valid(c),
    ensures
        signature_hex_valid(c.signer_public_key, encode_utf8(c.checkpoint_hash), c.signature),
        hash_text(checkpoint_material(c)) == c.checkpoint_hash,
        signer_fingerprint_spec(c.signer_public_key) == Some(c.signer_fingerprint),
        c.schema_version == EVIDENCE_CHECKPOINT_SCHEMA_VERSION@,
{
}

/// The outcome of verifying a snapshot against a checkpoint of its epoch.
pub open spec fn verify_against_checkpoint_spec(
    events: Seq<EventView>,
    c: CheckpointView,
) -> Result<(), EvidenceVerificationError> {
    if !checkpoint_valid(c) {
        Err(EvidenceVerificationError::InvalidCheckpoint)
    } else if verify_snapshot_spec(events) is Err {
        verify_snapshot_spec(events)
    } else if events.len() == 0 {
        if c.last_sequence == 0 {
            Ok(())
        } else {
            Err(EvidenceVerificationError::InvalidSequence { expected: c.last_sequence, actual: 0 })
        }
    } else {
        let last = events.last();
        if last.epoch_id != c.epoch_id {
            Err(EvidenceVerificationError::MixedEpoch)
        } else if last.signer_public_key != c.signer_public_key || last.signer_fingerprint != c.signer_fingerprint {
            Err(EvidenceVerificationError::MixedSigner)
        } else if last.sequence != c.last_sequence {
            Err(EvidenceVerificationError::InvalidSequence { expected: c.last_sequence, actual: last.sequence })
        } else if last.event_hash != c.head_hash {
            Err(EvidenceVerificationError::ParentMismatch { sequence: last.sequence })
        } else {
            Ok(())
        }
    }
}

fn same_text(a: &str, b: &str) -> (res: bool)
    ensures
        res == (a@ == b@),
{
    String::from_str(a) == String::from_str(b)
}

fn same_optional_text(a: &Option<String>, b: &Option<String>) -> (res: bool)
    ensures
        res == (opt_view(*a) == opt_view(*b)),
{
    match (a, b) {
        (Some(x), Some(y)) => same_text(x.as_str(), y.as_str()),
        (None, None) => true,
        _ => false,
    }
}

fn copy_optional_text(a: &Option<String>) -> (res: Option<String>)
    ensures
        opt_view(res) == opt_view(*a),
{
    match a {
        Some(x) => Some(x.clone()),
        None => None,
    }
}

/// The hash an epoch starts from, computed.
fn compute_epoch_start_hash(epoch_id: &str, epoch_parent_hash: &Option<String>, fingerprint: &str) -> (res: String)
    ensures
        res@ == epoch_start_hash(epoch_id@, opt_view(*epoch_parent_hash), fingerprint@),
{
    match epoch_parent_hash {
        Some(parent) => parent.clone(),
        None => {
            let mut text = String::from_str(EVIDENCE_SCHEMA_VERSION);
            text.append("|GENESIS|");
            text.append(epoch_id);
            text.append("|");
            text.append(fingerprint);
            compute_hash(text.as_str())
        },
    }
}

impl EvidenceEvent {
    fn hash_material(&self) -> (res: String)
        ensures
            res@ == event_material(self@),
    {
        canonical_event_material(self)
    }

    /// The hash of the event's canonical material.
    pub fn recompute_hash(&self) -> (res: String)
        ensures
            res@ == hash_text(event_material(self@)),
    {
        compute_hash(self.hash_material().as_str())
    }

    /// Whether the event's signature over its hash verifies under its public key.
    pub fn verify_signature(&self) -> (res: bool)
        ensures
            res == signature_hex_valid(self.signer_public_key@, encode_utf8(self.event_hash@), self.signature@),
    {
        verify_signature_hex(
            self.signer_public_key.as_str(),
            self.event_hash.as_str().as_bytes(),
            self.signature.as_str(),
        )
    }
}

impl EvidenceCheckpoint {
    fn hash_material(&self) -> (res: String)
        ensures
            res@ == checkpoint_material(self@),
    {
        canonical_checkpoint_material(
            self.schema_version.as_str(),
            self.epoch_id.as_str(),
            self.last_sequence,
            self.head_hash.as_str(),
            self.signer_fingerprint.as_str(),
            self.signer_public_key.as_str(),
            self.created_at,
        )
    }

    /// The hash of the checkpoint's canonical material.
    pub fn recompute_hash(&self) -> (res: String)
        ensures
            res@ == hash_text(checkpoint_material(self@)),
    {
        compute_hash(self.hash_material().as_str())
    }

    /// Whether the checkpoint is valid (see `checkpoint_valid`). An accepted
    /// checkpoint carries the checkpoint schema, its key's fingerprint, a hash
    /// over its own material, and a signature over that hash that verifies
    /// under its key.
    pub fn verify(&self) -> (res: bool)
        ensures
            res == checkpoint_valid(self@),
            res ==> signature_hex_valid(self.signer_public_key@, encode_utf8(self.checkpoint_hash@), self.signature@),
            res ==> hash_text(checkpoint_material(self@)) == self.checkpoint_hash@,
            res ==> signer_fingerprint_spec(self.signer_public_key@) == Some(self.signer_fingerprint@),
            res ==> self.schema_version@ == EVIDENCE_CHECKPOINT_SCHEMA_VERSION@,
    {
        if !same_text(self.schema_version.as_str(), EVIDENCE_CHECKPOINT_SCHEMA_VERSION) {
            return false;
        }
        let fingerprint = match signer_fingerprint(self.signer_public_key.as_str()) {
            Some(fp) => fp,
            None => return false,
        };
        if fingerprint != self.signer_fingerprint {
            return false;
        }
        if self.recompute_hash() != self.checkpoint_hash {
            return false;
        }
        verify_signature_hex(
            self.signer_public_key.as_str(),
            self.checkpoint_hash.as_str().as_bytes(),
            self.signature.as_str(),
        )
    }
}


/// The hash event `i` of a snapshot must link to: the epoch's start for the
/// first event, its predecessor's hash otherwise.
pub open spec fn expected_previous(events: Seq<EventView>, i: int) -> Seq<char> {
    if i == 0 {
        epoch_start_hash(events[0].epoch_id, events[0].epoch_parent_hash, events[0].signer_fingerprint)
    } else {
        events[i - 1].event_hash
    }
}

/// Event `i` of a snapshot is in the first event's schema, epoch and signer,
/// is numbered `i + 1`, links to the hash before it, its hash covers its
/// canonical material and its signature over that hash verifies.
pub open spec fn linked_at(events: Seq<EventView>, i: int) -> bool {
    let e = events[i];
    let first = events[0];
    &&& e.schema_version == EVIDENCE_SCHEMA_VERSION@
    &&& e.epoch_id == first.epoch_id
    &&& e.epoch_parent_hash == first.epoch_parent_hash
    &&& e.signer_public_key == first.signer_public_key
    &&& e.signer_fingerprint == first.signer_fingerprint
    &&& e.sequence == i + 1
    &&& e.previous_event_hash == expected_previous(events, i)
    &&& e.event_hash == hash_text(event_material(e))
    &&& signature_hex_valid(e.signer_public_key, encode_utf8(e.event_hash), e.signature)
}

/// A snapshot is well linked when the first event's key yields its
/// fingerprint and every event is linked as `linked_at` says.
pub open spec fn well_linked(events: Seq<EventView>) -> bool {
    &&& events.len() > 0 ==> signer_fingerprint_spec(events[0].signer_public_key) == Some(
        events[0].signer_fingerprint,
    )
    &&& forall|i: int| 0 <= i < events.len() ==> #[trigger] linked_at(events, i)
}

proof fn lemma_chain_check_linked(events: Seq<EventView>, i: nat)
    requires
        events.len() > 0,
        i <= events.len(),
    ensures
        chain_check(
            events,
            events[0].epoch_id,
            events[0].epoch_parent_hash,
            events[0].signer_public_key,
            events[0].signer_fingerprint,
            i,
            expected_previous(events, i as int),
        ) is Ok <==> (forall|j: int| i <= j < events.len() ==> #[trigger] linked_at(events, j)),
    decreases events.len() - i,
{
    if i < events.len() {
        lemma_chain_check_linked(events, i + 1);
        assert(expected_previous(events, (i + 1) as int) == events[i as int].event_hash);
        if forall|j: int| i <= j < events.len() ==> #[trigger] linked_at(events, j) {
            assert(linked_at(events, i as int));
            assert forall|j: int| i + 1 <= j < events.len() implies #[trigger] linked_at(events, j) by {
                assert(linked_at(events, j));
            }
        }
    }
}

/// A snapshot passes `verify_snapshot` exactly when it is well linked: one
/// epoch and one signer, sequence numbers 1, 2, 3, ... with no gap, each event
/// linked to the one before it (the first to the epoch's start), each hash
/// covering its event and each signature verifying.
pub proof fn lemma_verify_snapshot_iff_well_linked(events: Seq<EventView>)
    ensures
        verify_snapshot_spec(events) is Ok <==> well_linked(events),
{
    if events.len() > 0 {
        lemma_chain_check_linked(events, 0);
        assert(expected_previous(events, 0) == epoch_start_hash(
            events[0].epoch_id,
            events[0].epoch_parent_hash,
            events[0].signer_fingerprint,
        ));
    }
}

/// Every event of a snapshot that verifies is authentic and in place: it
/// carries the evidence schema, the first event's epoch, parent and signer,
/// the sequence number of its position, the hash of the event before it (the
/// epoch's start for the first), a hash over its own canonical material, and
/// a signature over that hash that verifies under the signer's key.
pub proof fn lemma_verified_snapshot_is_authentic(events: Seq<EventView>)
    requires
        verify_snapshot_spec(events) is Ok,
    ensures
        events.len() > 0 ==> signer_fingerprint_spec(events[0].signer_public_key) == Some(events[0].signer_fingerprint),
        forall|i: int| 0 <= i < events.len() ==> {
            let e = #[trigger] events[i];
            &&& e.schema_version == EVIDENCE_SCHEMA_VERSION@
            &&& e.epoch_id == events[0].epoch_id
            &&& e.epoch_parent_hash == events[0].epoch_parent_hash
            &&& e.signer_public_key == events[0].signer_public_key
            &&& e.signer_fingerprint == events[0].signer_fingerprint
            &&& e.sequence == i + 1
            &&& i == 0 ==> e.previous_event_hash == epoch_start_hash(e.epoch_id, e.epoch_parent_hash, e.signer_fingerprint)
            &&& i > 0 ==> e.previous_event_hash == events[i - 1].event_hash
            &&& e.event_hash == hash_text(event_material(e))
            &&& signature_hex_valid(e.signer_public_key, encode_utf8(e.event_hash), e.signature)
        },
{
    lemma_verify_snapshot_iff_well_linked(events);
    assert forall|i: int| 0 <= i < events.len() implies {
        let e = #[trigger] events[i];
        &&& e.schema_version == EVIDENCE_SCHEMA_VERSION@
        &&& e.epoch_id == events[0].epoch_id
        &&& e.epoch_parent_hash == events[0].epoch_parent_hash
        &&& e.signer_public_key == events[0].signer_public_key
        &&& e.signer_fingerprint == events[0].signer_fingerprint
        &&& e.sequence == i + 1
        &&& i == 0 ==> e.previous_event_hash == epoch_start_hash(e.epoch_id, e.epoch_parent_hash, e.signer_fingerprint)
        &&& i > 0 ==> e.previous_event_hash == events[i - 1].event_hash
        &&& e.event_hash == hash_text(event_material(e))
        &&& signature_hex_valid(e.signer_public_key, encode_utf8(e.event_hash), e.signature)
    } by {
        assert(linked_at(events, i));
    }
}

/// Removing an event other than the last from a snapshot that verifies gives
/// one that does not.
pub proof fn lemma_interior_deletion_detected(events: Seq<EventView>, k: int)
    requires
        verify_snapshot_spec(events) is Ok,
        0 <= k < events.len() - 1,
    ensures
        verify_snapshot_spec(events.remove(k)) is Err,
{
    lemma_verify_snapshot_iff_well_linked(events);
    lemma_verify_snapshot_iff_well_linked(events.remove(k));
    assert(linked_at(events, k + 1));
    if verify_snapshot_spec(events.remove(k)) is Ok {
        assert(linked_at(events.remove(k), k));
        assert(events.remove(k)[k] == events[k + 1]);
    }
}

/// Exchanging two events of a snapshot that verifies gives one that does not.
pub proof fn lemma_reordering_detected(events: Seq<EventView>, i: int, j: int)
    requires
        verify_snapshot_spec(events) is Ok,
        0 <= i < j < events.len(),
    ensures
        verify_snapshot_spec(events.update(i, events[j]).update(j, events[i])) is Err,
{
    let swapped = events.update(i, events[j]).update(j, events[i]);
    lemma_verify_snapshot_iff_well_linked(events);
    lemma_verify_snapshot_iff_well_linked(swapped);
    assert(linked_at(events, j));
    if verify_snapshot_spec(swapped) is Ok {
        assert(linked_at(swapped, i));
    }
}

/// Two non-empty snapshots of different epochs, or under different signer
/// keys, do not verify as one.
pub proof fn lemma_mixed_snapshots_detected(a: Seq<EventView>, b: Seq<EventView>)
    requires
        a.len() > 0,
        b.len() > 0,
        a[0].epoch_id != b[0].epoch_id || a[0].signer_public_key != b[0].signer_public_key,
    ensures
        verify_snapshot_spec(a + b) is Err,
{
    lemma_verify_snapshot_iff_well_linked(a + b);
    if verify_snapshot_spec(a + b) is Ok {
        assert(linked_at(a + b, a.len() as int));
        assert((a + b)[a.len() as int] == b[0]);
        assert((a + b)[0] == a[0]);
    }
}

/// Dropping events from the end of a snapshot that verifies against a
/// checkpoint gives one that does not.
pub proof fn lemma_tail_truncation_detected(events: Seq<EventView>, c: CheckpointView, k: int)
    requires
        verify_against_checkpoint_spec(events, c) is Ok,
        0 <= k < events.len(),
    ensures
        verify_against_checkpoint_spec(events.take(k), c) is Err,
{
    lemma_verify_snapshot_iff_well_linked(events);
    lemma_verify_snapshot_iff_well_linked(events.take(k));
    assert(linked_at(events, events.len() - 1));
    if k > 0 && verify_snapshot_spec(events.take(k)) is Ok {
        assert(linked_at(events.take(k), k - 1));
        assert(events.take(k).last() == events[k - 1]);
    }
}


/// A snapshot that verifies against a checkpoint has exactly as many events
/// as the checkpoint's sequence, and ends at the checkpoint's head.
pub proof fn lemma_checkpoint_pins_length_and_head(events: Seq<EventView>, c: CheckpointView)
    requires
        verify_against_checkpoint_spec(events, c) is Ok,
    ensures
        events.len() == c.last_sequence,
        events.len() > 0 ==> events.last().event_hash == c.head_hash,
        checkpoint_valid(c),
        well_linked(events),
{
    lemma_verify_snapshot_iff_well_linked(events);
    if events.len() > 0 {
        assert(linked_at(events, events.len() - 1));
    }
}


proof fn lemma_enc_facts(a: Seq<char>, b: Seq<char>)
    ensures
        bar_free(enc_spec(a)),
        enc_spec(a) == enc_spec(b) ==> a == b,
{
    lemma_hex_lower_bar_free(encode_utf8(a));
    if enc_spec(a) == enc_spec(b) {
        lemma_hex_lower_injective(encode_utf8(a), encode_utf8(b));
        encode_utf8_decode_utf8(a);
        encode_utf8_decode_utf8(b);
    }
}

proof fn lemma_enc_opt_facts(a: Option<Seq<char>>, b: Option<Seq<char>>)
    ensures
        bar_free(enc_opt_spec(a)),
        enc_opt_spec(a) == enc_opt_spec(b) ==> a == b,
{
    match a {
        Some(x) => {
            lemma_enc_facts(x, x);
            let t = enc_opt_spec(a);
            assert forall|i: int| 0 <= i < t.len() implies #[trigger] t[i] != '|' by {
                if i > 0 {
                    assert(t[i] == enc_spec(x)[i - 1]);
                }
            }
        },
        None => {},
    }
    if enc_opt_spec(a) == enc_opt_spec(b) {
        assert(enc_opt_spec(a)[0] == enc_opt_spec(b)[0]);
        if let (Some(x), Some(y)) = (a, b) {
            assert(enc_opt_spec(a).drop_first() =~= enc_spec(x));
            assert(enc_opt_spec(b).drop_first() =~= enc_spec(y));
            lemma_enc_facts(x, y);
        }
    }
}

proof fn lemma_label_facts(a: EvidenceEventType, b: EvidenceEventType)
    ensures
        bar_free(a.label()),
        a.label() == b.label() ==> a == b,
{
    reveal_strlit("CONTEXT_APPROVED");
    reveal_strlit("CONTEXT_REFUSED");
    reveal_strlit("PROVIDER_AUTHORIZED");
    reveal_strlit("PROVIDER_REFUSED");
    reveal_strlit("ACTION_AUTHORIZED");
    reveal_strlit("ACTION_REFUSED");
    reveal_strlit("CAPABILITY_CONSUMED");
    reveal_strlit("CAPABILITY_REJECTED");
    if a.label() == b.label() && a != b {
        assert(a.label().len() == b.label().len());
        assert(a.label()[0] == b.label()[0]);
        assert(a.label()[a.label().len() - 2] == b.label()[b.label().len() - 2]);
        assert(a.label()[a.label().len() - 3] == b.label()[b.label().len() - 3]);
        assert(a.label()[9] == b.label()[9]);
    }
}

/// The canonical material of an event determines every field it covers:
/// two events with the same material agree on all fields but their stored
/// hash and signature. (Every field is encoded without `|`, and each
/// encoding loses nothing.)
pub proof fn lemma_event_material_determines_fields(a: EventView, b: EventView)
    requires
        event_material(a) == event_material(b),
    ensures
        a.schema_version == b.schema_version,
        a.epoch_id == b.epoch_id,
        a.epoch_parent_hash == b.epoch_parent_hash,
        a.sequence == b.sequence,
        a.event_id == b.event_id,
        a.timestamp == b.timestamp,
        a.event_type == b.event_type,
        a.payload == b.payload,
        a.previous_event_hash == b.previous_event_hash,
        a.signer_fingerprint == b.signer_fingerprint,
        a.signer_public_key == b.signer_public_key,
{
    let fa = event_fields(a);
    let fb = event_fields(b);
    assert forall|x: EventView| #![trigger event_fields(x)] true implies forall|i: int|
        0 <= i < event_fields(x).len() ==> bar_free(#[trigger] event_fields(x)[i]) by {
        lemma_enc_facts(x.schema_version, x.schema_version);
        lemma_enc_facts(x.epoch_id, x.epoch_id);
        lemma_enc_opt_facts(x.epoch_parent_hash, x.epoch_parent_hash);
        lemma_decimal_nat_shape(x.sequence as nat);
        lemma_enc_facts(x.event_id, x.event_id);
        lemma_decimal_int_bar_free(x.timestamp as int);
        lemma_label_facts(x.event_type, x.event_type);
        lemma_enc_opt_facts(x.payload.gov_tx_id, x.payload.gov_tx_id);
        lemma_enc_opt_facts(x.payload.session_id, x.payload.session_id);
        lemma_enc_opt_facts(x.payload.run_id, x.payload.run_id);
        lemma_enc_opt_facts(x.payload.principal_fingerprint, x.payload.principal_fingerprint);
        lemma_enc_opt_facts(x.payload.authority, x.payload.authority);
        lemma_enc_opt_facts(x.payload.context_hash, x.payload.context_hash);
        lemma_enc_opt_facts(x.payload.decision_id, x.payload.decision_id);
        lemma_enc_opt_facts(x.payload.capability_id, x.payload.capability_id);
        lemma_enc_opt_facts(x.payload.action_hash, x.payload.action_hash);
        lemma_enc_opt_facts(x.payload.tool_name, x.payload.tool_name);
        lemma_enc_opt_facts(x.payload.resource_kind, x.payload.resource_kind);
        lemma_enc_opt_facts(x.payload.resource_locator_hash, x.payload.resource_locator_hash);
        lemma_enc_opt_facts(x.payload.tool_call_id, x.payload.tool_call_id);
        lemma_enc_opt_facts(x.payload.policy_version, x.payload.policy_version);
        lemma_enc_opt_facts(x.payload.policy_hash, x.payload.policy_hash);
        lemma_enc_facts(x.payload.outcome, x.payload.outcome);
        lemma_enc_facts(x.previous_event_hash, x.previous_event_hash);
        lemma_enc_facts(x.signer_fingerprint, x.signer_fingerprint);
        lemma_enc_facts(x.signer_public_key, x.signer_public_key);
    }
    assert(fa.len() == fb.len());
    lemma_join_bar_injective(fa, fb);
    assert(fa[0] == fb[0]);
    lemma_enc_facts(a.schema_version, b.schema_version);
    assert(fa[1] == fb[1]);
    lemma_enc_facts(a.epoch_id, b.epoch_id);
    assert(fa[2] == fb[2]);
    lemma_enc_opt_facts(a.epoch_parent_hash, b.epoch_parent_hash);
    assert(fa[3] == fb[3]);
    lemma_decimal_nat_injective(a.sequence as nat, b.sequence as nat);
    assert(fa[4] == fb[4]);
    lemma_enc_facts(a.event_id, b.event_id);
    assert(fa[5] == fb[5]);
    lemma_decimal_int_injective(a.timestamp as int, b.timestamp as int);
    assert(fa[6] == fb[6]);
    lemma_label_facts(a.event_type, b.event_type);
    assert(fa[7] == fb[7]);
    lemma_enc_opt_facts(a.payload.gov_tx_id, b.payload.gov_tx_id);
    assert(fa[8] == fb[8]);
    lemma_enc_opt_facts(a.payload.session_id, b.payload.session_id);
    assert(fa[9] == fb[9]);
    lemma_enc_opt_facts(a.payload.run_id, b.payload.run_id);
    assert(fa[10] == fb[10]);
    lemma_enc_opt_facts(a.payload.principal_fingerprint, b.payload.principal_fingerprint);
    assert(fa[11] == fb[11]);
    lemma_enc_opt_facts(a.payload.authority, b.payload.authority);
    assert(fa[12] == fb[12]);
    lemma_enc_opt_facts(a.payload.context_hash, b.payload.context_hash);
    assert(fa[13] == fb[13]);
    lemma_enc_opt_facts(a.payload.decision_id, b.payload.decision_id);
    assert(fa[14] == fb[14]);
    lemma_enc_opt_facts(a.payload.capability_id, b.payload.capability_id);
    assert(fa[15] == fb[15]);
    lemma_enc_opt_facts(a.payload.action_hash, b.payload.action_hash);
    assert(fa[16] == fb[16]);
    lemma_enc_opt_facts(a.payload.tool_name, b.payload.tool_name);
    assert(fa[17] == fb[17]);
    lemma_enc_opt_facts(a.payload.resource_kind, b.payload.resource_kind);
    assert(fa[18] == fb[18]);
    lemma_enc_opt_facts(a.payload.resource_locator_hash, b.payload.resource_locator_hash);
    assert(fa[19] == fb[19]);
    lemma_enc_opt_facts(a.payload.tool_call_id, b.payload.tool_call_id);
    assert(fa[20] == fb[20]);
    lemma_enc_opt_facts(a.payload.policy_version, b.payload.policy_version);
    assert(fa[21] == fb[21]);
    lemma_enc_opt_facts(a.payload.policy_hash, b.payload.policy_hash);
    assert(fa[22] == fb[22]);
    lemma_enc_facts(a.payload.outcome, b.payload.outcome);
    assert(fa[23] == fb[23]);
    lemma_enc_facts(a.previous_event_hash, b.previous_event_hash);
    assert(fa[24] == fb[24]);
    lemma_enc_facts(a.signer_fingerprint, b.signer_fingerprint);
    assert(fa[25] == fb[25]);
    lemma_enc_facts(a.signer_public_key, b.signer_public_key);
}

/// An event that passes the hash check yet differs from another passing
/// event with the same stored hash in any covered field gives two different
/// materials with the same SHA-256 hash: changing a covered field goes
/// undetected only through a hash collision.
pub proof fn lemma_undetected_mutation_needs_collision(a: EventView, b: EventView)
    requires
        a.event_hash == hash_text(event_material(a)),
        b.event_hash == hash_text(event_material(b)),
        a.event_hash == b.event_hash,
        !(a.schema_version == b.schema_version && a.epoch_id == b.epoch_id
            && a.epoch_parent_hash == b.epoch_parent_hash && a.sequence == b.sequence
            && a.event_id == b.event_id && a.timestamp == b.timestamp && a.event_type == b.event_type
            && a.payload == b.payload && a.previous_event_hash == b.previous_event_hash
            && a.signer_fingerprint == b.signer_fingerprint && a.signer_public_key == b.signer_public_key),
    ensures
        event_material(a) != event_material(b),
        hash_text(event_material(a)) == hash_text(event_material(b)),
{
    if event_material(a) == event_material(b) {
        lemma_event_material_determines_fields(a, b);
    }
}

proof fn lemma_recorded_chain_well_linked(
    events: Seq<EventView>,
    epoch_id: Seq<char>,
    epoch_parent_hash: Option<Seq<char>>,
    public_key: Seq<char>,
    fingerprint: Seq<char>,
    secret: Seq<u8>,
)
    requires
        recorded_chain(events, epoch_id, epoch_parent_hash, public_key, fingerprint, secret),
        signer_fingerprint_spec(public_key) == Some(fingerprint),
    ensures
        well_linked(events),
        verify_snapshot_spec(events) is Ok,
{
    if events.len() > 0 {
        assert(recorded_at(events, 0, epoch_id, epoch_parent_hash, public_key, fingerprint, secret));
        assert forall|i: int| 0 <= i < events.len() implies #[trigger] linked_at(events, i) by {
            assert(recorded_at(events, i, epoch_id, epoch_parent_hash, public_key, fingerprint, secret));
        }
    }
    lemma_verify_snapshot_iff_well_linked(events);
}

fn copy_payload(p: &EvidencePayload) -> (res: EvidencePayload)
    ensures
        res@ == p@,
{
    EvidencePayload {
        gov_tx_id: copy_optional_text(&p.gov_tx_id),
        session_id: copy_optional_text(&p.session_id),
        run_id: copy_optional_text(&p.run_id),
        principal_fingerprint: copy_optional_text(&p.principal_fingerprint),
        authority: copy_optional_text(&p.authority),
        context_hash: copy_optional_text(&p.context_hash),
        decision_id: copy_optional_text(&p.decision_id),
        capability_id: copy_optional_text(&p.capability_id),
        action_hash: copy_optional_text(&p.action_hash),
        tool_name: copy_optional_text(&p.tool_name),
        resource_kind: copy_optional_text(&p.resource_kind),
        resource_locator_hash: copy_optional_text(&p.resource_locator_hash),
        tool_call_id: copy_optional_text(&p.tool_call_id),
        policy_version: copy_optional_text(&p.policy_version),
        policy_hash: copy_optional_text(&p.policy_hash),
        outcome: p.outcome.clone(),
    }
}

/// A copy of an event, field for field.
pub fn copy_event(e: &EvidenceEvent) -> (res: EvidenceEvent)
    ensures
        res@ == e@,
{
    EvidenceEvent {
        schema_version: e.schema_version.clone(),
        epoch_id: e.epoch_id.clone(),
        epoch_parent_hash: copy_optional_text(&e.epoch_parent_hash),
        sequence: e.sequence,
        event_id: e.event_id.clone(),
        timestamp: e.timestamp,
        event_type: e.event_type,
        payload: copy_payload(&e.payload),
        previous_event_hash: e.previous_event_hash.clone(),
        event_hash: e.event_hash.clone(),
        signer_fingerprint: e.signer_fingerprint.clone(),
        signer_public_key: e.signer_public_key.clone(),
        signature: e.signature.clone(),
    }
}

/// A copy of a list of events, in order.
pub fn copy_events(events: &Vec<EvidenceEvent>) -> (res: Vec<EvidenceEvent>)
    ensures
        event_views(res@) == event_views(events@),
{
    let mut res: Vec<EvidenceEvent> = Vec::new();
    let mut i: usize = 0;
    while i < events.len()
        invariant
            i <= events@.len(),
            res@.len() == i,
            forall|j: int| 0 <= j < i ==> (#[trigger] res@[j])@ == events@[j]@,
        decreases events.len() - i,
    {
        res.push(copy_event(&events[i]));
        i = i + 1;
    }
    assert(event_views(res@) =~= event_views(events@));
    res
}

/// An error reported by an external evidence sink.
#[derive(Debug, Clone)]
pub struct EvidenceSinkError {
    pub sink: String,
    pub message: String,
}

impl EvidenceSinkError {
    /// The error's text: `evidence sink {sink} failed: {message}`.
    pub open spec fn description(&self) -> Seq<char> {
        "evidence sink "@ + self.sink@ + " failed: "@ + self.message@
    }

    /// The error's text: `evidence sink {sink} failed: {message}`.
    pub fn describe(&self) -> (res: String)
        ensures
            res@ == self.description(),
    {
        let mut text = String::from_str("evidence sink ");
        text.append(self.sink.as_str());
        text.append(" failed: ");
        text.append(self.message.as_str());
        text
    }
}

/// One call the plane made to its sink: asking its name, with what it
/// reported, or handing it an event, with the error it answered (`None` when
/// it accepted the event).
pub enum SinkCall {
    Name { reported: Seq<char> },
    Write { event: EventView, error: Option<EvidenceSinkError> },
}

/// The calls of handing each of `events` to the sink, in order, each accepted.
pub open spec fn accepted_writes(events: Seq<EventView>) -> Seq<SinkCall> {
    Seq::new(events.len(), |i: int| SinkCall::Write { event: events[i], error: None })
}

/// An append-only export target for evidence events, implemented by users of
/// the plane. What a sink does with an event, and whether it accepts it, is
/// up to the sink.
pub trait EvidenceSink {
    fn name(&self) -> &str;

    fn write(&mut self, event: &EvidenceEvent) -> Result<(), EvidenceSinkError>;
}

/// A sink that keeps the events it receives in memory, in order.
pub struct MemoryEvidenceSink {
    events: Vec<EvidenceEvent>,
}

impl MemoryEvidenceSink {
    /// The events received, in order.
    pub closed spec fn received(&self) -> Seq<EventView> {
        event_views(self.events@)
    }

    pub fn new() -> (res: Self)
        ensures
            res.received() == Seq::<EventView>::empty(),
    {
        MemoryEvidenceSink { events: Vec::new() }
    }

    /// A copy of the events received, in order.
    pub fn snapshot(&self) -> (res: Vec<EvidenceEvent>)
        ensures
            event_views(res@) == self.received(),
    {
        copy_events(&self.events)
    }
}

impl Default for MemoryEvidenceSink {
    fn default() -> (res: Self)
        ensures
            res.received() == Seq::<EventView>::empty(),
    {
        MemoryEvidenceSink::new()
    }
}

impl EvidenceSink for MemoryEvidenceSink {
    fn name(&self) -> (res: &str)
        ensures
            res@ == "memory"@,
    {
        "memory"
    }

    fn write(&mut self, event: &EvidenceEvent) -> (res: Result<(), EvidenceSinkError>)
        ensures
            res is Ok,
            final(self).received() == old(self).received().push(event@),
    {
        let ghost before = self.events@;
        self.events.push(copy_event(event));
        assert(event_views(self.events@) =~= event_views(before).push(event@));
        Ok(())
    }
}

/// Where an appended event went beyond the local chain.
#[derive(Debug, Clone)]
pub enum EvidenceSinkStatus {
    NotConfigured,
    Delivered { sink: String },
    Deferred { sink: String, error: String },
}

/// What `append` reports of the event it recorded.
#[derive(Debug, Clone)]
pub struct EvidenceAppendReceipt {
    pub event_id: String,
    pub event_hash: String,
    pub sequence: u64,
    pub sink_status: EvidenceSinkStatus,
}

/// The hash the next event of a chain links to.
pub open spec fn chain_head(
    events: Seq<EventView>,
    epoch_id: Seq<char>,
    epoch_parent_hash: Option<Seq<char>>,
    signer_fingerprint: Seq<char>,
) -> Seq<char> {
    if events.len() == 0 {
        epoch_start_hash(epoch_id, epoch_parent_hash, signer_fingerprint)
    } else {
        events.last().event_hash
    }
}

/// Event `i` of a chain, as the plane records it: in the epoch and under the
/// signer given, numbered from 1, linked to its predecessor (or to the epoch's
/// start), hashed over its canonical material and signed over its hash.
pub open spec fn recorded_at(
    events: Seq<EventView>,
    i: int,
    epoch_id: Seq<char>,
    epoch_parent_hash: Option<Seq<char>>,
    public_key: Seq<char>,
    fingerprint: Seq<char>,
    secret: Seq<u8>,
) -> bool {
    let e = events[i];
    &&& e.schema_version == EVIDENCE_SCHEMA_VERSION@
    &&& e.epoch_id == epoch_id
    &&& e.epoch_parent_hash == epoch_parent_hash
    &&& e.signer_public_key == public_key
    &&& e.signer_fingerprint == fingerprint
    &&& e.sequence == i + 1
    &&& e.previous_event_hash == (if i == 0 {
        epoch_start_hash(epoch_id, epoch_parent_hash, fingerprint)
    } else {
        events[i - 1].event_hash
    })
    &&& e.event_hash == hash_text(event_material(e))
    &&& e.signature == hex_lower(crate::crypto::ed25519_signature(secret, encode_utf8(e.event_hash)))
    &&& signature_hex_valid(public_key, encode_utf8(e.event_hash), e.signature)
}

/// Every event of the chain is recorded as `recorded_at` says.
pub open spec fn recorded_chain(
    events: Seq<EventView>,
    epoch_id: Seq<char>,
    epoch_parent_hash: Option<Seq<char>>,
    public_key: Seq<char>,
    fingerprint: Seq<char>,
    secret: Seq<u8>,
) -> bool {
    forall|i: int|
        0 <= i < events.len() ==> #[trigger] recorded_at(
            events,
            i,
            epoch_id,
            epoch_parent_hash,
            public_key,
            fingerprint,
            secret,
        )
}


/// The local evidence chain of one epoch, signed by one runtime identity,
/// with an optional external sink and the queue of events the sink has not
/// yet accepted.
pub struct EvidencePlane<S: EvidenceSink> {
    crypto: Arc<CryptoEngine>,
    epoch_id: String,
    epoch_parent_hash: Option<String>,
    start_hash: String,
    state: PlaneState<S>,
    clock: SystemClock,
}

/// The part of a plane that appends and deliveries change: the sink, the
/// chain with its head and next sequence number, and the queue of events
/// the sink has not accepted.
struct PlaneState<S: EvidenceSink> {
    sink: Option<RecordedSink<S>>,
    head_hash: String,
    next_sequence: u64,
    events: Vec<EvidenceEvent>,
    pending_sink: VecDeque<EvidenceEvent>,
}

impl<S: EvidenceSink> PlaneState<S> {
    spec fn events(&self) -> Seq<EventView> {
        event_views(self.events@)
    }

    spec fn pending(&self) -> Seq<EventView> {
        event_views(self.pending_sink@)
    }

    spec fn sink_state(&self) -> Option<S> {
        match self.sink {
            Some(r) => Some(r.inner()),
            None => None,
        }
    }

    spec fn sink_calls(&self) -> Seq<SinkCall> {
        match self.sink {
            Some(r) => r.calls(),
            None => Seq::empty(),
        }
    }

    /// The pending events are the last events of the chain, in order, and
    /// there are none without a sink.
    spec fn queue_ok(&self) -> bool {
        &&& self.pending().len() <= self.events().len()
        &&& self.pending() == self.events().skip(self.events().len() - self.pending().len())
        &&& self.sink is None ==> self.pending().len() == 0
    }

    /// Adds a sealed event at the end of the chain and hands it to the sink
    /// as `append_sink_step` says.
    fn record(&mut self, event: EvidenceEvent) -> (status: EvidenceSinkStatus)
        requires
            old(self).queue_ok(),
            old(self).next_sequence < u64::MAX,
        ensures
            final(self).events() == old(self).events().push(event@),
            final(self).head_hash@ == event@.event_hash,
            final(self).next_sequence == old(self).next_sequence + 1,
            final(self).queue_ok(),
            EvidencePlane::<S>::append_sink_step(
                old(self).sink_state(),
                final(self).sink_state(),
                old(self).sink_calls(),
                final(self).sink_calls(),
                old(self).pending(),
                final(self).pending(),
                event@,
                status,
            ),
    {
        let ghost old_events = self.events();
        let ghost old_pending = self.pending();
        let ghost old_sink = self.sink_state();
        let ghost old_calls = self.sink_calls();
        let ghost e = event@;
        self.events.push(copy_event(&event));
        self.head_hash = event.event_hash.clone();
        self.next_sequence = self.next_sequence + 1;
        assert(self.events() =~= old_events.push(e));
        let status = match self.sink.take() {
            None => EvidenceSinkStatus::NotConfigured,
            Some(mut sink) => {
                let status = if self.pending_sink.len() > 0 {
                    self.pending_sink.push_back(event);
                    EvidenceSinkStatus::Deferred {
                        sink: sink.name(),
                        error: String::from_str("prior deferred evidence pending"),
                    }
                } else {
                    match sink.write(&event) {
                        Ok(()) => EvidenceSinkStatus::Delivered { sink: sink.name() },
                        Err(error) => {
                            let text = error.describe();
                            self.pending_sink.push_back(event);
                            EvidenceSinkStatus::Deferred { sink: sink.name(), error: text }
                        },
                    }
                };
                self.sink = Some(sink);
                status
            },
        };
        proof {
            let evs = self.events();
            let pend = self.pending();
            if pend.len() == old_pending.len() + 1 {
                assert(pend =~= old_pending.push(e));
                if old_pending.len() == 0 {
                    assert(pend =~= seq![e]);
                }
                assert(old_pending =~= old_events.skip(old_events.len() - old_pending.len()));
                assert(pend =~= evs.skip(evs.len() - pend.len()));
            } else {
                assert(pend =~= old_pending);
                assert(pend.len() == 0);
                assert(pend =~= evs.skip(evs.len() - pend.len()));
            }
        }
        assert(self.sink_calls().take(old_calls.len() as int) =~= old_calls);
        status
    }

    /// Writes the pending events to the sink, front first, until it refuses
    /// one (see `flush_sink_step`).
    fn flush(&mut self) -> (res: Result<usize, EvidenceSinkError>)
        requires
            old(self).queue_ok(),
        ensures
            final(self).events@ == old(self).events@,
            final(self).head_hash == old(self).head_hash,
            final(self).next_sequence == old(self).next_sequence,
            final(self).queue_ok(),
            old(self).sink_state() is None ==> {
                &&& res matches Ok(n) && n == 0
                &&& final(self).pending() == old(self).pending()
                &&& final(self).sink_state() is None
                &&& final(self).sink_calls() == old(self).sink_calls()
            },
            old(self).sink_state() is Some ==> {
                &&& final(self).sink_state() is Some
                &&& EvidencePlane::<S>::flush_sink_step(
                    old(self).sink_calls(),
                    final(self).sink_calls(),
                    old(self).pending(),
                    final(self).pending(),
                    res,
                )
            },
    {
        let ghost old_pending = self.pending();
        let ghost evs = self.events();
        let ghost calls0 = self.sink_calls();
        let mut sink = match self.sink.take() {
            Some(sink) => sink,
            None => return Ok(0),
        };
        let total = self.pending_sink.len();
        let mut delivered: usize = 0;
        while self.pending_sink.len() > 0
            invariant
                old_pending.len() == total,
                self.events() == evs,
                self.events@ == old(self).events@,
                self.head_hash == old(self).head_hash,
                self.next_sequence == old(self).next_sequence,
                old(self).queue_ok(),
                old_pending == old(self).pending(),
                evs == old(self).events(),
                old(self).sink is Some,
                calls0 == old(self).sink_calls(),
                self.sink is None,
                delivered <= old_pending.len(),
                self.pending() == old_pending.skip(delivered as int),
                sink.calls() == calls0 + accepted_writes(old_pending.take(delivered as int)),
            decreases self.pending_sink.len(),
        {
            let ghost before = self.pending_sink@;
            assert(event_views(before) == old_pending.skip(delivered as int));
            assert(event_views(before).len() > 0);
            let event = copy_event(&self.pending_sink[0]);
            assert(event@ == before[0]@);
            assert(event_views(before)[0] == before[0]@);
            assert(old_pending.skip(delivered as int)[0] == old_pending[delivered as int]);
            assert(event@ == old_pending[delivered as int]);
            match sink.write(&event) {
                Ok(()) => {},
                Err(error) => {
                    self.sink = Some(sink);
                    proof {
                        assert(old_pending =~= evs.skip(evs.len() - old_pending.len()));
                        assert(self.pending() =~= evs.skip(evs.len() - self.pending().len()));
                        assert(self.pending() == old_pending.skip(delivered as int));
                    }
                    return Err(error);
                },
            }
            assert(accepted_writes(old_pending.take(delivered + 1)) =~= accepted_writes(
                old_pending.take(delivered as int),
            ).push(SinkCall::Write { event: event@, error: None }));
            assert(sink.calls() =~= calls0 + accepted_writes(old_pending.take(delivered + 1)));
            self.pending_sink.pop_front();
            assert(self.pending_sink@ == before.subrange(1, before.len() as int));
            assert(self.pending() =~= event_views(before).subrange(1, before.len() as int));
            assert(self.pending() =~= old_pending.skip(delivered + 1));
            delivered = delivered + 1;
        }
        self.sink = Some(sink);
        proof {
            assert(self.pending() =~= evs.skip(evs.len() - self.pending().len()));
            assert(old_pending.take(delivered as int) =~= old_pending);
        }
        Ok(delivered)
    }
}

impl<S: EvidenceSink> EvidencePlane<S> {
    /// The events recorded in this epoch, in order.
    pub closed spec fn events(&self) -> Seq<EventView> {
        self.state.events()
    }

    /// The events the sink has not yet accepted, in order.
    pub closed spec fn pending(&self) -> Seq<EventView> {
        self.state.pending()
    }

    /// The epoch identifier.
    pub closed spec fn epoch(&self) -> Seq<char> {
        self.epoch_id@
    }

    /// The signed head of the prior epoch this epoch continues, if any.
    pub closed spec fn parent(&self) -> Option<Seq<char>> {
        opt_view(self.epoch_parent_hash)
    }

    /// The hash the next event will link to.
    pub closed spec fn head(&self) -> Seq<char> {
        self.state.head_hash@
    }

    /// The signing identity.
    pub closed spec fn signer(&self) -> CryptoEngine {
        *self.crypto
    }

    /// Whether an external sink is configured.
    pub closed spec fn sink_configured(&self) -> bool {
        self.state.sink is Some
    }

    /// The plane's invariant: the chain is recorded as `recorded_chain` says,
    /// the head is its last hash (or the epoch's start), sequence numbers
    /// continue from its length, and the pending events are a suffix of the
    /// chain, empty without a sink.
    #[verifier::type_invariant]
    pub closed spec fn wf(&self) -> bool {
        &&& self.signer().identity_consistent()
        &&& self.start_hash@ == epoch_start_hash(self.epoch(), self.parent(), self.signer().key_fingerprint())
        &&& self.state.next_sequence == self.events().len() + 1
        &&& self.head() == chain_head(self.events(), self.epoch(), self.parent(), self.signer().key_fingerprint())
        &&& recorded_chain(
            self.events(),
            self.epoch(),
            self.parent(),
            self.signer().key_hex(),
            self.signer().key_fingerprint(),
            self.signer().secret(),
        )
        &&& self.state.queue_ok()
    }

    /// What `checkpoint` produces for this plane: the checkpoint schema, this
    /// epoch, the number of events, the head, the signer's key and
    /// fingerprint, a hash over the canonical material and the signer's
    /// signature over that hash, which verifies under the signer's key.
    pub open spec fn checkpoints(&self, c: CheckpointView) -> bool {
        &&& c.schema_version == EVIDENCE_CHECKPOINT_SCHEMA_VERSION@
        &&& c.epoch_id == self.epoch()
        &&& c.last_sequence == self.events().len()
        &&& c.head_hash == self.head()
        &&& c.signer_fingerprint == self.signer().key_fingerprint()
        &&& c.signer_public_key == self.signer().key_hex()
        &&& c.checkpoint_hash == hash_text(checkpoint_material(c))
        &&& c.signature == hex_lower(crate::crypto::ed25519_signature(self.signer().secret(), encode_utf8(c.checkpoint_hash)))
        &&& signature_hex_valid(c.signer_public_key, encode_utf8(c.checkpoint_hash), c.signature)
    }

    /// The sink, if one is configured.
    pub closed spec fn sink_state(&self) -> Option<S> {
        self.state.sink_state()
    }

    /// Every call this plane has made to its sink, in order, with the answers.
    pub closed spec fn sink_calls(&self) -> Seq<SinkCall> {
        self.state.sink_calls()
    }

    /// Every reading of the clock this plane has taken, in order.
    pub closed spec fn clock_readings(&self) -> Seq<Result<(u64, u32), (u64, u32)>> {
        self.clock.readings()
    }

    /// A state with no events, nothing pending and no sink, whose head is
    /// the epoch's start: what the plane holds while its own state is being
    /// changed.
    fn blank_state(&self) -> (res: PlaneState<S>)
        requires
            self.wf(),
        ensures
            res.events().len() == 0,
            res.queue_ok(),
            res.next_sequence == 1,
            res.head_hash@ == epoch_start_hash(self.epoch(), self.parent(), self.signer().key_fingerprint()),
    {
        let res = PlaneState {
            sink: None,
            head_hash: self.start_hash.clone(),
            next_sequence: 1,
            events: Vec::new(),
            pending_sink: VecDeque::new(),
        };
        assert(res.events() =~= Seq::<EventView>::empty());
        assert(res.pending() =~= Seq::<EventView>::empty());
        assert(res.events().skip(0) =~= res.pending());
        res
    }

    fn with_parent_hash(crypto: Arc<CryptoEngine>, epoch_parent_hash: Option<String>, sink: Option<S>) -> (res: Option<Self>)
        ensures
            res matches Some(plane) ==> {
                &&& plane.events().len() == 0
                &&& plane.pending().len() == 0
                &&& plane.parent() == opt_view(epoch_parent_hash)
                &&& plane.head() == epoch_start_hash(plane.epoch(), plane.parent(), plane.signer().key_fingerprint())
                &&& plane.signer() == *crypto
                &&& plane.sink_state() == sink
                &&& plane.sink_calls().len() == 0
                &&& plane.clock_readings().len() == 0
                &&& random_id(plane.epoch(), "EVP-"@)
            },
    {
        let uuid = match random_uuid_simple() {
            Some(uuid) => uuid,
            None => return None,
        };
        let mut epoch_id = String::from_str("EVP-");
        proof {
            reveal_strlit("EVP-");
        }
        epoch_id.append(uuid.as_str());
        assert(epoch_id@.take(4) =~= "EVP-"@);
        assert(epoch_id@.skip(4) =~= uuid@);
        let signer = crypto.verifying_key_fingerprint();
        let head_hash = compute_epoch_start_hash(epoch_id.as_str(), &epoch_parent_hash, signer.as_str());
        let sink = match sink {
            Some(s) => Some(RecordedSink::new(s)),
            None => None,
        };
        let start_hash = head_hash.clone();
        let state = PlaneState {
            sink,
            head_hash,
            next_sequence: 1,
            events: Vec::new(),
            pending_sink: VecDeque::new(),
        };
        assert(state.events() =~= Seq::<EventView>::empty());
        assert(state.pending() =~= Seq::<EventView>::empty());
        assert(state.events().skip(0) =~= state.pending());
        Some(EvidencePlane { crypto, epoch_id, epoch_parent_hash, start_hash, state, clock: SystemClock::new() })
    }

    /// A new epoch with no parent: it starts from its genesis hash. `None`
    /// when the operating system's random source cannot be read for the
    /// epoch identifier.
    pub fn new(crypto: Arc<CryptoEngine>, sink: Option<S>) -> (res: Option<Self>)
        ensures
            res matches Some(plane) ==> {
                &&& plane.events().len() == 0
                &&& plane.pending().len() == 0
                &&& plane.parent() is None
                &&& plane.head() == genesis_hash(plane.epoch(), plane.signer().key_fingerprint())
                &&& plane.signer() == *crypto
                &&& plane.sink_state() == sink
                &&& plane.sink_calls().len() == 0
                &&& plane.clock_readings().len() == 0
                &&& random_id(plane.epoch(), "EVP-"@)
            },
    {
        Self::with_parent_hash(crypto, None, sink)
    }

    /// Whether `from_checkpoint` accepts a checkpoint for an identity: the
    /// checkpoint is valid and was signed by that identity.
    pub open spec fn checkpoint_accepted(c: CheckpointView, crypto: CryptoEngine) -> bool {
        &&& checkpoint_valid(c)
        &&& c.signer_public_key == crypto.key_hex()
        &&& c.signer_fingerprint == crypto.key_fingerprint()
    }

    /// A new epoch continuing from a signed checkpoint of the same identity:
    /// its parent, and the hash its first event links to, is the checkpoint's
    /// head. `Ok(None)` when the checkpoint is accepted but the operating
    /// system's random source cannot be read for the epoch identifier.
    pub fn from_checkpoint(
        crypto: Arc<CryptoEngine>,
        checkpoint: &EvidenceCheckpoint,
        sink: Option<S>,
    ) -> (res: Result<Option<Self>, EvidenceVerificationError>)
        ensures
            !checkpoint_valid(checkpoint@) ==> res matches Err(EvidenceVerificationError::InvalidCheckpoint),
            checkpoint_valid(checkpoint@) && !Self::checkpoint_accepted(checkpoint@, *crypto)
                ==> res matches Err(EvidenceVerificationError::CheckpointSignerMismatch),
            Self::checkpoint_accepted(checkpoint@, *crypto) ==> res is Ok,
            res is Ok ==> {
                &&& signature_hex_valid(checkpoint.signer_public_key@, encode_utf8(checkpoint.checkpoint_hash@), checkpoint.signature@)
                &&& checkpoint.signer_public_key@ == crypto.key_hex()
                &&& checkpoint.signer_fingerprint@ == crypto.key_fingerprint()
            },
            res matches Ok(Some(plane)) ==> {
                &&& plane.events().len() == 0
                &&& plane.pending().len() == 0
                &&& plane.parent() == Some(checkpoint.head_hash@)
                &&& plane.head() == checkpoint.head_hash@
                &&& plane.signer() == *crypto
                &&& plane.sink_state() == sink
                &&& plane.sink_calls().len() == 0
                &&& plane.clock_readings().len() == 0
                &&& random_id(plane.epoch(), "EVP-"@)
            },
    {
        if !checkpoint.verify() {
            return Err(EvidenceVerificationError::InvalidCheckpoint);
        }
        if checkpoint.signer_public_key != crypto.verifying_key_hex()
            || checkpoint.signer_fingerprint != crypto.verifying_key_fingerprint()
        {
            return Err(EvidenceVerificationError::CheckpointSignerMismatch);
        }
        Ok(Self::with_parent_hash(crypto, Some(checkpoint.head_hash.clone()), sink))
    }

    /// What happens at the sink when an event `e` is appended with status
    /// `status`. Without a sink, nothing. With events already pending, `e` is
    /// queued behind them and the sink is only asked its name, which the
    /// status carries. Otherwise `e` is written to the sink once, the sink's
    /// answer decides, and the sink is then asked its name for the status:
    /// accepted is `Delivered`; refused is `Deferred` with the sink's error
    /// text, and `e` is queued.
    pub open spec fn append_sink_step(
        old_sink: Option<S>,
        new_sink: Option<S>,
        old_calls: Seq<SinkCall>,
        new_calls: Seq<SinkCall>,
        old_pending: Seq<EventView>,
        new_pending: Seq<EventView>,
        e: EventView,
        status: EvidenceSinkStatus,
    ) -> bool {
        match old_sink {
            None => {
                &&& status is NotConfigured
                &&& new_sink is None
                &&& new_calls == old_calls
                &&& new_pending == old_pending
            },
            Some(_) => if old_pending.len() > 0 {
                &&& new_sink == old_sink
                &&& new_pending == old_pending.push(e)
                &&& new_calls.len() == old_calls.len() + 1
                &&& new_calls.drop_last() == old_calls
                &&& new_calls.last() matches SinkCall::Name { reported }
                &&& match status {
                    EvidenceSinkStatus::Deferred { sink, error } => sink@ == reported && error@
                        == "prior deferred evidence pending"@,
                    _ => false,
                }
            } else {
                &&& new_sink is Some
                &&& new_calls.len() == old_calls.len() + 2
                &&& new_calls.take(old_calls.len() as int) == old_calls
                &&& new_calls[old_calls.len() as int] matches SinkCall::Write { event, error: answer }
                &&& event == e
                &&& new_calls.last() matches SinkCall::Name { reported }
                &&& match answer {
                    None => {
                        &&& new_pending.len() == 0
                        &&& match status {
                            EvidenceSinkStatus::Delivered { sink } => sink@ == reported,
                            _ => false,
                        }
                    },
                    Some(err) => {
                        &&& new_pending == seq![e]
                        &&& match status {
                            EvidenceSinkStatus::Deferred { sink, error } => sink@ == reported
                                && error@ == err.description(),
                            _ => false,
                        }
                    },
                }
            },
        }
    }

    /// Records an event at the end of the chain: numbered after the last
    /// one, linked to the head, hashed over its canonical material and signed
    /// over its hash, then handed to the sink as `append_sink_step` says. The
    /// chain grows whatever the sink answers. `None`, with nothing changed,
    /// when the operating system's random source cannot be read for the
    /// event identifier.
    pub fn append(&mut self, event_type: EvidenceEventType, payload: EvidencePayload) -> (res: Option<EvidenceAppendReceipt>)
        requires
            old(self).events().len() + 1 < u64::MAX,
        ensures
            final(self).epoch() == old(self).epoch(),
            final(self).parent() == old(self).parent(),
            final(self).signer() == old(self).signer(),
            res is None ==> {
                &&& final(self).events() == old(self).events()
                &&& final(self).pending() == old(self).pending()
                &&& final(self).head() == old(self).head()
                &&& final(self).sink_state() == old(self).sink_state()
                &&& final(self).sink_calls() == old(self).sink_calls()
                &&& final(self).clock_readings() == old(self).clock_readings()
            },
            res matches Some(r) ==> {
                let e = final(self).events().last();
                &&& final(self).events().len() == old(self).events().len() + 1
                &&& final(self).events().drop_last() == old(self).events()
                &&& e.schema_version == EVIDENCE_SCHEMA_VERSION@
                &&& e.epoch_id == old(self).epoch()
                &&& e.epoch_parent_hash == old(self).parent()
                &&& e.sequence == old(self).events().len() + 1
                &&& e.event_type == event_type
                &&& e.payload == payload@
                &&& e.previous_event_hash == old(self).head()
                &&& e.signer_public_key == old(self).signer().key_hex()
                &&& e.signer_fingerprint == old(self).signer().key_fingerprint()
                &&& e.event_hash == hash_text(event_material(e))
                &&& e.signature == hex_lower(
                    crate::crypto::ed25519_signature(old(self).signer().secret(), encode_utf8(e.event_hash)),
                )
                &&& random_id(e.event_id, "EVE-"@)
                &&& final(self).clock_readings().len() == old(self).clock_readings().len() + 1
                &&& final(self).clock_readings().drop_last() == old(self).clock_readings()
                &&& e.timestamp == reading_timestamp(final(self).clock_readings().last())
                &&& final(self).head() == e.event_hash
                &&& r.event_id@ == e.event_id
                &&& r.event_hash@ == e.event_hash
                &&& r.sequence == e.sequence
                &&& Self::append_sink_step(
                    old(self).sink_state(),
                    final(self).sink_state(),
                    old(self).sink_calls(),
                    final(self).sink_calls(),
                    old(self).pending(),
                    final(self).pending(),
                    e,
                    r.sink_status,
                )
            },
    {
        proof {
            use_type_invariant(&*self);
        }
        let ghost old_events = self.events();
        let uuid = match random_uuid_simple() {
            Some(uuid) => uuid,
            None => return None,
        };
        let sequence = self.state.next_sequence;
        let mut clock = SystemClock::new();
        std::mem::swap(&mut clock, &mut self.clock);
        let reading = clock.now();
        self.clock = clock;
        let timestamp = match reading {
            Some(t) => t,
            None => 0,
        };
        let mut event_id = String::from_str("EVE-");
        proof {
            reveal_strlit("EVE-");
        }
        event_id.append(uuid.as_str());
        assert(event_id@.take(4) =~= "EVE-"@);
        assert(event_id@.skip(4) =~= uuid@);
        let previous_event_hash = self.state.head_hash.clone();
        let signer_fingerprint = self.crypto.verifying_key_fingerprint();
        let signer_public_key = self.crypto.verifying_key_hex();
        let mut event = EvidenceEvent {
            schema_version: String::from_str(EVIDENCE_SCHEMA_VERSION),
            epoch_id: self.epoch_id.clone(),
            epoch_parent_hash: copy_optional_text(&self.epoch_parent_hash),
            sequence,
            event_id: event_id.clone(),
            timestamp,
            event_type,
            payload,
            previous_event_hash,
            event_hash: String::new(),
            signer_fingerprint,
            signer_public_key,
            signature: String::new(),
        };
        let material = canonical_event_material(&event);
        let event_hash = compute_hash(material.as_str());
        let signature = self.crypto.sign(event_hash.as_str().as_bytes());
        let ghost unsigned = event@;
        event.signature = signature;
        event.event_hash = event_hash.clone();
        assert(event_material(event@) == event_material(unsigned));
        let ghost e = event@;
        let ghost evs = old_events.push(e);
        proof {
            assert forall|i: int| 0 <= i < evs.len() implies #[trigger] recorded_at(
                evs,
                i,
                self.epoch(),
                self.parent(),
                self.signer().key_hex(),
                self.signer().key_fingerprint(),
                self.signer().secret(),
            ) by {
                if i < old_events.len() {
                    assert(recorded_at(
                        old_events,
                        i,
                        self.epoch(),
                        self.parent(),
                        self.signer().key_hex(),
                        self.signer().key_fingerprint(),
                        self.signer().secret(),
                    ));
                    assert(evs[i] == old_events[i]);
                    if i > 0 {
                        assert(evs[i - 1] == old_events[i - 1]);
                    }
                }
            }
            assert(recorded_chain(
                evs,
                self.epoch(),
                self.parent(),
                self.signer().key_hex(),
                self.signer().key_fingerprint(),
                self.signer().secret(),
            ));
            assert(evs.last() == e);
        }
        let mut state = self.blank_state();
        std::mem::swap(&mut state, &mut self.state);
        let sink_status = state.record(event);
        self.state = state;
        assert(self.events() == evs);
        Some(EvidenceAppendReceipt { event_id, event_hash, sequence, sink_status })
    }

    /// A signed checkpoint of the current head and sequence of this epoch.
    pub fn checkpoint(&self) -> (res: EvidenceCheckpoint)
        ensures
            self.checkpoints(res@),
            checkpoint_valid(res@),
            res.schema_version@ == EVIDENCE_CHECKPOINT_SCHEMA_VERSION@,
            res.epoch_id@ == self.epoch(),
            res.last_sequence == self.events().len(),
            res.head_hash@ == self.head(),
            res.signer_public_key@ == self.signer().key_hex(),
            res.signer_fingerprint@ == self.signer().key_fingerprint(),
            res.checkpoint_hash@ == hash_text(checkpoint_material(res@)),
            signature_hex_valid(res.signer_public_key@, encode_utf8(res.checkpoint_hash@), res.signature@),
    {
        proof {
            use_type_invariant(self);
        }
        let created_at = match now_nanos() {
            Some(t) => t,
            None => 0,
        };
        let signer_fingerprint = self.crypto.verifying_key_fingerprint();
        let signer_public_key = self.crypto.verifying_key_hex();
        let last_sequence = self.state.next_sequence.saturating_sub(1);
        let material = canonical_checkpoint_material(
            EVIDENCE_CHECKPOINT_SCHEMA_VERSION,
            self.epoch_id.as_str(),
            last_sequence,
            self.state.head_hash.as_str(),
            signer_fingerprint.as_str(),
            signer_public_key.as_str(),
            created_at,
        );
        let checkpoint_hash = compute_hash(material.as_str());
        let signature = self.crypto.sign(checkpoint_hash.as_str().as_bytes());
        EvidenceCheckpoint {
            schema_version: String::from_str(EVIDENCE_CHECKPOINT_SCHEMA_VERSION),
            epoch_id: self.epoch_id.clone(),
            last_sequence,
            head_hash: self.state.head_hash.clone(),
            signer_fingerprint,
            signer_public_key,
            created_at,
            checkpoint_hash,
            signature,
        }
    }

    /// What a flush does at a sink: every pending event is written, front
    /// first, until the sink refuses one. `Ok(n)`: all `n` were accepted and
    /// none is pending. `Err(e)`: the first `k` were accepted, the next one
    /// was refused with `e`, nothing after it was written, and it is still
    /// first in the queue.
    pub open spec fn flush_sink_step(
        old_calls: Seq<SinkCall>,
        new_calls: Seq<SinkCall>,
        old_pending: Seq<EventView>,
        new_pending: Seq<EventView>,
        res: Result<usize, EvidenceSinkError>,
    ) -> bool {
        match res {
            Ok(n) => {
                &&& n == old_pending.len()
                &&& new_pending.len() == 0
                &&& new_calls == old_calls + accepted_writes(old_pending)
            },
            Err(e) => exists|k: int|
                0 <= k < old_pending.len() && new_pending == #[trigger] old_pending.skip(k) && new_calls == (
                old_calls + accepted_writes(old_pending.take(k))).push(
                    SinkCall::Write { event: old_pending[k], error: Some(e) },
                ),
        }
    }

    /// Retries the pending events at the sink in chain order, stopping at the
    /// first refusal so the sink never sees them out of order (see
    /// `flush_sink_step`). Returns how many were delivered.
    pub fn flush_pending(&mut self) -> (res: Result<usize, EvidenceSinkError>)
        ensures
            final(self).events() == old(self).events(),
            final(self).epoch() == old(self).epoch(),
            final(self).parent() == old(self).parent(),
            final(self).head() == old(self).head(),
            final(self).signer() == old(self).signer(),
            final(self).clock_readings() == old(self).clock_readings(),
            old(self).sink_state() is None ==> {
                &&& res matches Ok(n) && n == 0
                &&& final(self).pending() == old(self).pending()
                &&& final(self).sink_state() is None
                &&& final(self).sink_calls() == old(self).sink_calls()
            },
            old(self).sink_state() is Some ==> {
                &&& final(self).sink_state() is Some
                &&& Self::flush_sink_step(
                    old(self).sink_calls(),
                    final(self).sink_calls(),
                    old(self).pending(),
                    final(self).pending(),
                    res,
                )
            },
    {
        proof {
            use_type_invariant(&*self);
        }
        let mut state = self.blank_state();
        std::mem::swap(&mut state, &mut self.state);
        let res = state.flush();
        self.state = state;
        res
    }

    /// Verifies a snapshot of one epoch (see `verify_snapshot_spec`).
    pub fn verify_snapshot(events: &[EvidenceEvent]) -> (res: Result<(), EvidenceVerificationError>)
        requires
            events@.len() < u64::MAX,
        ensures
            res == verify_snapshot_spec(event_views(events@)),
    {
        let ghost evs = event_views(events@);
        if events.len() == 0 {
            return Ok(());
        }
        let first = &events[0];
        let epoch_id = &first.epoch_id;
        let epoch_parent_hash = &first.epoch_parent_hash;
        let signer_public_key = &first.signer_public_key;
        let signer_fp = match signer_fingerprint(signer_public_key.as_str()) {
            Some(fp) => fp,
            None => return Err(EvidenceVerificationError::SignerFingerprintMismatch),
        };
        if signer_fp != first.signer_fingerprint {
            return Err(EvidenceVerificationError::SignerFingerprintMismatch);
        }
        let mut previous_hash = compute_epoch_start_hash(epoch_id.as_str(), epoch_parent_hash, signer_fp.as_str());
        let mut index: usize = 0;
        while index < events.len()
            invariant
                evs == event_views(events@),
                events@.len() < u64::MAX,
                evs.len() > 0,
                index <= events@.len(),
                *first == events@[0],
                signer_fingerprint_spec(evs[0].signer_public_key) == Some(signer_fp@),
                signer_fp@ == evs[0].signer_fingerprint,
                verify_snapshot_spec(evs) == chain_check(
                    evs,
                    epoch_id@,
                    opt_view(*epoch_parent_hash),
                    signer_public_key@,
                    signer_fp@,
                    index as nat,
                    previous_hash@,
                ),
                epoch_id@ == evs[0].epoch_id,
                opt_view(*epoch_parent_hash) == evs[0].epoch_parent_hash,
                signer_public_key@ == evs[0].signer_public_key,
            decreases events.len() - index,
        {
            let event = &events[index];
            let ghost e = evs[index as int];
            assert(e == event@);
            let expected_sequence = index as u64 + 1;
            if !same_text(event.schema_version.as_str(), EVIDENCE_SCHEMA_VERSION) {
                return Err(EvidenceVerificationError::SchemaMismatch { sequence: event.sequence });
            }
            if event.epoch_id != *epoch_id || !same_optional_text(&event.epoch_parent_hash, epoch_parent_hash) {
                return Err(EvidenceVerificationError::MixedEpoch);
            }
            if event.signer_public_key != *signer_public_key || event.signer_fingerprint != signer_fp {
                return Err(EvidenceVerificationError::MixedSigner);
            }
            if event.sequence != expected_sequence {
                return Err(EvidenceVerificationError::InvalidSequence {
                    expected: expected_sequence,
                    actual: event.sequence,
                });
            }
            if event.previous_event_hash != previous_hash {
                return Err(EvidenceVerificationError::ParentMismatch { sequence: event.sequence });
            }
            if event.recompute_hash() != event.event_hash {
                return Err(EvidenceVerificationError::HashMismatch { sequence: event.sequence });
            }
            if !event.verify_signature() {
                return Err(EvidenceVerificationError::SignatureInvalid { sequence: event.sequence });
            }
            previous_hash = event.event_hash.clone();
            index = index + 1;
        }
        Ok(())
    }

    /// Verifies a snapshot against a signed checkpoint of the same epoch, which
    /// also catches a truncated tail (see `verify_against_checkpoint_spec`).
    pub fn verify_snapshot_against_checkpoint(
        events: &[EvidenceEvent],
        checkpoint: &EvidenceCheckpoint,
    ) -> (res: Result<(), EvidenceVerificationError>)
        requires
            events@.len() < u64::MAX,
        ensures
            res == verify_against_checkpoint_spec(event_views(events@), checkpoint@),
            res is Ok ==> signature_hex_valid(
                checkpoint.signer_public_key@,
                encode_utf8(checkpoint.checkpoint_hash@),
                checkpoint.signature@,
            ),
    {
        if !checkpoint.verify() {
            return Err(EvidenceVerificationError::InvalidCheckpoint);
        }
        match Self::verify_snapshot(events) {
            Ok(()) => {},
            Err(e) => return Err(e),
        }
        if events.len() == 0 {
            if checkpoint.last_sequence == 0 {
                return Ok(());
            }
            return Err(EvidenceVerificationError::InvalidSequence {
                expected: checkpoint.last_sequence,
                actual: 0,
            });
        }
        let last = &events[events.len() - 1];
        if last.epoch_id != checkpoint.epoch_id {
            return Err(EvidenceVerificationError::MixedEpoch);
        }
        if last.signer_public_key != checkpoint.signer_public_key
            || last.signer_fingerprint != checkpoint.signer_fingerprint
        {
            return Err(EvidenceVerificationError::MixedSigner);
        }
        if last.sequence != checkpoint.last_sequence {
            return Err(EvidenceVerificationError::InvalidSequence {
                expected: checkpoint.last_sequence,
                actual: last.sequence,
            });
        }
        if last.event_hash != checkpoint.head_hash {
            return Err(EvidenceVerificationError::ParentMismatch { sequence: last.sequence });
        }
        Ok(())
    }


    /// The chain a plane records verifies.
    pub proof fn lemma_recorded_chain_verifies(&self)
        requires
            self.wf(),
        ensures
            verify_snapshot_spec(self.events()) is Ok,
            well_linked(self.events()),
    {
        lemma_recorded_chain_well_linked(
            self.events(),
            self.epoch(),
            self.parent(),
            self.signer().key_hex(),
            self.signer().key_fingerprint(),
            self.signer().secret(),
        );
    }

    /// A checkpoint of a plane is valid, is accepted by `from_checkpoint` for
    /// the plane's own identity, and the plane's chain verifies against it.
    pub proof fn lemma_checkpoint_covers_chain(&self, c: CheckpointView)
        requires
            self.wf(),
            self.checkpoints(c),
        ensures
            checkpoint_valid(c),
            Self::checkpoint_accepted(c, self.signer()),
            verify_against_checkpoint_spec(self.events(), c) is Ok,
    {
        self.lemma_recorded_chain_verifies();
        let evs = self.events();
        if evs.len() > 0 {
            assert(recorded_at(
                evs,
                evs.len() - 1,
                self.epoch(),
                self.parent(),
                self.signer().key_hex(),
                self.signer().key_fingerprint(),
                self.signer().secret(),
            ));
        }
    }

    /// An epoch that continues a checkpoint links its first event to the
    /// checkpoint's head.
    pub proof fn lemma_resumed_chain_links_to_checkpoint(&self, c: CheckpointView)
        requires
            self.wf(),
            self.parent() == Some(c.head_hash),
            self.events().len() > 0,
        ensures
            self.events()[0].previous_event_hash == c.head_hash,
            self.events()[0].epoch_parent_hash == Some(c.head_hash),
    {
        assert(recorded_at(
            self.events(),
            0,
            self.epoch(),
            self.parent(),
            self.signer().key_hex(),
            self.signer().key_fingerprint(),
            self.signer().secret(),
        ));
    }

    /// The events the sink has not accepted are the last events of the chain,
    /// in chain order: local evidence is never lost to a sink outage. Without
    /// a sink nothing is pending.
    pub proof fn lemma_pending_is_chain_suffix(&self)
        requires
            self.wf(),
        ensures
            self.pending().len() <= self.events().len(),
            self.pending() == self.events().skip(self.events().len() - self.pending().len()),
            !self.sink_configured() ==> self.pending().len() == 0,
    {
    }

    /// A copy of the events recorded in this epoch, in order. They verify.
    pub fn snapshot(&self) -> (res: Vec<EvidenceEvent>)
        ensures
            event_views(res@) == self.events(),
            verify_snapshot_spec(event_views(res@)) is Ok,
    {
        proof {
            use_type_invariant(self);
            self.lemma_recorded_chain_verifies();
        }
        copy_events(&self.state.events)
    }

    /// The number of events recorded in this epoch.
    pub fn len(&self) -> (res: usize)
        ensures
            res == self.events().len(),
    {
        self.state.events.len()
    }

    /// Whether no event has been recorded in this epoch.
    pub fn is_empty(&self) -> (res: bool)
        ensures
            res == (self.events().len() == 0),
    {
        self.state.events.len() == 0
    }

    /// The epoch identifier.
    pub fn epoch_id(&self) -> (res: String)
        ensures
            res@ == self.epoch(),
    {
        self.epoch_id.clone()
    }

    /// The number of events the sink has not yet accepted.
    pub fn pending_sink_count(&self) -> (res: usize)
        ensures
            res == self.pending().len(),
    {
        self.state.pending_sink.len()
    }

    /// The configured sink, if any.
    pub fn sink(&self) -> (res: Option<&S>)
        ensures
            match res {
                Some(s) => self.sink_state() == Some(*s),
                None => self.sink_state() is None,
            },
    {
        match &self.state.sink {
            Some(r) => Some(r.get()),
            None => None,
        }
    }
}

} // verus!
