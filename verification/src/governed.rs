//! The evidence a governed pipeline records for each decision it returns:
//! which event type, and which bounded payload. The decision itself is made
//! by the pipeline; these functions only describe its result.

use vstd::prelude::*;
use vstd::string::*;

use crate::crypto::{compute_hash, hash_text};
use crate::evidence::{
    opt_view, EvidenceAppendReceipt, EvidenceEventType, EvidencePayload, EvidencePlane, EvidenceSink,
    PayloadView,
};

verus! {

/// The fields of an issued capability token that evidence records.
pub struct CapabilityToken {
    pub token_id: String,
    pub gov_tx_id: String,
    pub session_id: String,
    pub run_id: String,
    pub principal_fingerprint: String,
    pub authority: String,
    pub context_hash: String,
    pub haap_decision_id: String,
    pub action_hash: String,
    pub tool_name: String,
    pub resource_kind: String,
    pub resource_locator: String,
    pub tool_call_id: String,
    pub policy_version: String,
    pub policy_hash: String,
}

/// The fields of a provider authorization request that evidence records.
pub struct ProviderAuthorizationRequest {
    pub gov_tx_id: String,
    pub session_id: String,
    pub run_id: String,
    pub principal_fingerprint: String,
    pub context_hash: String,
    pub policy_version: String,
    pub policy_hash: String,
}

/// The fields of an action authorization request that evidence records. The
/// tool arguments are never recorded.
pub struct ActionAuthorizationRequest {
    pub gov_tx_id: String,
    pub session_id: String,
    pub run_id: String,
    pub principal_fingerprint: String,
    pub tool_name: String,
    pub resource_kind: String,
    pub resource_locator: String,
    pub tool_call_id: String,
    pub context_hash: String,
    pub policy_version: String,
    pub policy_hash: String,
}

/// The fields of a capability presented for consumption that evidence records.
pub struct PresentedBinding {
    pub token_id: String,
    pub gov_tx_id: String,
    pub session_id: String,
    pub principal_fingerprint: String,
    pub authority: String,
    pub run_id: String,
    pub context_hash: String,
    pub policy_version: String,
    pub policy_hash: String,
    pub action_hash: String,
    pub tool_name: String,
    pub resource_kind: String,
    pub resource_locator: String,
    pub tool_call_id: String,
}

/// The fields of a model-context envelope that evidence records.
pub struct ContextBinding {
    pub session_id: String,
    pub run_id: String,
    pub context_hash: String,
    pub policy_version: String,
    pub policy_hash: String,
}

/// The kind of an inbound-context enforcement result.
#[derive(Debug, Clone, Copy, PartialEq, Eq, Structural)]
pub enum EnforcementKind {
    Approved,
    Restricted,
    Quarantined,
    HardLocked,
    HaapGated,
}

/// The outcome label of an enforcement result.
pub open spec fn enforcement_label(result: EnforcementKind) -> Seq<char> {
    match result {
        EnforcementKind::Approved => "APPROVED"@,
        EnforcementKind::Restricted => "RESTRICTED"@,
        EnforcementKind::Quarantined => "QUARANTINED"@,
        EnforcementKind::HardLocked => "HARD_LOCKED"@,
        EnforcementKind::HaapGated => "HAAP_GATED"@,
    }
}

/// The outcome label of an enforcement result.
pub fn enforcement_outcome(result: EnforcementKind) -> (res: &'static str)
    ensures
        res@ == enforcement_label(result),
{
    match result {
        EnforcementKind::Approved => "APPROVED",
        EnforcementKind::Restricted => "RESTRICTED",
        EnforcementKind::Quarantined => "QUARANTINED",
        EnforcementKind::HardLocked => "HARD_LOCKED",
        EnforcementKind::HaapGated => "HAAP_GATED",
    }
}

/// An empty field is absent.
pub open spec fn nonempty_spec(value: Seq<char>) -> Option<Seq<char>> {
    if value.len() == 0 {
        None
    } else {
        Some(value)
    }
}

/// `None` for an empty string, the string otherwise.
pub fn nonempty(value: &str) -> (res: Option<String>)
    ensures
        opt_view(res) == nonempty_spec(value@),
{
    if value.is_empty() {
        None
    } else {
        Some(String::from_str(value))
    }
}

/// A resource locator is recorded only as its hash, and not at all when empty.
pub open spec fn locator_hash_spec(locator: Seq<char>) -> Option<Seq<char>> {
    if locator.len() == 0 {
        None
    } else {
        Some(hash_text(locator))
    }
}

fn locator_hash(locator: &str) -> (res: Option<String>)
    ensures
        opt_view(res) == locator_hash_spec(locator@),
{
    if locator.is_empty() {
        None
    } else {
        Some(compute_hash(locator))
    }
}

/// The payload recorded for an issued token.
pub open spec fn token_payload(token: CapabilityToken, outcome: Seq<char>) -> PayloadView {
    PayloadView {
        gov_tx_id: Some(token.gov_tx_id@),
        session_id: Some(token.session_id@),
        run_id: Some(token.run_id@),
        principal_fingerprint: Some(token.principal_fingerprint@),
        authority: Some(token.authority@),
        context_hash: Some(token.context_hash@),
        decision_id: Some(token.haap_decision_id@),
        capability_id: Some(token.token_id@),
        action_hash: nonempty_spec(token.action_hash@),
        tool_name: nonempty_spec(token.tool_name@),
        resource_kind: nonempty_spec(token.resource_kind@),
        resource_locator_hash: locator_hash_spec(token.resource_locator@),
        tool_call_id: nonempty_spec(token.tool_call_id@),
        policy_version: Some(token.policy_version@),
        policy_hash: Some(token.policy_hash@),
        outcome: outcome,
    }
}

/// The payload recorded for an issued token, with the given outcome.
pub fn payload_from_token(token: &CapabilityToken, outcome: &str) -> (res: EvidencePayload)
    ensures
        res@ == token_payload(*token, outcome@),
{
    EvidencePayload {
        gov_tx_id: Some(token.gov_tx_id.clone()),
        session_id: Some(token.session_id.clone()),
        run_id: Some(token.run_id.clone()),
        principal_fingerprint: Some(token.principal_fingerprint.clone()),
        authority: Some(token.authority.clone()),
        context_hash: Some(token.context_hash.clone()),
        decision_id: Some(token.haap_decision_id.clone()),
        capability_id: Some(token.token_id.clone()),
        action_hash: nonempty(token.action_hash.as_str()),
        tool_name: nonempty(token.tool_name.as_str()),
        resource_kind: nonempty(token.resource_kind.as_str()),
        resource_locator_hash: locator_hash(token.resource_locator.as_str()),
        tool_call_id: nonempty(token.tool_call_id.as_str()),
        policy_version: Some(token.policy_version.clone()),
        policy_hash: Some(token.policy_hash.clone()),
        outcome: String::from_str(outcome),
    }
}

/// The evidence for an inbound-context decision: approval, or refusal with
/// the enforcement outcome; `None` stands for an envelope that failed
/// structural validation.
pub open spec fn context_evidence_spec(
    envelope: ContextBinding,
    gov_tx_id: Seq<char>,
    result: Option<EnforcementKind>,
) -> (EvidenceEventType, PayloadView) {
    let (event_type, outcome) = match result {
        Some(EnforcementKind::Approved) => (EvidenceEventType::ContextApproved, "APPROVED"@),
        Some(other) => (EvidenceEventType::ContextRefused, enforcement_label(other)),
        None => (EvidenceEventType::ContextRefused, "STRUCTURAL_VALIDATION_FAILED"@),
    };
    (
        event_type,
        PayloadView {
            gov_tx_id: Some(gov_tx_id),
            session_id: Some(envelope.session_id@),
            run_id: Some(envelope.run_id@),
            principal_fingerprint: None,
            authority: None,
            context_hash: Some(envelope.context_hash@),
            decision_id: None,
            capability_id: None,
            action_hash: None,
            tool_name: None,
            resource_kind: None,
            resource_locator_hash: None,
            tool_call_id: None,
            policy_version: Some(envelope.policy_version@),
            policy_hash: Some(envelope.policy_hash@),
            outcome: outcome,
        },
    )
}

/// The evidence for an inbound-context decision (see `context_evidence_spec`).
pub fn context_evidence(
    envelope: &ContextBinding,
    gov_tx_id: &str,
    result: Option<EnforcementKind>,
) -> (res: (EvidenceEventType, EvidencePayload))
    ensures
        (res.0, res.1@) == context_evidence_spec(*envelope, gov_tx_id@, result),
        ({
            let p = res.1@;
            &&& p.gov_tx_id == Some(gov_tx_id@)
            &&& p.session_id == Some(envelope.session_id@)
            &&& p.run_id == Some(envelope.run_id@)
            &&& p.context_hash == Some(envelope.context_hash@)
            &&& p.policy_version == Some(envelope.policy_version@)
            &&& p.policy_hash == Some(envelope.policy_hash@)
            &&& (res.0 == EvidenceEventType::ContextApproved) == (result == Some(EnforcementKind::Approved))
            &&& res.0 != EvidenceEventType::ContextApproved ==> res.0 == EvidenceEventType::ContextRefused
        }),
{
    let (event_type, outcome) = match result {
        Some(EnforcementKind::Approved) => (EvidenceEventType::ContextApproved, String::from_str("APPROVED")),
        Some(other) => (EvidenceEventType::ContextRefused, String::from_str(enforcement_outcome(other))),
        None => (EvidenceEventType::ContextRefused, String::from_str("STRUCTURAL_VALIDATION_FAILED")),
    };
    let mut payload = EvidencePayload::default();
    payload.gov_tx_id = Some(String::from_str(gov_tx_id));
    payload.session_id = Some(envelope.session_id.clone());
    payload.run_id = Some(envelope.run_id.clone());
    payload.context_hash = Some(envelope.context_hash.clone());
    payload.policy_version = Some(envelope.policy_version.clone());
    payload.policy_hash = Some(envelope.policy_hash.clone());
    payload.outcome = outcome;
    (event_type, payload)
}

/// The evidence for a provider authorization: the issued token, or the
/// refused request with the pipeline's error text as the outcome.
pub open spec fn provider_evidence_spec(
    req: ProviderAuthorizationRequest,
    result: Result<CapabilityToken, String>,
) -> (EvidenceEventType, PayloadView) {
    match result {
        Ok(token) => (EvidenceEventType::ProviderAuthorized, token_payload(token, "AUTHORIZED"@)),
        Err(error) => (
            EvidenceEventType::ProviderRefused,
            PayloadView {
                gov_tx_id: Some(req.gov_tx_id@),
                session_id: Some(req.session_id@),
                run_id: Some(req.run_id@),
                principal_fingerprint: Some(req.principal_fingerprint@),
                authority: Some("provider.execute"@),
                context_hash: Some(req.context_hash@),
                decision_id: None,
                capability_id: None,
                action_hash: None,
                tool_name: None,
                resource_kind: None,
                resource_locator_hash: None,
                tool_call_id: None,
                policy_version: Some(req.policy_version@),
                policy_hash: Some(req.policy_hash@),
                outcome: error@,
            },
        ),
    }
}

/// The evidence for a provider authorization (see `provider_evidence_spec`).
pub fn provider_evidence(
    req: &ProviderAuthorizationRequest,
    result: &Result<CapabilityToken, String>,
) -> (res: (EvidenceEventType, EvidencePayload))
    ensures
        (res.0, res.1@) == provider_evidence_spec(*req, *result),
        ({
            let p = res.1@;
            &&& result matches Ok(token) ==> {
                &&& res.0 == EvidenceEventType::ProviderAuthorized
                &&& p.gov_tx_id == Some(token.gov_tx_id@)
                &&& p.session_id == Some(token.session_id@)
                &&& p.run_id == Some(token.run_id@)
                &&& p.principal_fingerprint == Some(token.principal_fingerprint@)
                &&& p.authority == Some(token.authority@)
                &&& p.context_hash == Some(token.context_hash@)
                &&& p.decision_id == Some(token.haap_decision_id@)
                &&& p.capability_id == Some(token.token_id@)
                &&& p.policy_version == Some(token.policy_version@)
                &&& p.policy_hash == Some(token.policy_hash@)
                &&& token.tool_call_id@.len() > 0 ==> p.tool_call_id == Some(token.tool_call_id@)
                &&& token.tool_name@.len() > 0 ==> p.tool_name == Some(token.tool_name@)
                &&& p.outcome == "AUTHORIZED"@
            }
            &&& result matches Err(error) ==> {
                &&& res.0 == EvidenceEventType::ProviderRefused
                &&& p.gov_tx_id == Some(req.gov_tx_id@)
                &&& p.session_id == Some(req.session_id@)
                &&& p.run_id == Some(req.run_id@)
                &&& p.principal_fingerprint == Some(req.principal_fingerprint@)
                &&& p.context_hash == Some(req.context_hash@)
                &&& p.policy_version == Some(req.policy_version@)
                &&& p.policy_hash == Some(req.policy_hash@)
                &&& p.outcome == error@
                &&& p.authority == Some("provider.execute"@)
            }
        }),
{
    match result {
        Ok(token) => (EvidenceEventType::ProviderAuthorized, payload_from_token(token, "AUTHORIZED")),
        Err(error) => {
            let mut payload = EvidencePayload::default();
            payload.gov_tx_id = Some(req.gov_tx_id.clone());
            payload.session_id = Some(req.session_id.clone());
            payload.run_id = Some(req.run_id.clone());
            payload.principal_fingerprint = Some(req.principal_fingerprint.clone());
            payload.authority = Some(String::from_str("provider.execute"));
            payload.context_hash = Some(req.context_hash.clone());
            payload.policy_version = Some(req.policy_version.clone());
            payload.policy_hash = Some(req.policy_hash.clone());
            payload.outcome = error.clone();
            (EvidenceEventType::ProviderRefused, payload)
        },
    }
}

/// The authority an action capability carries.
pub const AUTHORITY_ACTION_EXECUTE: &'static str = "action.execute";

/// The evidence for an action authorization: the issued token, or the refused
/// request (its resource locator only as a hash) with the pipeline's error
/// text as the outcome.
pub open spec fn action_evidence_spec(
    req: ActionAuthorizationRequest,
    result: Result<CapabilityToken, String>,
) -> (EvidenceEventType, PayloadView) {
    match result {
        Ok(token) => (EvidenceEventType::ActionAuthorized, token_payload(token, "AUTHORIZED"@)),
        Err(error) => (
            EvidenceEventType::ActionRefused,
            PayloadView {
                gov_tx_id: Some(req.gov_tx_id@),
                session_id: Some(req.session_id@),
                run_id: Some(req.run_id@),
                principal_fingerprint: Some(req.principal_fingerprint@),
                authority: Some(AUTHORITY_ACTION_EXECUTE@),
                context_hash: Some(req.context_hash@),
                decision_id: None,
                capability_id: None,
                action_hash: None,
                tool_name: Some(req.tool_name@),
                resource_kind: Some(req.resource_kind@),
                resource_locator_hash: Some(hash_text(req.resource_locator@)),
                tool_call_id: Some(req.tool_call_id@),
                policy_version: Some(req.policy_version@),
                policy_hash: Some(req.policy_hash@),
                outcome: error@,
            },
        ),
    }
}

/// The evidence for an action authorization (see `action_evidence_spec`).
pub fn action_evidence(
    req: &ActionAuthorizationRequest,
    result: &Result<CapabilityToken, String>,
) -> (res: (EvidenceEventType, EvidencePayload))
    ensures
        (res.0, res.1@) == action_evidence_spec(*req, *result),
        ({
            let p = res.1@;
            &&& result matches Ok(token) ==> {
                &&& res.0 == EvidenceEventType::ActionAuthorized
                &&& p.gov_tx_id == Some(token.gov_tx_id@)
                &&& p.session_id == Some(token.session_id@)
                &&& p.run_id == Some(token.run_id@)
                &&& p.principal_fingerprint == Some(token.principal_fingerprint@)
                &&& p.authority == Some(token.authority@)
                &&& p.context_hash == Some(token.context_hash@)
                &&& p.decision_id == Some(token.haap_decision_id@)
                &&& p.capability_id == Some(token.token_id@)
                &&& p.policy_version == Some(token.policy_version@)
                &&& p.policy_hash == Some(token.policy_hash@)
                &&& token.tool_call_id@.len() > 0 ==> p.tool_call_id == Some(token.tool_call_id@)
                &&& token.tool_name@.len() > 0 ==> p.tool_name == Some(token.tool_name@)
                &&& p.outcome == "AUTHORIZED"@
            }
            &&& result matches Err(error) ==> {
                &&& res.0 == EvidenceEventType::ActionRefused
                &&& p.gov_tx_id == Some(req.gov_tx_id@)
                &&& p.session_id == Some(req.session_id@)
                &&& p.run_id == Some(req.run_id@)
                &&& p.principal_fingerprint == Some(req.principal_fingerprint@)
                &&& p.context_hash == Some(req.context_hash@)
                &&& p.policy_version == Some(req.policy_version@)
                &&& p.policy_hash == Some(req.policy_hash@)
                &&& p.outcome == error@
                &&& p.authority == Some(AUTHORITY_ACTION_EXECUTE@)
                &&& p.tool_name == Some(req.tool_name@)
                &&& p.resource_kind == Some(req.resource_kind@)
                &&& p.tool_call_id == Some(req.tool_call_id@)
                &&& p.resource_locator_hash == Some(hash_text(req.resource_locator@))
            }
        }),
{
    match result {
        Ok(token) => (EvidenceEventType::ActionAuthorized, payload_from_token(token, "AUTHORIZED")),
        Err(error) => {
            let mut payload = EvidencePayload::default();
            payload.gov_tx_id = Some(req.gov_tx_id.clone());
            payload.session_id = Some(req.session_id.clone());
            payload.run_id = Some(req.run_id.clone());
            payload.principal_fingerprint = Some(req.principal_fingerprint.clone());
            payload.authority = Some(String::from_str(AUTHORITY_ACTION_EXECUTE));
            payload.context_hash = Some(req.context_hash.clone());
            payload.tool_name = Some(req.tool_name.clone());
            payload.resource_kind = Some(req.resource_kind.clone());
            payload.resource_locator_hash = Some(compute_hash(req.resource_locator.as_str()));
            payload.tool_call_id = Some(req.tool_call_id.clone());
            payload.policy_version = Some(req.policy_version.clone());
            payload.policy_hash = Some(req.policy_hash.clone());
            payload.outcome = error.clone();
            (EvidenceEventType::ActionRefused, payload)
        },
    }
}

/// The evidence for presenting a capability: consumed when the verifier
/// authorized it, rejected otherwise, with the verifier's audit label as the
/// outcome.
pub open spec fn consumption_evidence_spec(
    binding: PresentedBinding,
    authorized: bool,
    audit_outcome: Seq<char>,
) -> (EvidenceEventType, PayloadView) {
    (
        if authorized {
            EvidenceEventType::CapabilityConsumed
        } else {
            EvidenceEventType::CapabilityRejected
        },
        PayloadView {
            gov_tx_id: Some(binding.gov_tx_id@),
            session_id: Some(binding.session_id@),
            run_id: Some(binding.run_id@),
            principal_fingerprint: Some(binding.principal_fingerprint@),
            authority: Some(binding.authority@),
            context_hash: Some(binding.context_hash@),
            decision_id: None,
            capability_id: Some(binding.token_id@),
            action_hash: nonempty_spec(binding.action_hash@),
            tool_name: nonempty_spec(binding.tool_name@),
            resource_kind: nonempty_spec(binding.resource_kind@),
            resource_locator_hash: locator_hash_spec(binding.resource_locator@),
            tool_call_id: nonempty_spec(binding.tool_call_id@),
            policy_version: Some(binding.policy_version@),
            policy_hash: Some(binding.policy_hash@),
            outcome: audit_outcome,
        },
    )
}

/// The evidence for presenting a capability (see `consumption_evidence_spec`).
pub fn consumption_evidence(
    binding: &PresentedBinding,
    authorized: bool,
    audit_outcome: &str,
) -> (res: (EvidenceEventType, EvidencePayload))
    ensures
        (res.0, res.1@) == consumption_evidence_spec(*binding, authorized, audit_outcome@),
        ({
            let p = res.1@;
            &&& (res.0 == EvidenceEventType::CapabilityConsumed) == authorized
            &&& !authorized ==> res.0 == EvidenceEventType::CapabilityRejected
            &&& p.gov_tx_id == Some(binding.gov_tx_id@)
            &&& p.session_id == Some(binding.session_id@)
            &&& p.run_id == Some(binding.run_id@)
            &&& p.principal_fingerprint == Some(binding.principal_fingerprint@)
            &&& p.authority == Some(binding.authority@)
            &&& p.context_hash == Some(binding.context_hash@)
            &&& p.capability_id == Some(binding.token_id@)
            &&& p.policy_version == Some(binding.policy_version@)
            &&& p.policy_hash == Some(binding.policy_hash@)
            &&& binding.tool_call_id@.len() > 0 ==> p.tool_call_id == Some(binding.tool_call_id@)
            &&& binding.tool_name@.len() > 0 ==> p.tool_name == Some(binding.tool_name@)
            &&& binding.resource_locator@.len() > 0 ==> p.resource_locator_hash == Some(hash_text(binding.resource_locator@))
            &&& p.outcome == audit_outcome@
        }),
{
    let event_type = if authorized {
        EvidenceEventType::CapabilityConsumed
    } else {
        EvidenceEventType::CapabilityRejected
    };
    let mut payload = EvidencePayload::default();
    payload.gov_tx_id = Some(binding.gov_tx_id.clone());
    payload.session_id = Some(binding.session_id.clone());
    payload.run_id = Some(binding.run_id.clone());
    payload.principal_fingerprint = Some(binding.principal_fingerprint.clone());
    payload.authority = Some(binding.authority.clone());
    payload.context_hash = Some(binding.context_hash.clone());
    payload.capability_id = Some(binding.token_id.clone());
    payload.action_hash = nonempty(binding.action_hash.as_str());
    payload.tool_name = nonempty(binding.tool_name.as_str());
    payload.resource_kind = nonempty(binding.resource_kind.as_str());
    payload.resource_locator_hash = locator_hash(binding.resource_locator.as_str());
    payload.tool_call_id = nonempty(binding.tool_call_id.as_str());
    payload.policy_version = Some(binding.policy_version.clone());
    payload.policy_hash = Some(binding.policy_hash.clone());
    payload.outcome = String::from_str(audit_outcome);
    (event_type, payload)
}


/// The recorded context decision names the envelope it was made on and the
/// governance transaction: each identifying field is the envelope's, and the
/// event is an approval exactly when the result is `Approved`.
pub proof fn lemma_context_evidence_identifies_envelope(envelope: ContextBinding, gov_tx_id: &str, result: Option<EnforcementKind>)
    ensures
        ({
            let (t, p) = context_evidence_spec(envelope, gov_tx_id@, result);
            &&& p.gov_tx_id == Some(gov_tx_id@)
            &&& p.session_id == Some(envelope.session_id@)
            &&& p.run_id == Some(envelope.run_id@)
            &&& p.context_hash == Some(envelope.context_hash@)
            &&& p.policy_version == Some(envelope.policy_version@)
            &&& p.policy_hash == Some(envelope.policy_hash@)
            &&& (t == EvidenceEventType::ContextApproved) == (result == Some(EnforcementKind::Approved))
            &&& t != EvidenceEventType::ContextApproved ==> t == EvidenceEventType::ContextRefused
        }),
{
}

/// A recorded provider decision carries the issued token's identity, or,
/// for a refusal, the refused request's identity and the refusal text.
pub proof fn lemma_provider_evidence_identifies_request(req: ProviderAuthorizationRequest, result: Result<CapabilityToken, String>)
    ensures
        ({
            let (t, p) = provider_evidence_spec(req, result);
            &&& result matches Ok(token) ==> {
                &&& t == EvidenceEventType::ProviderAuthorized
                &&& p.gov_tx_id == Some(token.gov_tx_id@)
                &&& p.session_id == Some(token.session_id@)
                &&& p.run_id == Some(token.run_id@)
                &&& p.principal_fingerprint == Some(token.principal_fingerprint@)
                &&& p.authority == Some(token.authority@)
                &&& p.context_hash == Some(token.context_hash@)
                &&& p.decision_id == Some(token.haap_decision_id@)
                &&& p.capability_id == Some(token.token_id@)
                &&& p.policy_version == Some(token.policy_version@)
                &&& p.policy_hash == Some(token.policy_hash@)
                &&& token.tool_call_id@.len() > 0 ==> p.tool_call_id == Some(token.tool_call_id@)
                &&& token.tool_name@.len() > 0 ==> p.tool_name == Some(token.tool_name@)
                &&& p.outcome == "AUTHORIZED"@
            }
            &&& result matches Err(error) ==> {
                &&& t == EvidenceEventType::ProviderRefused
                &&& p.gov_tx_id == Some(req.gov_tx_id@)
                &&& p.session_id == Some(req.session_id@)
                &&& p.run_id == Some(req.run_id@)
                &&& p.principal_fingerprint == Some(req.principal_fingerprint@)
                &&& p.context_hash == Some(req.context_hash@)
                &&& p.policy_version == Some(req.policy_version@)
                &&& p.policy_hash == Some(req.policy_hash@)
                &&& p.outcome == error@
                &&& p.authority == Some("provider.execute"@)
            }
        }),
{
}

/// A recorded action decision carries the issued token's identity, or, for a
/// refusal, the refused request's identity (its locator only as a hash) and
/// the refusal text.
pub proof fn lemma_action_evidence_identifies_request(req: ActionAuthorizationRequest, result: Result<CapabilityToken, String>)
    ensures
        ({
            let (t, p) = action_evidence_spec(req, result);
            &&& result matches Ok(token) ==> {
                &&& t == EvidenceEventType::ActionAuthorized
                &&& p.gov_tx_id == Some(token.gov_tx_id@)
                &&& p.session_id == Some(token.session_id@)
                &&& p.run_id == Some(token.run_id@)
                &&& p.principal_fingerprint == Some(token.principal_fingerprint@)
                &&& p.authority == Some(token.authority@)
                &&& p.context_hash == Some(token.context_hash@)
                &&& p.decision_id == Some(token.haap_decision_id@)
                &&& p.capability_id == Some(token.token_id@)
                &&& p.policy_version == Some(token.policy_version@)
                &&& p.policy_hash == Some(token.policy_hash@)
                &&& token.tool_call_id@.len() > 0 ==> p.tool_call_id == Some(token.tool_call_id@)
                &&& token.tool_name@.len() > 0 ==> p.tool_name == Some(token.tool_name@)
                &&& p.outcome == "AUTHORIZED"@
            }
            &&& result matches Err(error) ==> {
                &&& t == EvidenceEventType::ActionRefused
                &&& p.gov_tx_id == Some(req.gov_tx_id@)
                &&& p.session_id == Some(req.session_id@)
                &&& p.run_id == Some(req.run_id@)
                &&& p.principal_fingerprint == Some(req.principal_fingerprint@)
                &&& p.context_hash == Some(req.context_hash@)
                &&& p.policy_version == Some(req.policy_version@)
                &&& p.policy_hash == Some(req.policy_hash@)
                &&& p.outcome == error@
                &&& p.authority == Some(AUTHORITY_ACTION_EXECUTE@)
                &&& p.tool_name == Some(req.tool_name@)
                &&& p.resource_kind == Some(req.resource_kind@)
                &&& p.tool_call_id == Some(req.tool_call_id@)
                &&& p.resource_locator_hash == Some(hash_text(req.resource_locator@))
            }
        }),
{
}

/// A recorded capability presentation names who presented which capability
/// under which transaction and policy, and is a consumption exactly when the
/// verifier authorized it.
pub proof fn lemma_consumption_evidence_identifies_presenter(binding: PresentedBinding, authorized: bool, audit_outcome: &str)
    ensures
        ({
            let (t, p) = consumption_evidence_spec(binding, authorized, audit_outcome@);
            &&& (t == EvidenceEventType::CapabilityConsumed) == authorized
            &&& !authorized ==> t == EvidenceEventType::CapabilityRejected
            &&& p.gov_tx_id == Some(binding.gov_tx_id@)
            &&& p.session_id == Some(binding.session_id@)
            &&& p.run_id == Some(binding.run_id@)
            &&& p.principal_fingerprint == Some(binding.principal_fingerprint@)
            &&& p.authority == Some(binding.authority@)
            &&& p.context_hash == Some(binding.context_hash@)
            &&& p.capability_id == Some(binding.token_id@)
            &&& p.policy_version == Some(binding.policy_version@)
            &&& p.policy_hash == Some(binding.policy_hash@)
            &&& binding.tool_call_id@.len() > 0 ==> p.tool_call_id == Some(binding.tool_call_id@)
            &&& binding.tool_name@.len() > 0 ==> p.tool_name == Some(binding.tool_name@)
            &&& binding.resource_locator@.len() > 0 ==> p.resource_locator_hash == Some(hash_text(binding.resource_locator@))
            &&& p.outcome == audit_outcome@
        }),
{
}

/// Records the evidence of an inbound-context decision: exactly one event, the one `context_evidence_spec` gives. Returns the decision unchanged, with the append receipt (`None`,
/// with no event recorded, when the random source cannot be read).
pub fn record_context_decision<S: EvidenceSink>(
    plane: &mut EvidencePlane<S>,
    envelope: &ContextBinding,
    gov_tx_id: &str,
    result: Option<EnforcementKind>,
) -> (res: (Option<EnforcementKind>, Option<EvidenceAppendReceipt>))
    requires
        old(plane).events().len() + 1 < u64::MAX,
    ensures
        res.0 == result,
        res.1 is None ==> final(plane).events() == old(plane).events(),
        res.1 is Some ==> {
            &&& final(plane).events().drop_last() == old(plane).events()
            &&& final(plane).events().len() == old(plane).events().len() + 1
            &&& (final(plane).events().last().event_type, final(plane).events().last().payload) == context_evidence_spec(*envelope, gov_tx_id@, result)
        },
        res.1 is Some ==> {
            let e = final(plane).events().last();
            let p = e.payload;
            &&& p.gov_tx_id == Some(gov_tx_id@)
            &&& p.session_id == Some(envelope.session_id@)
            &&& p.run_id == Some(envelope.run_id@)
            &&& p.context_hash == Some(envelope.context_hash@)
            &&& p.policy_version == Some(envelope.policy_version@)
            &&& p.policy_hash == Some(envelope.policy_hash@)
            &&& (e.event_type == EvidenceEventType::ContextApproved) == (result == Some(EnforcementKind::Approved))
            &&& e.event_type != EvidenceEventType::ContextApproved ==> e.event_type == EvidenceEventType::ContextRefused
        },
{
    let (event_type, payload) = context_evidence(envelope, gov_tx_id, result);
    let receipt = plane.append(event_type, payload);
    (result, receipt)
}

/// Records the evidence of a provider authorization: exactly one event, the one `provider_evidence_spec` gives. Returns the decision unchanged, with the append receipt (`None`,
/// with no event recorded, when the random source cannot be read).
pub fn record_provider_decision<S: EvidenceSink>(
    plane: &mut EvidencePlane<S>,
    req: &ProviderAuthorizationRequest,
    result: Result<CapabilityToken, String>,
) -> (res: (Result<CapabilityToken, String>, Option<EvidenceAppendReceipt>))
    requires
        old(plane).events().len() + 1 < u64::MAX,
    ensures
        res.0 == result,
        res.1 is None ==> final(plane).events() == old(plane).events(),
        res.1 is Some ==> {
            &&& final(plane).events().drop_last() == old(plane).events()
            &&& final(plane).events().len() == old(plane).events().len() + 1
            &&& (final(plane).events().last().event_type, final(plane).events().last().payload) == provider_evidence_spec(*req, result)
        },
        res.1 is Some ==> {
            let e = final(plane).events().last();
            let p = e.payload;
            &&& result matches Ok(token) ==> {
                &&& e.event_type == EvidenceEventType::ProviderAuthorized
                &&& p.gov_tx_id == Some(token.gov_tx_id@)
                &&& p.session_id == Some(token.session_id@)
                &&& p.run_id == Some(token.run_id@)
                &&& p.principal_fingerprint == Some(token.principal_fingerprint@)
                &&& p.authority == Some(token.authority@)
                &&& p.context_hash == Some(token.context_hash@)
                &&& p.decision_id == Some(token.haap_decision_id@)
                &&& p.capability_id == Some(token.token_id@)
                &&& p.policy_version == Some(token.policy_version@)
                &&& p.policy_hash == Some(token.policy_hash@)
                &&& token.tool_call_id@.len() > 0 ==> p.tool_call_id == Some(token.tool_call_id@)
                &&& token.tool_name@.len() > 0 ==> p.tool_name == Some(token.tool_name@)
                &&& p.outcome == "AUTHORIZED"@
            }
            &&& result matches Err(error) ==> {
                &&& e.event_type == EvidenceEventType::ProviderRefused
                &&& p.gov_tx_id == Some(req.gov_tx_id@)
                &&& p.session_id == Some(req.session_id@)
                &&& p.run_id == Some(req.run_id@)
                &&& p.principal_fingerprint == Some(req.principal_fingerprint@)
                &&& p.context_hash == Some(req.context_hash@)
                &&& p.policy_version == Some(req.policy_version@)
                &&& p.policy_hash == Some(req.policy_hash@)
                &&& p.outcome == error@
                &&& p.authority == Some("provider.execute"@)
            }
        },
{
    let (event_type, payload) = provider_evidence(req, &result);
    let receipt = plane.append(event_type, payload);
    (result, receipt)
}

/// Records the evidence of an action authorization: exactly one event, the one `action_evidence_spec` gives. Returns the decision unchanged, with the append receipt (`None`,
/// with no event recorded, when the random source cannot be read).
pub fn record_action_decision<S: EvidenceSink>(
    plane: &mut EvidencePlane<S>,
    req: &ActionAuthorizationRequest,
    result: Result<CapabilityToken, String>,
) -> (res: (Result<CapabilityToken, String>, Option<EvidenceAppendReceipt>))
    requires
        old(plane).events().len() + 1 < u64::MAX,
    ensures
        res.0 == result,
        res.1 is None ==> final(plane).events() == old(plane).events(),
        res.1 is Some ==> {
            &&& final(plane).events().drop_last() == old(plane).events()
            &&& final(plane).events().len() == old(plane).events().len() + 1
            &&& (final(plane).events().last().event_type, final(plane).events().last().payload) == action_evidence_spec(*req, result)
        },
        res.1 is Some ==> {
            let e = final(plane).events().last();
            let p = e.payload;
            &&& result matches Ok(token) ==> {
                &&& e.event_type == EvidenceEventType::ActionAuthorized
                &&& p.gov_tx_id == Some(token.gov_tx_id@)
                &&& p.session_id == Some(token.session_id@)
                &&& p.run_id == Some(token.run_id@)
                &&& p.principal_fingerprint == Some(token.principal_fingerprint@)
                &&& p.authority == Some(token.authority@)
                &&& p.context_hash == Some(token.context_hash@)
                &&& p.decision_id == Some(token.haap_decision_id@)
                &&& p.capability_id == Some(token.token_id@)
                &&& p.policy_version == Some(token.policy_version@)
                &&& p.policy_hash == Some(token.policy_hash@)
                &&& token.tool_call_id@.len() > 0 ==> p.tool_call_id == Some(token.tool_call_id@)
                &&& token.tool_name@.len() > 0 ==> p.tool_name == Some(token.tool_name@)
                &&& p.outcome == "AUTHORIZED"@
            }
            &&& result matches Err(error) ==> {
                &&& e.event_type == EvidenceEventType::ActionRefused
                &&& p.gov_tx_id == Some(req.gov_tx_id@)
                &&& p.session_id == Some(req.session_id@)
                &&& p.run_id == Some(req.run_id@)
                &&& p.principal_fingerprint == Some(req.principal_fingerprint@)
                &&& p.context_hash == Some(req.context_hash@)
                &&& p.policy_version == Some(req.policy_version@)
                &&& p.policy_hash == Some(req.policy_hash@)
                &&& p.outcome == error@
                &&& p.authority == Some(AUTHORITY_ACTION_EXECUTE@)
                &&& p.tool_name == Some(req.tool_name@)
                &&& p.resource_kind == Some(req.resource_kind@)
                &&& p.tool_call_id == Some(req.tool_call_id@)
                &&& p.resource_locator_hash == Some(hash_text(req.resource_locator@))
            }
        },
{
    let (event_type, payload) = action_evidence(req, &result);
    let receipt = plane.append(event_type, payload);
    (result, receipt)
}

/// Records the evidence of a presented capability: exactly one event, the one `consumption_evidence_spec` gives. Returns the decision unchanged, with the append receipt (`None`,
/// with no event recorded, when the random source cannot be read).
pub fn record_consumption<S: EvidenceSink>(
    plane: &mut EvidencePlane<S>,
    binding: &PresentedBinding,
    authorized: bool,
    audit_outcome: &str,
) -> (res: (bool, Option<EvidenceAppendReceipt>))
    requires
        old(plane).events().len() + 1 < u64::MAX,
    ensures
        res.0 == authorized,
        res.1 is None ==> final(plane).events() == old(plane).events(),
        res.1 is Some ==> {
            &&& final(plane).events().drop_last() == old(plane).events()
            &&& final(plane).events().len() == old(plane).events().len() + 1
            &&& (final(plane).events().last().event_type, final(plane).events().last().payload) == consumption_evidence_spec(*binding, authorized, audit_outcome@)
        },
        res.1 is Some ==> {
            let e = final(plane).events().last();
            let p = e.payload;
            &&& (e.event_type == EvidenceEventType::CapabilityConsumed) == authorized
            &&& !authorized ==> e.event_type == EvidenceEventType::CapabilityRejected
            &&& p.gov_tx_id == Some(binding.gov_tx_id@)
            &&& p.session_id == Some(binding.session_id@)
            &&& p.run_id == Some(binding.run_id@)
            &&& p.principal_fingerprint == Some(binding.principal_fingerprint@)
            &&& p.authority == Some(binding.authority@)
            &&& p.context_hash == Some(binding.context_hash@)
            &&& p.capability_id == Some(binding.token_id@)
            &&& p.policy_version == Some(binding.policy_version@)
            &&& p.policy_hash == Some(binding.policy_hash@)
            &&& binding.tool_call_id@.len() > 0 ==> p.tool_call_id == Some(binding.tool_call_id@)
            &&& binding.tool_name@.len() > 0 ==> p.tool_name == Some(binding.tool_name@)
            &&& binding.resource_locator@.len() > 0 ==> p.resource_locator_hash == Some(hash_text(binding.resource_locator@))
            &&& p.outcome == audit_outcome@
        },
{
    let (event_type, payload) = consumption_evidence(binding, authorized, audit_outcome);
    let receipt = plane.append(event_type, payload);
    (authorized, receipt)
}

} // verus!
