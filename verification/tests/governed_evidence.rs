use std::sync::Arc;

use governance_spine::crypto::CryptoEngine;
use governance_spine::evidence::{
    EvidenceEventType, EvidencePlane, EvidenceSinkStatus, MemoryEvidenceSink,
};
use governance_spine::governed::{
    action_evidence, consumption_evidence, context_evidence, enforcement_outcome, nonempty,
    payload_from_token, provider_evidence, record_action_decision, record_consumption,
    record_context_decision, ActionAuthorizationRequest, CapabilityToken, ContextBinding,
    EnforcementKind, PresentedBinding, ProviderAuthorizationRequest,
};

fn token(resource_locator: &str, tool_name: &str) -> CapabilityToken {
    CapabilityToken {
        token_id: "cap-1".to_string(),
        gov_tx_id: "GTX-action-wrapper".to_string(),
        session_id: "sess-wrapper".to_string(),
        run_id: "run-wrapper".to_string(),
        principal_fingerprint: "trusted-wrapper".to_string(),
        authority: "action.execute".to_string(),
        context_hash: "ctx".to_string(),
        haap_decision_id: "haap-1".to_string(),
        action_hash: "act".to_string(),
        tool_name: tool_name.to_string(),
        resource_kind: "record".to_string(),
        resource_locator: resource_locator.to_string(),
        tool_call_id: "call-wrapper-1".to_string(),
        policy_version: "policy-test-v1".to_string(),
        policy_hash: "ph".to_string(),
    }
}

#[test]
fn enforcement_outcome_labels() {
    assert_eq!(enforcement_outcome(EnforcementKind::Approved), "APPROVED");
    assert_eq!(enforcement_outcome(EnforcementKind::Restricted), "RESTRICTED");
    assert_eq!(enforcement_outcome(EnforcementKind::Quarantined), "QUARANTINED");
    assert_eq!(enforcement_outcome(EnforcementKind::HardLocked), "HARD_LOCKED");
    assert_eq!(enforcement_outcome(EnforcementKind::HaapGated), "HAAP_GATED");
}

#[test]
fn nonempty_drops_empty_strings() {
    assert_eq!(nonempty(""), None);
    assert_eq!(nonempty("x"), Some("x".to_string()));
}

#[test]
fn token_payload_records_only_the_locator_hash() {
    let payload = payload_from_token(&token("customer/3817", "write"), "AUTHORIZED");
    assert_eq!(payload.resource_locator_hash, Some(CryptoEngine::compute_hash("customer/3817")));
    assert_eq!(payload.capability_id, Some("cap-1".to_string()));
    assert_eq!(payload.decision_id, Some("haap-1".to_string()));
    assert_eq!(payload.tool_name, Some("write".to_string()));
    assert_eq!(payload.outcome, "AUTHORIZED");
    let all = [
        &payload.gov_tx_id, &payload.session_id, &payload.run_id, &payload.principal_fingerprint,
        &payload.authority, &payload.context_hash, &payload.decision_id, &payload.capability_id,
        &payload.action_hash, &payload.tool_name, &payload.resource_kind,
        &payload.resource_locator_hash, &payload.tool_call_id, &payload.policy_version,
        &payload.policy_hash,
    ];
    for field in all {
        assert!(!field.as_deref().unwrap_or("").contains("customer/3817"));
    }
}

#[test]
fn token_payload_leaves_empty_fields_out() {
    let payload = payload_from_token(&token("", ""), "AUTHORIZED");
    assert_eq!(payload.resource_locator_hash, None);
    assert_eq!(payload.tool_name, None);
}

#[test]
fn context_evidence_by_result() {
    let envelope = ContextBinding {
        session_id: "sess".to_string(),
        run_id: "run".to_string(),
        context_hash: "ctx".to_string(),
        policy_version: "v1".to_string(),
        policy_hash: "ph".to_string(),
    };
    let (kind, payload) = context_evidence(&envelope, "GTX-1", Some(EnforcementKind::Approved));
    assert_eq!(kind, EvidenceEventType::ContextApproved);
    assert_eq!(payload.outcome, "APPROVED");
    assert_eq!(payload.gov_tx_id, Some("GTX-1".to_string()));
    assert_eq!(payload.capability_id, None);
    let (kind, payload) = context_evidence(&envelope, "GTX-1", Some(EnforcementKind::Quarantined));
    assert_eq!(kind, EvidenceEventType::ContextRefused);
    assert_eq!(payload.outcome, "QUARANTINED");
    let (kind, payload) = context_evidence(&envelope, "GTX-1", None);
    assert_eq!(kind, EvidenceEventType::ContextRefused);
    assert_eq!(payload.outcome, "STRUCTURAL_VALIDATION_FAILED");
}

#[test]
fn provider_and_action_evidence_by_result() {
    let provider = ProviderAuthorizationRequest {
        gov_tx_id: "GTX-p".to_string(),
        session_id: "sess".to_string(),
        run_id: "run".to_string(),
        principal_fingerprint: "pf".to_string(),
        context_hash: "ctx".to_string(),
        policy_version: "v1".to_string(),
        policy_hash: "ph".to_string(),
    };
    let (kind, payload) = provider_evidence(&provider, &Err("ContextNotApproved".to_string()));
    assert_eq!(kind, EvidenceEventType::ProviderRefused);
    assert_eq!(payload.authority, Some("provider.execute".to_string()));
    assert_eq!(payload.outcome, "ContextNotApproved");
    let (kind, payload) = provider_evidence(&provider, &Ok(token("", "")));
    assert_eq!(kind, EvidenceEventType::ProviderAuthorized);
    assert_eq!(payload.outcome, "AUTHORIZED");

    let action = ActionAuthorizationRequest {
        gov_tx_id: "GTX-a".to_string(),
        session_id: "sess".to_string(),
        run_id: "run".to_string(),
        principal_fingerprint: "pf".to_string(),
        tool_name: "write".to_string(),
        resource_kind: "record".to_string(),
        resource_locator: "customer/3817".to_string(),
        tool_call_id: "call-1".to_string(),
        context_hash: "ctx".to_string(),
        policy_version: "v1".to_string(),
        policy_hash: "ph".to_string(),
    };
    let (kind, payload) = action_evidence(&action, &Err("UnknownActionClass".to_string()));
    assert_eq!(kind, EvidenceEventType::ActionRefused);
    assert_eq!(payload.resource_locator_hash, Some(CryptoEngine::compute_hash("customer/3817")));
    assert_eq!(payload.tool_name, Some("write".to_string()));
    assert_eq!(payload.outcome, "UnknownActionClass");
    let (kind, _) = action_evidence(&action, &Ok(token("customer/3817", "write")));
    assert_eq!(kind, EvidenceEventType::ActionAuthorized);
}

#[test]
fn consumption_evidence_by_verifier_result() {
    let binding = PresentedBinding {
        token_id: "cap-1".to_string(),
        gov_tx_id: "GTX".to_string(),
        session_id: "sess".to_string(),
        principal_fingerprint: "pf".to_string(),
        authority: "action.execute".to_string(),
        run_id: "run".to_string(),
        context_hash: "ctx".to_string(),
        policy_version: "v1".to_string(),
        policy_hash: "ph".to_string(),
        action_hash: "".to_string(),
        tool_name: "write".to_string(),
        resource_kind: "record".to_string(),
        resource_locator: "customer/3817".to_string(),
        tool_call_id: "call".to_string(),
    };
    let (kind, payload) = consumption_evidence(&binding, true, "CAPABILITY_CONSUMED");
    assert_eq!(kind, EvidenceEventType::CapabilityConsumed);
    assert_eq!(payload.action_hash, None);
    assert_eq!(payload.capability_id, Some("cap-1".to_string()));
    let (kind, payload) = consumption_evidence(&binding, false, "CAPABILITY_REPLAY_REJECTED");
    assert_eq!(kind, EvidenceEventType::CapabilityRejected);
    assert_eq!(payload.outcome, "CAPABILITY_REPLAY_REJECTED");
}

#[test]
fn recorded_decisions_append_one_event_each_and_come_back_unchanged() {
    let crypto = Arc::new(CryptoEngine::new("governed-record").expect("random source"));
    let mut plane = EvidencePlane::new(crypto, Some(MemoryEvidenceSink::new())).expect("random source");

    let envelope = ContextBinding {
        session_id: "sess".to_string(),
        run_id: "run".to_string(),
        context_hash: "ctx".to_string(),
        policy_version: "v1".to_string(),
        policy_hash: "ph".to_string(),
    };
    let (result, receipt) =
        record_context_decision(&mut plane, &envelope, "GTX-c", Some(EnforcementKind::Restricted));
    assert_eq!(result, Some(EnforcementKind::Restricted));
    let receipt = receipt.expect("appended");
    assert_eq!(receipt.sequence, 1);
    assert!(matches!(receipt.sink_status, EvidenceSinkStatus::Delivered { .. }));

    let action = ActionAuthorizationRequest {
        gov_tx_id: "GTX-a".to_string(),
        session_id: "sess".to_string(),
        run_id: "run".to_string(),
        principal_fingerprint: "pf".to_string(),
        tool_name: "write".to_string(),
        resource_kind: "record".to_string(),
        resource_locator: "customer/3817".to_string(),
        tool_call_id: "call-1".to_string(),
        context_hash: "ctx".to_string(),
        policy_version: "v1".to_string(),
        policy_hash: "ph".to_string(),
    };
    let (result, receipt) =
        record_action_decision(&mut plane, &action, Err("UnknownActionClass".to_string()));
    assert_eq!(result.err(), Some("UnknownActionClass".to_string()));
    assert_eq!(receipt.expect("appended").sequence, 2);

    let binding = PresentedBinding {
        token_id: "cap-1".to_string(),
        gov_tx_id: "GTX".to_string(),
        session_id: "sess".to_string(),
        principal_fingerprint: "pf".to_string(),
        authority: "action.execute".to_string(),
        run_id: "run".to_string(),
        context_hash: "ctx".to_string(),
        policy_version: "v1".to_string(),
        policy_hash: "ph".to_string(),
        action_hash: "act".to_string(),
        tool_name: "write".to_string(),
        resource_kind: "record".to_string(),
        resource_locator: "customer/3817".to_string(),
        tool_call_id: "call".to_string(),
    };
    let (authorized, receipt) = record_consumption(&mut plane, &binding, false, "CAPABILITY_REPLAY_REJECTED");
    assert!(!authorized);
    assert_eq!(receipt.expect("appended").sequence, 3);

    let events = plane.snapshot();
    assert_eq!(events.len(), 3);
    let expected = context_evidence(&envelope, "GTX-c", Some(EnforcementKind::Restricted));
    assert_eq!(events[0].event_type, expected.0);
    assert_eq!(events[0].payload.outcome, expected.1.outcome);
    assert_eq!(events[1].event_type, EvidenceEventType::ActionRefused);
    assert_eq!(events[1].payload.outcome, "UnknownActionClass");
    assert_eq!(events[1].payload.resource_locator_hash, Some(CryptoEngine::compute_hash("customer/3817")));
    assert_eq!(events[2].event_type, EvidenceEventType::CapabilityRejected);
    assert_eq!(events[2].payload.outcome, "CAPABILITY_REPLAY_REJECTED");
    assert_eq!(EvidencePlane::<MemoryEvidenceSink>::verify_snapshot(&events), Ok(()));
    let delivered = plane.sink().expect("sink configured").snapshot();
    assert_eq!(delivered.len(), 3);
    assert_eq!(delivered[2].event_hash, events[2].event_hash);
}
