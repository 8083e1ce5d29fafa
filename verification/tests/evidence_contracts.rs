use std::sync::Arc;

use governance_spine::crypto::CryptoEngine;
use governance_spine::encoding::hex_encode;
use governance_spine::evidence::{
    canonical_event_material, enc, enc_opt, EvidenceEvent, EvidenceEventType, EvidencePayload,
    EvidencePlane, EvidenceSink, EvidenceSinkError, EvidenceSinkStatus, EvidenceVerificationError, MemoryEvidenceSink,
    EVIDENCE_CHECKPOINT_SCHEMA_VERSION, EVIDENCE_SCHEMA_VERSION,
};

type Plane = EvidencePlane<MemoryEvidenceSink>;

fn outcome(label: &str) -> EvidencePayload {
    EvidencePayload { outcome: label.to_string(), ..EvidencePayload::default() }
}

#[test]
fn event_type_labels() {
    assert_eq!(EvidenceEventType::ContextApproved.as_str(), "CONTEXT_APPROVED");
    assert_eq!(EvidenceEventType::ContextRefused.as_str(), "CONTEXT_REFUSED");
    assert_eq!(EvidenceEventType::ProviderAuthorized.as_str(), "PROVIDER_AUTHORIZED");
    assert_eq!(EvidenceEventType::ProviderRefused.as_str(), "PROVIDER_REFUSED");
    assert_eq!(EvidenceEventType::ActionAuthorized.as_str(), "ACTION_AUTHORIZED");
    assert_eq!(EvidenceEventType::ActionRefused.as_str(), "ACTION_REFUSED");
    assert_eq!(EvidenceEventType::CapabilityConsumed.as_str(), "CAPABILITY_CONSUMED");
    assert_eq!(EvidenceEventType::CapabilityRejected.as_str(), "CAPABILITY_REJECTED");
}

#[test]
fn field_encodings() {
    assert_eq!(enc("ab|"), "61627c");
    assert_eq!(enc_opt(Some("ab")), "16162");
    assert_eq!(enc_opt(Some("")), "1");
    assert_eq!(enc_opt(None), "0");
}

#[test]
fn event_material_is_the_canonical_field_list() {
    let crypto = Arc::new(CryptoEngine::new("material").expect("random source"));
    let mut plane = Plane::new(crypto, None).expect("random source");
    plane.append(EvidenceEventType::ActionRefused, outcome("DENIED")).expect("appended");
    let event = plane.snapshot().remove(0);
    let mut fields = vec![
        hex_encode(event.schema_version.as_bytes()),
        hex_encode(event.epoch_id.as_bytes()),
        "0".to_string(),
        "1".to_string(),
        hex_encode(event.event_id.as_bytes()),
        event.timestamp.to_string(),
        "ACTION_REFUSED".to_string(),
    ];
    fields.extend(std::iter::repeat("0".to_string()).take(15));
    fields.push(hex_encode(b"DENIED"));
    fields.push(hex_encode(event.previous_event_hash.as_bytes()));
    fields.push(hex_encode(event.signer_fingerprint.as_bytes()));
    fields.push(hex_encode(event.signer_public_key.as_bytes()));
    let material = fields.join("|");
    assert_eq!(canonical_event_material(&event), material);
    assert_eq!(event.event_hash, CryptoEngine::compute_hash(&material));
    assert_eq!(event.recompute_hash(), event.event_hash);
    assert!(event.verify_signature());
}

#[test]
fn new_epoch_starts_from_its_genesis_hash() {
    let crypto = Arc::new(CryptoEngine::new("genesis").expect("random source"));
    let fingerprint = crypto.verifying_key_fingerprint();
    let mut plane = Plane::new(crypto, None).expect("random source");
    assert!(plane.is_empty());
    let epoch = plane.epoch_id();
    assert_eq!(epoch.len(), 36);
    assert!(epoch.starts_with("EVP-"));
    assert!(epoch[4..].chars().all(|c| c.is_ascii_digit() || ('a'..='f').contains(&c)));
    let receipt = plane.append(EvidenceEventType::ContextApproved, outcome("APPROVED")).expect("appended");
    assert!(matches!(receipt.sink_status, EvidenceSinkStatus::NotConfigured));
    let events = plane.snapshot();
    let genesis = CryptoEngine::compute_hash(&format!(
        "{}|GENESIS|{}|{}",
        EVIDENCE_SCHEMA_VERSION, epoch, fingerprint
    ));
    assert_eq!(events[0].previous_event_hash, genesis);
    assert_eq!(events[0].epoch_parent_hash, None);
    assert_eq!(events[0].schema_version, EVIDENCE_SCHEMA_VERSION);
    assert_eq!(receipt.event_hash, events[0].event_hash);
    assert_eq!(receipt.event_id, events[0].event_id);
    assert!(receipt.event_id.starts_with("EVE-"));
    assert_eq!(receipt.event_id.len(), 36);
    assert!(receipt.event_id[4..].chars().all(|c| c.is_ascii_digit() || ('a'..='f').contains(&c)));
    assert_eq!(receipt.sequence, 1);
    assert_eq!(plane.len(), 1);
}

#[test]
fn memory_sink_receives_every_event_in_order() {
    let crypto = Arc::new(CryptoEngine::new("memory-sink").expect("random source"));
    let mut plane = EvidencePlane::new(crypto, Some(MemoryEvidenceSink::new())).expect("random source");
    for label in ["a", "b", "c"] {
        let receipt = plane.append(EvidenceEventType::CapabilityConsumed, outcome(label)).expect("appended");
        match receipt.sink_status {
            EvidenceSinkStatus::Delivered { sink } => assert_eq!(sink, "memory"),
            other => panic!("expected delivery, got {other:?}"),
        }
    }
    assert_eq!(plane.pending_sink_count(), 0);
    assert_eq!(plane.flush_pending().expect("nothing pending"), 0);
    let delivered = plane.sink().as_ref().expect("sink configured").snapshot();
    let local = plane.snapshot();
    assert_eq!(delivered.len(), 3);
    for (d, l) in delivered.iter().zip(local.iter()) {
        assert_eq!(d.event_hash, l.event_hash);
        assert_eq!(d.sequence, l.sequence);
    }
}

#[test]
fn flush_without_sink_delivers_nothing() {
    let crypto = Arc::new(CryptoEngine::new("no-sink").expect("random source"));
    let mut plane = Plane::new(crypto, None).expect("random source");
    plane.append(EvidenceEventType::ContextApproved, outcome("x")).expect("appended");
    assert_eq!(plane.flush_pending().expect("no sink"), 0);
    assert_eq!(plane.pending_sink_count(), 0);
}

#[test]
fn sink_error_text() {
    let error = EvidenceSinkError { sink: "worm".to_string(), message: "offline".to_string() };
    assert_eq!(error.describe(), "evidence sink worm failed: offline");
}

#[test]
fn checkpoint_fields_and_validity() {
    let crypto = Arc::new(CryptoEngine::new("checkpoint-fields").expect("random source"));
    let mut plane = Plane::new(Arc::clone(&crypto), None).expect("random source");
    let empty = plane.checkpoint();
    assert_eq!(empty.last_sequence, 0);
    assert_eq!(Plane::verify_snapshot_against_checkpoint(&[], &empty), Ok(()));
    plane.append(EvidenceEventType::ContextApproved, outcome("one")).expect("appended");
    plane.append(EvidenceEventType::ContextApproved, outcome("two")).expect("appended");
    let checkpoint = plane.checkpoint();
    assert_eq!(checkpoint.schema_version, EVIDENCE_CHECKPOINT_SCHEMA_VERSION);
    assert_eq!(checkpoint.last_sequence, 2);
    assert_eq!(checkpoint.epoch_id, plane.epoch_id());
    assert_eq!(checkpoint.head_hash, plane.snapshot()[1].event_hash);
    assert_eq!(checkpoint.signer_public_key, crypto.verifying_key_hex());
    assert_eq!(checkpoint.recompute_hash(), checkpoint.checkpoint_hash);
    assert!(checkpoint.verify());
    assert_eq!(Plane::verify_snapshot_against_checkpoint(&plane.snapshot(), &checkpoint), Ok(()));

    let mut tampered = checkpoint.clone();
    tampered.last_sequence = 5;
    assert!(!tampered.verify());
    assert_eq!(
        Plane::verify_snapshot_against_checkpoint(&plane.snapshot(), &tampered),
        Err(EvidenceVerificationError::InvalidCheckpoint)
    );
    assert!(matches!(
        Plane::from_checkpoint(Arc::clone(&crypto), &tampered, None),
        Err(EvidenceVerificationError::InvalidCheckpoint)
    ));
}

#[test]
fn checkpoint_from_another_signer_is_refused() {
    let first = Arc::new(CryptoEngine::new("signer-one").expect("random source"));
    let second = Arc::new(CryptoEngine::new("signer-two").expect("random source"));
    let mut plane = Plane::new(first, None).expect("random source");
    plane.append(EvidenceEventType::ContextApproved, outcome("one")).expect("appended");
    let checkpoint = plane.checkpoint();
    assert!(matches!(
        Plane::from_checkpoint(second, &checkpoint, None),
        Err(EvidenceVerificationError::CheckpointSignerMismatch)
    ));
}

#[test]
fn resumed_epoch_is_a_new_epoch_linked_to_the_checkpoint() {
    let crypto = Arc::new(CryptoEngine::new("resume").expect("random source"));
    let mut first = Plane::new(Arc::clone(&crypto), None).expect("random source");
    first.append(EvidenceEventType::ContextApproved, outcome("one")).expect("appended");
    let checkpoint = first.checkpoint();
    let mut second = Plane::from_checkpoint(crypto, &checkpoint, None).expect("resumes").expect("random source");
    assert_ne!(second.epoch_id(), first.epoch_id());
    second.append(EvidenceEventType::ContextApproved, outcome("two")).expect("appended");
    let events = second.snapshot();
    assert_eq!(events[0].previous_event_hash, checkpoint.head_hash);
    assert_eq!(events[0].sequence, 1);

    // The old epoch's events do not verify together with the new one's.
    let mut mixed = first.snapshot();
    mixed.extend(events);
    assert_eq!(Plane::verify_snapshot(&mixed), Err(EvidenceVerificationError::MixedEpoch));
}

#[test]
fn verification_error_variants() {
    let crypto = Arc::new(CryptoEngine::new("errors").expect("random source"));
    let mut plane = Plane::new(crypto, None).expect("random source");
    plane.append(EvidenceEventType::ContextApproved, outcome("one")).expect("appended");
    plane.append(EvidenceEventType::ContextApproved, outcome("two")).expect("appended");
    let events = plane.snapshot();

    let mut bad = events.clone();
    bad[1].schema_version = "other".to_string();
    assert_eq!(Plane::verify_snapshot(&bad), Err(EvidenceVerificationError::SchemaMismatch { sequence: 2 }));

    let mut bad = events.clone();
    bad[0].signer_fingerprint = "0000000000000000".to_string();
    assert_eq!(Plane::verify_snapshot(&bad), Err(EvidenceVerificationError::SignerFingerprintMismatch));

    let other = CryptoEngine::new("other-signer").expect("random source");
    let mut bad = events.clone();
    bad[1].signer_public_key = other.verifying_key_hex();
    assert_eq!(Plane::verify_snapshot(&bad), Err(EvidenceVerificationError::MixedSigner));

    let mut bad = events.clone();
    bad[1].sequence = 7;
    assert_eq!(
        Plane::verify_snapshot(&bad),
        Err(EvidenceVerificationError::InvalidSequence { expected: 2, actual: 7 })
    );

    let mut bad = events.clone();
    bad[1].previous_event_hash = "x".to_string();
    assert_eq!(Plane::verify_snapshot(&bad), Err(EvidenceVerificationError::ParentMismatch { sequence: 2 }));

    let mut bad = events.clone();
    let flipped = if bad[1].signature.starts_with('0') { "1" } else { "0" };
    bad[1].signature.replace_range(0..1, flipped);
    assert_eq!(Plane::verify_snapshot(&bad), Err(EvidenceVerificationError::SignatureInvalid { sequence: 2 }));

    let mut bad = events.clone();
    bad[1].epoch_parent_hash = Some("p".to_string());
    assert_eq!(Plane::verify_snapshot(&bad), Err(EvidenceVerificationError::MixedEpoch));
}

#[test]
fn checkpoint_mismatches_against_snapshot() {
    let crypto = Arc::new(CryptoEngine::new("against").expect("random source"));
    let mut a = Plane::new(Arc::clone(&crypto), None).expect("random source");
    let mut b = Plane::new(crypto, None).expect("random source");
    a.append(EvidenceEventType::ContextApproved, outcome("one")).expect("appended");
    b.append(EvidenceEventType::ContextApproved, outcome("one")).expect("appended");
    let checkpoint_b = b.checkpoint();
    assert_eq!(
        Plane::verify_snapshot_against_checkpoint(&a.snapshot(), &checkpoint_b),
        Err(EvidenceVerificationError::MixedEpoch)
    );
    let before = a.checkpoint();
    a.append(EvidenceEventType::ContextApproved, outcome("two")).expect("appended");
    assert_eq!(
        Plane::verify_snapshot_against_checkpoint(&a.snapshot(), &before),
        Err(EvidenceVerificationError::InvalidSequence { expected: 1, actual: 2 })
    );
    assert_eq!(
        Plane::verify_snapshot_against_checkpoint(&[], &before),
        Err(EvidenceVerificationError::InvalidSequence { expected: 1, actual: 0 })
    );
}

struct RenamingSink {
    label: String,
    accept: bool,
}

impl EvidenceSink for RenamingSink {
    fn name(&self) -> &str {
        &self.label
    }

    fn write(&mut self, _event: &EvidenceEvent) -> Result<(), EvidenceSinkError> {
        self.label = "after-write".to_string();
        if self.accept {
            Ok(())
        } else {
            Err(EvidenceSinkError { sink: "after-write".to_string(), message: "refused".to_string() })
        }
    }
}

#[test]
fn sink_is_named_after_the_write() {
    let crypto = Arc::new(CryptoEngine::new("sink-name").expect("random source"));
    let sink = RenamingSink { label: "before-write".to_string(), accept: true };
    let mut plane = EvidencePlane::new(crypto, Some(sink)).expect("random source");
    let receipt = plane.append(EvidenceEventType::ContextApproved, outcome("x")).expect("appended");
    assert!(matches!(receipt.sink_status, EvidenceSinkStatus::Delivered { ref sink } if sink == "after-write"));

    let crypto = Arc::new(CryptoEngine::new("sink-name-refused").expect("random source"));
    let sink = RenamingSink { label: "before-write".to_string(), accept: false };
    let mut plane = EvidencePlane::new(crypto, Some(sink)).expect("random source");
    let first = plane.append(EvidenceEventType::ContextApproved, outcome("x")).expect("appended");
    assert!(matches!(
        first.sink_status,
        EvidenceSinkStatus::Deferred { ref sink, ref error }
            if sink == "after-write" && error == "evidence sink after-write failed: refused"
    ));
    let second = plane.append(EvidenceEventType::ContextApproved, outcome("y")).expect("appended");
    assert!(matches!(
        second.sink_status,
        EvidenceSinkStatus::Deferred { ref sink, ref error }
            if sink == "after-write" && error == "prior deferred evidence pending"
    ));
    assert_eq!(plane.pending_sink_count(), 2);
}
