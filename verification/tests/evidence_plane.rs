use std::sync::atomic::{AtomicBool, Ordering};
use std::sync::{Arc, Mutex};

use governance_spine::crypto::CryptoEngine;
use governance_spine::evidence::{
    EvidenceCheckpoint, EvidenceEvent, EvidenceEventType, EvidencePayload, EvidencePlane,
    EvidenceSink, EvidenceSinkError, EvidenceSinkStatus, EvidenceVerificationError,
    MemoryEvidenceSink,
};

type Plane = EvidencePlane<MemoryEvidenceSink>;

struct ToggleSink {
    fail: Arc<AtomicBool>,
    events: Arc<Mutex<Vec<EvidenceEvent>>>,
}

impl EvidenceSink for ToggleSink {
    fn name(&self) -> &str {
        "toggle"
    }

    fn write(&mut self, event: &EvidenceEvent) -> Result<(), EvidenceSinkError> {
        if self.fail.load(Ordering::SeqCst) {
            return Err(EvidenceSinkError {
                sink: self.name().to_string(),
                message: "simulated outage".to_string(),
            });
        }
        self.events.lock().unwrap().push(event.clone());
        Ok(())
    }
}

fn payload(label: &str) -> EvidencePayload {
    EvidencePayload {
        gov_tx_id: Some(format!("GTX-{label}")),
        session_id: Some("sess-evidence".to_string()),
        run_id: Some("run-evidence".to_string()),
        context_hash: Some(CryptoEngine::compute_hash(label)),
        outcome: label.to_string(),
        ..EvidencePayload::default()
    }
}

#[test]
fn chain_and_signatures_verify() {
    let crypto = Arc::new(CryptoEngine::new("evidence-chain").expect("random source"));
    let mut plane = Plane::new(crypto, None).expect("random source");
    plane.append(EvidenceEventType::ContextApproved, payload("one")).expect("appended");
    plane.append(EvidenceEventType::ActionAuthorized, payload("two")).expect("appended");
    plane.append(EvidenceEventType::CapabilityConsumed, payload("three")).expect("appended");

    let events = plane.snapshot();
    assert_eq!(events.len(), 3);
    assert_eq!(events[0].sequence, 1);
    assert_eq!(events[2].previous_event_hash, events[1].event_hash);
    assert_eq!(Plane::verify_snapshot(&events), Ok(()));
}

#[test]
fn mutation_is_detected() {
    let crypto = Arc::new(CryptoEngine::new("evidence-mutation").expect("random source"));
    let mut plane = Plane::new(crypto, None).expect("random source");
    plane.append(EvidenceEventType::ActionAuthorized, payload("authorized")).expect("appended");
    let mut events = plane.snapshot();
    events[0].payload.outcome = "tampered".to_string();

    assert!(matches!(
        Plane::verify_snapshot(&events),
        Err(EvidenceVerificationError::HashMismatch { sequence: 1 })
    ));
}

#[test]
fn deletion_and_reordering_are_detected() {
    let crypto = Arc::new(CryptoEngine::new("evidence-order").expect("random source"));
    let mut plane = Plane::new(crypto, None).expect("random source");
    for label in ["one", "two", "three"] {
        plane.append(EvidenceEventType::ActionAuthorized, payload(label)).expect("appended");
    }

    let events = plane.snapshot();
    let deleted = vec![events[0].clone(), events[2].clone()];
    assert!(Plane::verify_snapshot(&deleted).is_err());

    let reordered = vec![events[1].clone(), events[0].clone(), events[2].clone()];
    assert!(Plane::verify_snapshot(&reordered).is_err());
}

#[test]
fn signed_checkpoint_links_a_new_epoch() {
    let crypto = Arc::new(CryptoEngine::new("evidence-checkpoint").expect("random source"));
    let mut first = Plane::new(Arc::clone(&crypto), None).expect("random source");
    first.append(EvidenceEventType::ContextApproved, payload("first")).expect("appended");
    let checkpoint = first.checkpoint();
    assert!(checkpoint.verify());

    let mut second = match Plane::from_checkpoint(crypto, &checkpoint, None) {
        Ok(Some(plane)) => plane,
        Ok(None) => panic!("random source unavailable"),
        Err(error) => panic!("valid checkpoint should resume: {error:?}"),
    };
    second.append(EvidenceEventType::ActionAuthorized, payload("second")).expect("appended");
    let events = second.snapshot();
    assert_eq!(events[0].epoch_parent_hash, Some(checkpoint.head_hash));
    assert_eq!(Plane::verify_snapshot(&events), Ok(()));
}

#[test]
fn sink_failure_keeps_local_evidence_and_retries_in_order() {
    let crypto = Arc::new(CryptoEngine::new("evidence-sink").expect("random source"));
    let fail = Arc::new(AtomicBool::new(true));
    let delivered = Arc::new(Mutex::new(Vec::new()));
    let sink = ToggleSink { fail: Arc::clone(&fail), events: Arc::clone(&delivered) };
    let mut plane = EvidencePlane::new(crypto, Some(sink)).expect("random source");

    let first = plane.append(EvidenceEventType::ActionAuthorized, payload("one")).expect("appended");
    assert!(matches!(first.sink_status, EvidenceSinkStatus::Deferred { .. }));
    let second = plane.append(EvidenceEventType::ActionAuthorized, payload("two")).expect("appended");
    assert!(matches!(second.sink_status, EvidenceSinkStatus::Deferred { .. }));
    assert_eq!(plane.snapshot().len(), 2);
    assert_eq!(plane.pending_sink_count(), 2);

    fail.store(false, Ordering::SeqCst);
    assert_eq!(plane.flush_pending().expect("sink recovery"), 2);
    assert_eq!(plane.pending_sink_count(), 0);
    let delivered = delivered.lock().unwrap();
    assert_eq!(delivered.len(), 2);
    assert_eq!(delivered[0].sequence, 1);
    assert_eq!(delivered[1].sequence, 2);
}

#[test]
fn signed_checkpoint_detects_tail_truncation() {
    let crypto = Arc::new(CryptoEngine::new("evidence-tail").expect("random source"));
    let mut plane = Plane::new(crypto, None).expect("random source");
    for label in ["one", "two", "three"] {
        plane.append(EvidenceEventType::ActionAuthorized, payload(label)).expect("appended");
    }
    let checkpoint = plane.checkpoint();
    let mut truncated = plane.snapshot();
    truncated.pop();

    assert!(matches!(
        Plane::verify_snapshot_against_checkpoint(&truncated, &checkpoint),
        Err(EvidenceVerificationError::InvalidSequence { expected: 3, actual: 2 })
    ));
}

#[test]
fn deferred_events_hold_back_later_writes_and_flush_stops_at_refusal() {
    let crypto = Arc::new(CryptoEngine::new("evidence-sink-order").expect("random source"));
    let fail = Arc::new(AtomicBool::new(true));
    let delivered = Arc::new(Mutex::new(Vec::new()));
    let sink = ToggleSink { fail: Arc::clone(&fail), events: Arc::clone(&delivered) };
    let mut plane = EvidencePlane::new(crypto, Some(sink)).expect("random source");

    let first = plane.append(EvidenceEventType::ActionAuthorized, payload("one")).expect("appended");
    match first.sink_status {
        EvidenceSinkStatus::Deferred { sink, error } => {
            assert_eq!(sink, "toggle");
            assert_eq!(error, "evidence sink toggle failed: simulated outage");
        }
        other => panic!("expected deferral, got {other:?}"),
    }

    // The sink is up again, but an earlier event is still pending.
    fail.store(false, Ordering::SeqCst);
    let second = plane.append(EvidenceEventType::ActionAuthorized, payload("two")).expect("appended");
    match second.sink_status {
        EvidenceSinkStatus::Deferred { sink, error } => {
            assert_eq!(sink, "toggle");
            assert_eq!(error, "prior deferred evidence pending");
        }
        other => panic!("expected deferral, got {other:?}"),
    }
    assert_eq!(second.sequence, 2);
    assert!(delivered.lock().unwrap().is_empty());
    assert_eq!(plane.pending_sink_count(), 2);

    // A flush against a failing sink stops at the first event with its error.
    fail.store(true, Ordering::SeqCst);
    let error = plane.flush_pending().expect_err("sink down");
    assert_eq!(error.sink, "toggle");
    assert_eq!(error.message, "simulated outage");
    assert_eq!(plane.pending_sink_count(), 2);
    assert!(delivered.lock().unwrap().is_empty());

    fail.store(false, Ordering::SeqCst);
    assert_eq!(plane.flush_pending().expect("sink recovery"), 2);
    assert_eq!(plane.flush_pending().expect("nothing left"), 0);
    let delivered = delivered.lock().unwrap();
    assert_eq!(delivered.len(), 2);
    assert_eq!(delivered[0].sequence, 1);
    assert_eq!(delivered[1].sequence, 2);
}
