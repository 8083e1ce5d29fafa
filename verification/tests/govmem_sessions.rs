use governance_spine::govmem::{GovMem, GovMemMode, MessageDirection};

#[test]
fn v1_mode_keeps_no_history() {
    let mut govmem = GovMem::new(GovMemMode::V1);
    govmem.record_turn("s", "hello", MessageDirection::UserToSystem, false, None, None);
    assert!(govmem.session("s").is_none());
}

#[test]
fn v2_mode_numbers_turns_per_session() {
    let mut govmem = GovMem::new(GovMemMode::V2);
    govmem.record_turn("a", "one", MessageDirection::UserToSystem, false, Some("SEC"), Some("EXE-01"));
    govmem.record_turn("b", "other", MessageDirection::UserToSystem, true, None, None);
    govmem.record_turn("a", "two", MessageDirection::SystemToUser, true, Some("ATTACKER"), None);
    let a = govmem.session("a").expect("session a");
    assert_eq!(a.messages.len(), 2);
    assert_eq!(a.messages[0].turn, 1);
    assert_eq!(a.messages[1].turn, 2);
    assert_eq!(a.messages[1].content, "two");
    assert!(a.messages[1].blocked);
    assert_eq!(a.department_id.as_deref(), Some("SEC"));
    assert_eq!(a.agent_id.as_deref(), Some("EXE-01"));
    assert!(!a.flagged_for_review);
    let b = govmem.session("b").expect("session b");
    assert_eq!(b.messages.len(), 1);
    assert_eq!(b.messages[0].turn, 1);
    assert_eq!(b.department_id, None);
}
