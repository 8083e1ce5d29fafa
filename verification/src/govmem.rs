//! GovMem session tracking: per-session turn history recorded in V2 mode.
//!
//! Caller metadata (department, agent) is observational only: it is kept as
//! given when a session is first seen and never selects policy.

use vstd::prelude::*;
use vstd::string::*;

use crate::evidence::opt_view;
use crate::clock::{reading_timestamp, SystemClock};

verus! {

#[derive(Debug, Clone, Copy, PartialEq, Eq, Structural)]
pub enum GovMemMode {
    /// Rule-based only: turns are accumulated elsewhere, nothing is kept here.
    V1,
    /// Session turn history is kept here.
    V2,
}

#[derive(Debug, Clone, Copy, PartialEq, Eq, Structural)]
pub enum MessageDirection {
    UserToSystem,
    SystemToUser,
}

#[derive(Debug, Clone, Copy, PartialEq, Eq, Structural)]
pub enum HumanLabel {
    TrueAttack,
    FalsePositive,
    Benign,
    Uncertain,
}

/// One recorded turn. `timestamp` is nanoseconds since the Unix epoch (UTC).
#[derive(Debug, Clone)]
pub struct Message {
    pub turn: u32,
    pub timestamp: i64,
    pub content: String,
    pub direction: MessageDirection,
    pub blocked: bool,
}

pub struct MessageView {
    pub turn: u32,
    pub timestamp: i64,
    pub content: Seq<char>,
    pub direction: MessageDirection,
    pub blocked: bool,
}

impl View for Message {
    type V = MessageView;

    open spec fn view(&self) -> MessageView {
        MessageView {
            turn: self.turn,
            timestamp: self.timestamp,
            content: self.content@,
            direction: self.direction,
            blocked: self.blocked,
        }
    }
}

/// A session's history. `created_at` is nanoseconds since the Unix epoch (UTC).
#[derive(Debug, Clone)]
pub struct GovMemSession {
    pub session_id: String,
    pub created_at: i64,
    pub department_id: Option<String>,
    pub agent_id: Option<String>,
    pub messages: Vec<Message>,
    pub flagged_for_review: bool,
    pub human_label: Option<HumanLabel>,
}

pub struct SessionView {
    pub session_id: Seq<char>,
    pub created_at: i64,
    pub department_id: Option<Seq<char>>,
    pub agent_id: Option<Seq<char>>,
    pub messages: Seq<MessageView>,
    pub flagged_for_review: bool,
    pub human_label: Option<HumanLabel>,
}

impl View for GovMemSession {
    type V = SessionView;

    open spec fn view(&self) -> SessionView {
        SessionView {
            session_id: self.session_id@,
            created_at: self.created_at,
            department_id: opt_view(self.department_id),
            agent_id: opt_view(self.agent_id),
            messages: self.messages@.map_values(|m: Message| m@),
            flagged_for_review: self.flagged_for_review,
            human_label: self.human_label,
        }
    }
}

/// Placeholder for a sentence embedding model; no model is loaded yet.
pub struct SentenceEmbedder {}

/// Placeholder for the memory policy agent; no model is loaded yet.
pub struct MemoryPolicyAgent {}

/// Where the session with this identifier stands, if it is there.
pub open spec fn session_position(sessions: Seq<SessionView>, session_id: Seq<char>) -> Option<int> {
    if exists|i: int| 0 <= i < sessions.len() && (#[trigger] sessions[i]).session_id == session_id {
        Some(choose|i: int| 0 <= i < sessions.len() && (#[trigger] sessions[i]).session_id == session_id)
    } else {
        None
    }
}

/// Turns of a session are numbered 1, 2, 3, ... in order.
pub open spec fn turns_consecutive(s: SessionView) -> bool {
    forall|i: int| 0 <= i < s.messages.len() ==> (#[trigger] s.messages[i]).turn == i + 1
}

/// The views of a list of sessions.
pub open spec fn session_views(sessions: Seq<GovMemSession>) -> Seq<SessionView> {
    sessions.map_values(|s: GovMemSession| s@)
}

/// Session identifiers are distinct, and every session's turns are numbered
/// consecutively from 1.
pub open spec fn sessions_well_formed(sessions: Seq<SessionView>) -> bool {
    &&& forall|i: int, j: int|
        0 <= i < j < sessions.len() ==> (#[trigger] sessions[i]).session_id != (#[trigger] sessions[j]).session_id
    &&& forall|i: int| 0 <= i < sessions.len() ==> turns_consecutive(#[trigger] sessions[i])
}

/// GovMem session tracking.
pub struct GovMem {
    mode: GovMemMode,
    v2_sessions: Vec<GovMemSession>,
    clock: SystemClock,
}

impl GovMem {
    /// The tracked sessions, in the order they were first seen.
    pub closed spec fn sessions(&self) -> Seq<SessionView> {
        session_views(self.v2_sessions@)
    }

    pub closed spec fn mode_view(&self) -> GovMemMode {
        self.mode
    }

    /// Every reading of the clock this GovMem has taken, in order.
    pub closed spec fn clock_readings(&self) -> Seq<Result<(u64, u32), (u64, u32)>> {
        self.clock.readings()
    }

    /// What every GovMem keeps: distinct session identifiers, and turns
    /// numbered consecutively from 1 in every session.
    #[verifier::type_invariant]
    pub closed spec fn wf(&self) -> bool {
        sessions_well_formed(self.sessions())
    }

    pub fn new(mode: GovMemMode) -> (res: Self)
        ensures
            res.mode_view() == mode,
            res.sessions().len() == 0,
            sessions_well_formed(res.sessions()),
            res.clock_readings().len() == 0,
    {
        let res = GovMem { mode, v2_sessions: Vec::new(), clock: SystemClock::new() };
        assert(res.sessions() =~= Seq::<SessionView>::empty());
        res
    }

    fn find(&self, session_id: &str) -> (res: Option<usize>)
        ensures
            match res {
                Some(i) => session_position(self.sessions(), session_id@) == Some(i as int),
                None => session_position(self.sessions(), session_id@) is None,
            },
    {
        proof {
            use_type_invariant(self);
        }
        let mut i: usize = 0;
        while i < self.v2_sessions.len()
            invariant
                sessions_well_formed(self.sessions()),
                i <= self.v2_sessions@.len(),
                forall|j: int| 0 <= j < i ==> (#[trigger] self.sessions()[j]).session_id != session_id@,
            decreases self.v2_sessions.len() - i,
        {
            if self.v2_sessions[i].session_id == String::from_str(session_id) {
                assert(self.sessions()[i as int].session_id == session_id@);
                let ghost p = session_position(self.sessions(), session_id@);
                assert(p is Some);
                assert(p == Some(i as int)) by {
                    let k = p->0;
                    if k != i {
                        if k < i {
                            assert(self.sessions()[k].session_id != session_id@);
                        } else {
                            assert(self.sessions()[i as int].session_id != self.sessions()[k].session_id);
                        }
                    }
                }
                return Some(i);
            }
            i = i + 1;
        }
        None
    }

    /// The session with this identifier, if it is tracked.
    pub fn session(&self, session_id: &str) -> (res: Option<&GovMemSession>)
        ensures
            match res {
                Some(s) => session_position(self.sessions(), session_id@) matches Some(i) && s@
                    == self.sessions()[i] && turns_consecutive(s@),
                None => session_position(self.sessions(), session_id@) is None,
            },
    {
        proof {
            use_type_invariant(self);
        }
        match self.find(session_id) {
            Some(i) => Some(&self.v2_sessions[i]),
            None => None,
        }
    }

    /// Records a turn. In V1 mode nothing is kept. In V2 mode the message is
    /// added to its session as the next turn; a session seen for the first
    /// time is created with the given department and agent, which later turns
    /// do not change.
    pub fn record_turn(
        &mut self,
        session_id: &str,
        message: &str,
        direction: MessageDirection,
        blocked: bool,
        department_id: Option<&str>,
        agent_id: Option<&str>,
    )
        requires
            session_position(old(self).sessions(), session_id@) matches Some(i)
                ==> old(self).sessions()[i].messages.len() + 1 <= u32::MAX,
        ensures
            sessions_well_formed(final(self).sessions()),
            final(self).mode_view() == old(self).mode_view(),
            old(self).mode_view() == GovMemMode::V1 ==> final(self).sessions() == old(self).sessions()
                && final(self).clock_readings() == old(self).clock_readings(),
            old(self).mode_view() == GovMemMode::V2 ==> match session_position(old(self).sessions(), session_id@) {
                Some(i) => {
                    let s = old(self).sessions()[i];
                    let m = final(self).sessions()[i].messages.last();
                    &&& final(self).sessions().len() == old(self).sessions().len()
                    &&& forall|j: int| 0 <= j < old(self).sessions().len() && j != i ==>
                        final(self).sessions()[j] == old(self).sessions()[j]
                    &&& final(self).sessions()[i].session_id == s.session_id
                    &&& final(self).sessions()[i].created_at == s.created_at
                    &&& final(self).sessions()[i].department_id == s.department_id
                    &&& final(self).sessions()[i].agent_id == s.agent_id
                    &&& final(self).sessions()[i].flagged_for_review == s.flagged_for_review
                    &&& final(self).sessions()[i].human_label == s.human_label
                    &&& final(self).sessions()[i].messages.drop_last() == s.messages
                    &&& final(self).sessions()[i].messages.len() == s.messages.len() + 1
                    &&& m.turn == s.messages.len() + 1
                    &&& final(self).clock_readings().len() == old(self).clock_readings().len() + 1
                    &&& final(self).clock_readings().drop_last() == old(self).clock_readings()
                    &&& m.timestamp == reading_timestamp(final(self).clock_readings().last())
                    &&& m.content == message@
                    &&& m.direction == direction
                    &&& m.blocked == blocked
                },
                None => {
                    let s = final(self).sessions().last();
                    &&& final(self).sessions().drop_last() == old(self).sessions()
                    &&& final(self).sessions().len() == old(self).sessions().len() + 1
                    &&& s.session_id == session_id@
                    &&& s.department_id == (match department_id { Some(d) => Some(d@), None => None })
                    &&& s.agent_id == (match agent_id { Some(a) => Some(a@), None => None })
                    &&& !s.flagged_for_review
                    &&& s.human_label is None
                    &&& s.messages.len() == 1
                    &&& s.messages[0].turn == 1
                    &&& final(self).clock_readings().len() == old(self).clock_readings().len() + 2
                    &&& final(self).clock_readings().take(old(self).clock_readings().len() as int)
                        == old(self).clock_readings()
                    &&& s.created_at == reading_timestamp(final(self).clock_readings()[old(self).clock_readings().len() as int])
                    &&& s.messages[0].timestamp == reading_timestamp(final(self).clock_readings().last())
                    &&& s.messages[0].content == message@
                    &&& s.messages[0].direction == direction
                    &&& s.messages[0].blocked == blocked
                },
            },
    {
        proof {
            use_type_invariant(&*self);
        }
        match self.mode {
            GovMemMode::V1 => {},
            GovMemMode::V2 => {
                self.record_turn_v2(session_id, message, direction, blocked, department_id, agent_id);
            },
        }
    }

    fn record_turn_v2(
        &mut self,
        session_id: &str,
        message: &str,
        direction: MessageDirection,
        blocked: bool,
        department_id: Option<&str>,
        agent_id: Option<&str>,
    )
        requires
            session_position(old(self).sessions(), session_id@) matches Some(i)
                ==> old(self).sessions()[i].messages.len() + 1 <= u32::MAX,
        ensures
            sessions_well_formed(final(self).sessions()),
            final(self).mode_view() == old(self).mode_view(),
            match session_position(old(self).sessions(), session_id@) {
                Some(i) => {
                    let s = old(self).sessions()[i];
                    let m = final(self).sessions()[i].messages.last();
                    &&& final(self).sessions().len() == old(self).sessions().len()
                    &&& forall|j: int| 0 <= j < old(self).sessions().len() && j != i ==>
                        final(self).sessions()[j] == old(self).sessions()[j]
                    &&& final(self).sessions()[i].session_id == s.session_id
                    &&& final(self).sessions()[i].created_at == s.created_at
                    &&& final(self).sessions()[i].department_id == s.department_id
                    &&& final(self).sessions()[i].agent_id == s.agent_id
                    &&& final(self).sessions()[i].flagged_for_review == s.flagged_for_review
                    &&& final(self).sessions()[i].human_label == s.human_label
                    &&& final(self).sessions()[i].messages.drop_last() == s.messages
                    &&& final(self).sessions()[i].messages.len() == s.messages.len() + 1
                    &&& m.turn == s.messages.len() + 1
                    &&& final(self).clock_readings().len() == old(self).clock_readings().len() + 1
                    &&& final(self).clock_readings().drop_last() == old(self).clock_readings()
                    &&& m.timestamp == reading_timestamp(final(self).clock_readings().last())
                    &&& m.content == message@
                    &&& m.direction == direction
                    &&& m.blocked == blocked
                },
                None => {
                    let s = final(self).sessions().last();
                    &&& final(self).sessions().drop_last() == old(self).sessions()
                    &&& final(self).sessions().len() == old(self).sessions().len() + 1
                    &&& s.session_id == session_id@
                    &&& s.department_id == (match department_id { Some(d) => Some(d@), None => None })
                    &&& s.agent_id == (match agent_id { Some(a) => Some(a@), None => None })
                    &&& !s.flagged_for_review
                    &&& s.human_label is None
                    &&& s.messages.len() == 1
                    &&& s.messages[0].turn == 1
                    &&& final(self).clock_readings().len() == old(self).clock_readings().len() + 2
                    &&& final(self).clock_readings().take(old(self).clock_readings().len() as int)
                        == old(self).clock_readings()
                    &&& s.created_at == reading_timestamp(final(self).clock_readings()[old(self).clock_readings().len() as int])
                    &&& s.messages[0].timestamp == reading_timestamp(final(self).clock_readings().last())
                    &&& s.messages[0].content == message@
                    &&& s.messages[0].direction == direction
                    &&& s.messages[0].blocked == blocked
                },
            },
    {
        proof {
            use_type_invariant(&*self);
        }
        let ghost old_sessions = self.sessions();
        let found = self.find(session_id);
        let ghost old_readings = self.clock_readings();
        let mut sessions: Vec<GovMemSession> = Vec::new();
        std::mem::swap(&mut sessions, &mut self.v2_sessions);
        let mut clock = SystemClock::new();
        std::mem::swap(&mut clock, &mut self.clock);
        assert(session_views(sessions@) == old_sessions);
        let index = match found {
            Some(i) => i,
            None => {
                let created_at = match clock.now() {
                    Some(t) => t,
                    None => 0,
                };
                let department = match department_id {
                    Some(d) => Some(String::from_str(d)),
                    None => None,
                };
                let agent = match agent_id {
                    Some(a) => Some(String::from_str(a)),
                    None => None,
                };
                let session = GovMemSession {
                    session_id: String::from_str(session_id),
                    created_at,
                    department_id: department,
                    agent_id: agent,
                    messages: Vec::new(),
                    flagged_for_review: false,
                    human_label: None,
                };
                sessions.push(session);
                sessions.len() - 1
            },
        };
        let ghost mid = session_views(sessions@);
        proof {
            if found is None {
                assert(mid =~= old_sessions.push(mid.last()));
            } else {
                assert(mid =~= old_sessions);
            }
            assert forall|i: int, j: int| 0 <= i < j < mid.len() implies (#[trigger] mid[i]).session_id
                != (#[trigger] mid[j]).session_id by {
                if j == mid.len() - 1 && mid.len() > old_sessions.len() {
                    assert(mid[i] == old_sessions[i]);
                    if mid[i].session_id == session_id@ {
                        assert(exists|k: int| 0 <= k < old_sessions.len() && (#[trigger] old_sessions[k]).session_id == session_id@);
                    }
                } else if mid.len() > old_sessions.len() {
                    assert(mid[i] == old_sessions[i]);
                    assert(mid[j] == old_sessions[j]);
                }
            }
            assert forall|i: int| 0 <= i < mid.len() implies turns_consecutive(#[trigger] mid[i]) by {
                if i < old_sessions.len() {
                    assert(mid[i] == old_sessions[i]);
                }
            }
            assert(mid[index as int].session_id == session_id@);
            assert(mid[index as int].messages.len() + 1 <= u32::MAX) by {
                if index < old_sessions.len() {
                    assert(mid[index as int] == old_sessions[index as int]);
                }
            }
        }
        let timestamp = match clock.now() {
            Some(t) => t,
            None => 0,
        };
        let mut session = sessions.remove(index);
        assert(session@ == mid[index as int]);
        let turn = session.messages.len() as u32 + 1;
        let ghost before_messages = session@.messages;
        session.messages.push(Message {
            turn,
            timestamp,
            content: String::from_str(message),
            direction,
            blocked,
        });
        assert(session@.messages =~= before_messages.push(session.messages@.last()@));
        let ghost updated = session@;
        sessions.insert(index, session);
        let ghost fin = session_views(sessions@);
        assert(fin =~= mid.update(index as int, updated));
        proof {
            assert forall|i: int| 0 <= i < fin.len() implies turns_consecutive(#[trigger] fin[i]) by {
                if i != index {
                    assert(fin[i] == mid[i]);
                } else {
                    assert forall|k: int| 0 <= k < updated.messages.len() implies (#[trigger] updated.messages[k]).turn == k + 1 by {
                        if k < before_messages.len() {
                            assert(turns_consecutive(mid[index as int]));
                        }
                    }
                }
            }
            assert forall|i: int, j: int| 0 <= i < j < fin.len() implies (#[trigger] fin[i]).session_id
                != (#[trigger] fin[j]).session_id by {
                assert(mid[i].session_id != mid[j].session_id);
            }
        }
        self.v2_sessions = sessions;
        self.clock = clock;
        proof {
            if found is None {
                assert(self.clock_readings().take(old_readings.len() as int) =~= old_readings);
                assert(self.clock_readings()[old_readings.len() as int] == self.clock_readings().drop_last()[old_readings.len() as int]);
            }
        }
    }
}

} // verus!
