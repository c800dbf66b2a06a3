//! The chat session store: per chat identifier, the lifecycle of one gating attempt.
use std::collections::HashMap;
use vstd::prelude::*;

verus! {

broadcast use vstd::std_specs::hash::group_hash_axioms;

/// Where a gating attempt stands. `Verified` and `Denied` are terminal.
#[derive(Clone, Copy, Debug, PartialEq, Eq, Structural)]
pub enum SessionState {
    Started,
    AwaitingProof,
    Verified,
    Denied,
}

/// How far along the lifecycle a state lies; a transition must strictly increase it.
pub open spec fn stage(s: SessionState) -> nat {
    match s {
        SessionState::Started => 0,
        SessionState::AwaitingProof => 1,
        SessionState::Verified => 2,
        SessionState::Denied => 2,
    }
}

pub open spec fn is_terminal(s: SessionState) -> bool {
    s == SessionState::Verified || s == SessionState::Denied
}

/// A set of states, as the source of a compare-and-set transition.
#[derive(Clone, Copy, Debug, PartialEq, Eq, Structural)]
pub struct StateSet {
    pub started: bool,
    pub awaiting_proof: bool,
    pub verified: bool,
    pub denied: bool,
}

/// The states that are not terminal.
pub open spec fn open_state_set() -> StateSet {
    StateSet { started: true, awaiting_proof: true, verified: false, denied: false }
}

impl StateSet {
    pub open spec fn has(self, s: SessionState) -> bool {
        match s {
            SessionState::Started => self.started,
            SessionState::AwaitingProof => self.awaiting_proof,
            SessionState::Verified => self.verified,
            SessionState::Denied => self.denied,
        }
    }

    pub fn contains(&self, s: SessionState) -> (r: bool)
        ensures
            r == self.has(s),
    {
        match s {
            SessionState::Started => self.started,
            SessionState::AwaitingProof => self.awaiting_proof,
            SessionState::Verified => self.verified,
            SessionState::Denied => self.denied,
        }
    }

    /// The states in which a proof may still be judged: `Started` and `AwaitingProof`.
    pub fn open_states() -> (r: StateSet)
        ensures
            r == open_state_set(),
            forall|s: SessionState| r.has(s) <==> !is_terminal(s),
    {
        StateSet { started: true, awaiting_proof: true, verified: false, denied: false }
    }
}

/// The record kept for one chat.
#[derive(Debug)]
pub struct ChatSession {
    pub state: SessionState,
    pub created_at: u64,
    pub last_updated_at: u64,
    /// The invite handed out; present exactly when the session is `Verified`.
    pub issued_invite: Option<String>,
}

/// The mathematical value of a `ChatSession`.
pub struct SessionView {
    pub state: SessionState,
    pub created_at: u64,
    pub last_updated_at: u64,
    pub invite: Option<Seq<char>>,
}

pub open spec fn invite_view(i: Option<String>) -> Option<Seq<char>> {
    match i {
        Some(s) => Some(s@),
        None => None,
    }
}

impl View for ChatSession {
    type V = SessionView;

    open spec fn view(&self) -> SessionView {
        SessionView {
            state: self.state,
            created_at: self.created_at,
            last_updated_at: self.last_updated_at,
            invite: invite_view(self.issued_invite),
        }
    }
}

impl SessionView {
    /// An invite is stored exactly when the session is verified.
    pub open spec fn wf(self) -> bool {
        (self.state == SessionState::Verified) == self.invite.is_some()
    }
}

/// Why a store operation did not apply.
#[derive(Clone, Copy, Debug, PartialEq, Eq, Structural)]
pub enum StoreError {
    SessionNotFound,
    StaleSession,
}

/// The sessions of all chats, keyed by chat identifier.
pub struct SessionStore {
    sessions: HashMap<i64, ChatSession>,
}

/// The session a compare-and-set transition leaves behind.
pub open spec fn moved(s: SessionView, to: SessionState, invite: Option<Seq<char>>, now: u64) -> SessionView {
    SessionView { state: to, created_at: s.created_at, last_updated_at: now, invite }
}

/// Whether a transition from `from` to `to` applies to the session `s`.
pub open spec fn may_move(s: SessionView, from: StateSet, to: SessionState) -> bool {
    from.has(s.state) && !is_terminal(s.state) && stage(s.state) < stage(to)
}

pub open spec fn fresh_session(now: u64) -> SessionView {
    SessionView { state: SessionState::Started, created_at: now, last_updated_at: now, invite: None }
}

/// What `transition` does to the store, and what it returns.
pub open spec fn transition_result(
    m: Map<i64, SessionView>,
    chat_id: i64,
    from: StateSet,
    to: SessionState,
    invite: Option<Seq<char>>,
    now: u64,
) -> (Map<i64, SessionView>, Result<(), StoreError>) {
    if !m.contains_key(chat_id) {
        (m, Err(StoreError::SessionNotFound))
    } else if !may_move(m[chat_id], from, to) {
        (m, Err(StoreError::StaleSession))
    } else {
        (m.insert(chat_id, moved(m[chat_id], to, invite, now)), Ok(()))
    }
}

/// Sessions only move forward: a transition that applies strictly advances
/// the session's stage, and a terminal session, with its stored invite, is
/// never changed by any transition.
pub proof fn lemma_transition_monotonic(
    m: Map<i64, SessionView>,
    chat_id: i64,
    from: StateSet,
    to: SessionState,
    invite: Option<Seq<char>>,
    now: u64,
)
    ensures
        ({
            let (m2, r) = transition_result(m, chat_id, from, to, invite, now);
            &&& r is Ok ==> m.contains_key(chat_id) && stage(m[chat_id].state) < stage(
                m2[chat_id].state,
            )
            &&& m.contains_key(chat_id) && is_terminal(m[chat_id].state) ==> m2 == m && r
                == Err::<(), StoreError>(StoreError::StaleSession)
            &&& forall|k: i64| k != chat_id ==> m2.contains_key(k) == m.contains_key(k) && (
            #[trigger] m.contains_key(k) ==> m2[k] == m[k])
        }),
{
}

impl View for SessionStore {
    type V = Map<i64, SessionView>;

    closed spec fn view(&self) -> Map<i64, SessionView> {
        self.sessions@.map_values(|s: ChatSession| s@)
    }
}

impl SessionStore {
    /// Every stored session keeps its invite exactly when verified.
    pub open spec fn wf(&self) -> bool {
        forall|k: i64| #[trigger] self@.contains_key(k) ==> self@[k].wf()
    }

    pub fn new() -> (r: SessionStore)
        ensures
            r@ == Map::<i64, SessionView>::empty(),
            r.wf(),
    {
        let r = SessionStore { sessions: HashMap::new() };
        assert(r@ =~= Map::<i64, SessionView>::empty());
        r
    }

    /// The state of the session of `chat_id`, if there is one.
    pub fn state_of(&self, chat_id: i64) -> (r: Option<SessionState>)
        ensures
            match r {
                Some(s) => self@.contains_key(chat_id) && self@[chat_id].state == s,
                None => !self@.contains_key(chat_id),
            },
    {
        match self.sessions.get(&chat_id) {
            Some(s) => Some(s.state),
            None => None,
        }
    }

    /// The invite stored for `chat_id`, if its session has one.
    pub fn invite_of(&self, chat_id: i64) -> (r: Option<String>)
        ensures
            match r {
                Some(t) => self@.contains_key(chat_id) && self@[chat_id].invite == Some(t@),
                None => !self@.contains_key(chat_id) || self@[chat_id].invite.is_none(),
            },
    {
        match self.sessions.get(&chat_id) {
            Some(s) => match &s.issued_invite {
                Some(t) => Some(t.clone()),
                None => None,
            },
            None => None,
        }
    }

    /// Makes sure `chat_id` has a session, creating a `Started` one at `now` if
    /// it has none, and returns the session's state.
    pub fn ensure(&mut self, chat_id: i64, now: u64) -> (r: SessionState)
        requires
            old(self).wf(),
        ensures
            final(self).wf(),
            old(self)@.contains_key(chat_id) ==> final(self)@ == old(self)@ && r
                == old(self)@[chat_id].state,
            !old(self)@.contains_key(chat_id) ==> final(self)@ == old(self)@.insert(
                chat_id,
                fresh_session(now),
            ) && r == SessionState::Started,
    {
        match self.sessions.get(&chat_id) {
            Some(s) => s.state,
            None => {
                let s = ChatSession {
                    state: SessionState::Started,
                    created_at: now,
                    last_updated_at: now,
                    issued_invite: None,
                };
                self.sessions.insert(chat_id, s);
                assert(self@ =~= old(self)@.insert(chat_id, fresh_session(now)));
                SessionState::Started
            },
        }
    }

    /// Compare-and-set: moves the session of `chat_id` to `to`, storing `invite`,
    /// if its state is in `from`, is not terminal and lies before `to`.
    pub fn transition(
        &mut self,
        chat_id: i64,
        from: StateSet,
        to: SessionState,
        invite: Option<String>,
        now: u64,
    ) -> (r: Result<(), StoreError>)
        requires
            old(self).wf(),
            (to == SessionState::Verified) == invite.is_some(),
        ensures
            final(self).wf(),
            (final(self)@, r) == transition_result(old(self)@, chat_id, from, to, invite_view(invite), now),
    {
        let (created_at, state) = match self.sessions.get(&chat_id) {
            Some(s) => (s.created_at, s.state),
            None => {
                return Err(StoreError::SessionNotFound);
            },
        };
        let forward = match (state, to) {
            (SessionState::Started, SessionState::Started) => false,
            (SessionState::Started, _) => true,
            (SessionState::AwaitingProof, SessionState::Verified) => true,
            (SessionState::AwaitingProof, SessionState::Denied) => true,
            _ => false,
        };
        if !from.contains(state) || !forward {
            return Err(StoreError::StaleSession);
        }
        let ghost iv = invite_view(invite);
        let s = ChatSession { state: to, created_at, last_updated_at: now, issued_invite: invite };
        self.sessions.insert(chat_id, s);
        assert(self@ =~= old(self)@.insert(chat_id, moved(old(self)@[chat_id], to, iv, now)));
        Ok(())
    }

    /// Forgets the session of `chat_id` if it saw no change for `window` time
    /// units up to `now`; returns whether it did.
    pub fn evict_if_idle(&mut self, chat_id: i64, now: u64, window: u64) -> (r: bool)
        requires
            old(self).wf(),
        ensures
            final(self).wf(),
            r == (old(self)@.contains_key(chat_id) && old(self)@[chat_id].last_updated_at as int
                + window as int <= now as int),
            r ==> final(self)@ == old(self)@.remove(chat_id),
            !r ==> final(self)@ == old(self)@,
    {
        let idle = match self.sessions.get(&chat_id) {
            Some(s) => s.last_updated_at as u128 + window as u128 <= now as u128,
            None => false,
        };
        if idle {
            self.sessions.remove(&chat_id);
            assert(self@ =~= old(self)@.remove(chat_id));
        }
        idle
    }
}

} // verus!
