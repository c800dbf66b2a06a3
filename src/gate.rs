//! The decision engine. A proof submission is judged in steps: the engine
//! decides, the host performs the outside work that a step asks for (the
//! balance call, the invite request) and hands its result back.
use crate::config::GateConfig;
use crate::oracle::{
    answer_view, balance_of_call, balance_of_calldata, judge_balance, verdict_of, BalanceVerdict,
    OracleFailure,
};
use crate::session::{
    is_terminal, open_state_set, transition_result, SessionState, SessionStore, SessionView, StateSet,
};
use crate::signature::{recover, recovered, VerifyError};
use vstd::prelude::*;
use vstd::utf8::encode_utf8;

verus! {

/// Why a submission was denied.
#[derive(Clone, Copy, Debug, PartialEq, Eq, Structural)]
pub enum DenyReason {
    /// The session was denied before; it gets no second check.
    AlreadyDenied,
    /// The signature is malformed or yields no address.
    InvalidSignature,
    /// The balance lies below the threshold.
    InsufficientBalance,
}

pub open spec fn deny_text(d: DenyReason) -> Seq<char> {
    match d {
        DenyReason::AlreadyDenied => "already denied"@,
        DenyReason::InvalidSignature => "invalid signature"@,
        DenyReason::InsufficientBalance => "insufficient balance"@,
    }
}

impl DenyReason {
    /// The reason as shown to the visitor.
    pub fn text(&self) -> (r: &'static str)
        ensures
            r@ == deny_text(*self),
    {
        match self {
            DenyReason::AlreadyDenied => "already denied",
            DenyReason::InvalidSignature => "invalid signature",
            DenyReason::InsufficientBalance => "insufficient balance",
        }
    }
}

/// A failure that is not the visitor's doing.
#[derive(Clone, Copy, Debug, PartialEq, Eq, Structural)]
pub enum GateError {
    /// The oracle could not be reached in time; the visitor may retry.
    OracleUnavailable,
    /// The oracle's answer is not a balance: the contract or chain is misconfigured.
    OracleMisconfigured,
    /// The chat platform gave no invite; the visitor may retry.
    IssuanceFailed,
    /// The chat has no session.
    SessionNotFound,
}

/// The answer to a proof submission.
#[derive(Debug)]
pub enum GateOutcome {
    AlreadyVerified(String),
    Denied(DenyReason),
    Verified(String),
    Error(GateError),
}

pub enum OutcomeView {
    AlreadyVerified(Seq<char>),
    Denied(DenyReason),
    Verified(Seq<char>),
    Error(GateError),
}

impl View for GateOutcome {
    type V = OutcomeView;

    open spec fn view(&self) -> OutcomeView {
        match self {
            GateOutcome::AlreadyVerified(t) => OutcomeView::AlreadyVerified(t@),
            GateOutcome::Denied(d) => OutcomeView::Denied(*d),
            GateOutcome::Verified(t) => OutcomeView::Verified(t@),
            GateOutcome::Error(e) => OutcomeView::Error(*e),
        }
    }
}

/// The read-only contract call the host is to make.
#[derive(Debug)]
pub struct BalanceQuery {
    pub chain_id: u64,
    pub contract: [u8; 20],
    pub owner: [u8; 20],
    pub calldata: Vec<u8>,
}

/// The invite the host is to request from the chat platform.
#[derive(Clone, Copy, Debug, PartialEq, Eq, Structural)]
pub struct InviteRequest {
    pub chat_id: i64,
    pub member_limit: u32,
}

/// What the engine asks of the host next.
#[derive(Debug)]
pub enum GateStep {
    /// The submission is decided.
    Finished(GateOutcome),
    /// Query the balance of the recovered address, then call `on_balance`.
    QueryBalance(BalanceQuery),
    /// Request a single-use invite, then call `on_invite`.
    IssueInvite(InviteRequest),
}

pub enum StepView {
    Finished(OutcomeView),
    QueryBalance(Seq<u8>),
    IssueInvite(InviteRequest),
}

impl View for GateStep {
    type V = StepView;

    open spec fn view(&self) -> StepView {
        match self {
            GateStep::Finished(o) => StepView::Finished(o@),
            GateStep::QueryBalance(q) => StepView::QueryBalance(q.owner@),
            GateStep::IssueInvite(r) => StepView::IssueInvite(*r),
        }
    }
}

/// Why the chat platform gave no invite.
#[derive(Clone, Copy, Debug, PartialEq, Eq, Structural)]
pub enum IssueFailure {
    PlatformUnavailable,
    PlatformRejected,
}

/// What a session that is no longer open answers to any submission.
pub open spec fn replay(m: Map<i64, SessionView>, chat_id: i64) -> OutcomeView {
    if !m.contains_key(chat_id) {
        OutcomeView::Error(GateError::SessionNotFound)
    } else if m[chat_id].state == SessionState::Verified {
        OutcomeView::AlreadyVerified(m[chat_id].invite->0)
    } else {
        OutcomeView::Denied(DenyReason::AlreadyDenied)
    }
}

/// The sessions after `chat_id` is made sure to have one.
pub open spec fn ensured(m: Map<i64, SessionView>, chat_id: i64, now: u64) -> Map<i64, SessionView> {
    if m.contains_key(chat_id) {
        m
    } else {
        m.insert(chat_id, crate::session::fresh_session(now))
    }
}

/// The first step of a submission, given what recovering the signature gave.
pub open spec fn begin_model(
    m: Map<i64, SessionView>,
    chat_id: i64,
    rec: Result<Seq<u8>, VerifyError>,
    now: u64,
) -> (Map<i64, SessionView>, StepView) {
    let m1 = ensured(m, chat_id, now);
    if is_terminal(m1[chat_id].state) {
        (m1, StepView::Finished(replay(m1, chat_id)))
    } else {
        match rec {
            Err(_) => (
                transition_result(m1, chat_id, open_state_set(), SessionState::Denied, None, now).0,
                StepView::Finished(OutcomeView::Denied(DenyReason::InvalidSignature)),
            ),
            Ok(a) => (m1, StepView::QueryBalance(a)),
        }
    }
}

/// The step after the oracle answered, given the verdict on its answer.
pub open spec fn balance_model(
    m: Map<i64, SessionView>,
    chat_id: i64,
    verdict: BalanceVerdict,
    private_chat_id: i64,
    now: u64,
) -> (Map<i64, SessionView>, StepView) {
    if !m.contains_key(chat_id) || is_terminal(m[chat_id].state) {
        (m, StepView::Finished(replay(m, chat_id)))
    } else {
        match verdict {
            BalanceVerdict::Unavailable => (
                m,
                StepView::Finished(OutcomeView::Error(GateError::OracleUnavailable)),
            ),
            BalanceVerdict::Undecodable => (
                m,
                StepView::Finished(OutcomeView::Error(GateError::OracleMisconfigured)),
            ),
            BalanceVerdict::Insufficient => (
                transition_result(m, chat_id, open_state_set(), SessionState::Denied, None, now).0,
                StepView::Finished(OutcomeView::Denied(DenyReason::InsufficientBalance)),
            ),
            BalanceVerdict::Qualifies => (
                m,
                StepView::IssueInvite(InviteRequest { chat_id: private_chat_id, member_limit: 1 }),
            ),
        }
    }
}

/// The outcome after the chat platform answered the invite request.
pub open spec fn invite_model(
    m: Map<i64, SessionView>,
    chat_id: i64,
    issued: Result<Seq<char>, IssueFailure>,
    now: u64,
) -> (Map<i64, SessionView>, OutcomeView) {
    if !m.contains_key(chat_id) || is_terminal(m[chat_id].state) {
        (m, replay(m, chat_id))
    } else {
        match issued {
            Err(_) => (m, OutcomeView::Error(GateError::IssuanceFailed)),
            Ok(t) => (
                transition_result(m, chat_id, open_state_set(), SessionState::Verified, Some(t), now).0,
                OutcomeView::Verified(t),
            ),
        }
    }
}

pub open spec fn issued_view(issued: &Result<String, IssueFailure>) -> Result<Seq<char>, IssueFailure> {
    match issued {
        Ok(t) => Ok(t@),
        Err(e) => Err(*e),
    }
}

/// The access controller: its configuration and the sessions of all chats.
pub struct Gate {
    pub config: GateConfig,
    pub sessions: SessionStore,
}

impl Gate {
    pub open spec fn wf(&self) -> bool {
        self.sessions.wf()
    }

    pub fn new(config: GateConfig) -> (r: Gate)
        ensures
            r.wf(),
            r.config == config,
            r.sessions@ == Map::<i64, SessionView>::empty(),
    {
        Gate { config, sessions: SessionStore::new() }
    }

    /// What a session that is no longer open answers.
    fn replay_outcome(&self, chat_id: i64) -> (r: GateOutcome)
        requires
            self.wf(),
            self.sessions@.contains_key(chat_id) ==> is_terminal(self.sessions@[chat_id].state),
        ensures
            r@ == replay(self.sessions@, chat_id),
    {
        match self.sessions.state_of(chat_id) {
            None => GateOutcome::Error(GateError::SessionNotFound),
            Some(SessionState::Verified) => {
                match self.sessions.invite_of(chat_id) {
                    Some(t) => GateOutcome::AlreadyVerified(t),
                    None => GateOutcome::Error(GateError::SessionNotFound),
                }
            },
            Some(_) => GateOutcome::Denied(DenyReason::AlreadyDenied),
        }
    }

    /// Starts judging a proof: `signature` is checked against the configured
    /// challenge. A verified or denied session is answered from the store.
    pub fn begin_submission(&mut self, chat_id: i64, signature: &str, now: u64) -> (r: GateStep)
        requires
            old(self).wf(),
        ensures
            final(self).wf(),
            final(self).config == old(self).config,
            (final(self).sessions@, r@) == begin_model(
                old(self).sessions@,
                chat_id,
                recovered(old(self).config.challenge@, signature@),
                now,
            ),
            r matches GateStep::QueryBalance(q) ==> q.chain_id == old(self).config.chain_id
                && q.contract == old(self).config.contract && q.calldata@ == balance_of_call(
                q.owner@,
            ),
    {
        let state = self.sessions.ensure(chat_id, now);
        if state == SessionState::Verified || state == SessionState::Denied {
            return GateStep::Finished(self.replay_outcome(chat_id));
        }
        match recover(self.config.challenge.as_slice(), signature) {
            Err(_) => {
                let _ = self.sessions.transition(
                    chat_id,
                    StateSet::open_states(),
                    SessionState::Denied,
                    None,
                    now,
                );
                GateStep::Finished(GateOutcome::Denied(DenyReason::InvalidSignature))
            },
            Ok(owner) => {
                let calldata = balance_of_calldata(&owner);
                GateStep::QueryBalance(
                    BalanceQuery {
                        chain_id: self.config.chain_id,
                        contract: self.config.contract,
                        owner,
                        calldata,
                    },
                )
            },
        }
    }

    /// Continues with the oracle's answer to the balance query of `chat_id`.
    /// An unreachable oracle leaves the session open for a retry.
    pub fn on_balance(&mut self, chat_id: i64, answer: &Result<Vec<u8>, OracleFailure>, now: u64) -> (r: GateStep)
        requires
            old(self).wf(),
        ensures
            final(self).wf(),
            final(self).config == old(self).config,
            (final(self).sessions@, r@) == balance_model(
                old(self).sessions@,
                chat_id,
                verdict_of(answer_view(answer), old(self).config.min_amount),
                old(self).config.private_chat_id,
                now,
            ),
    {
        match self.sessions.state_of(chat_id) {
            Some(SessionState::Started) | Some(SessionState::AwaitingProof) => {},
            _ => {
                return GateStep::Finished(self.replay_outcome(chat_id));
            },
        }
        match judge_balance(answer, self.config.min_amount) {
            BalanceVerdict::Unavailable => GateStep::Finished(GateOutcome::Error(GateError::OracleUnavailable)),
            BalanceVerdict::Undecodable => GateStep::Finished(GateOutcome::Error(GateError::OracleMisconfigured)),
            BalanceVerdict::Insufficient => {
                let _ = self.sessions.transition(
                    chat_id,
                    StateSet::open_states(),
                    SessionState::Denied,
                    None,
                    now,
                );
                GateStep::Finished(GateOutcome::Denied(DenyReason::InsufficientBalance))
            },
            BalanceVerdict::Qualifies => GateStep::IssueInvite(
                InviteRequest { chat_id: self.config.private_chat_id, member_limit: 1 },
            ),
        }
    }

    /// Ends a qualifying submission with the chat platform's answer to the
    /// invite request: a new invite is stored and the session verified.
    pub fn on_invite(&mut self, chat_id: i64, issued: Result<String, IssueFailure>, now: u64) -> (r: GateOutcome)
        requires
            old(self).wf(),
        ensures
            final(self).wf(),
            final(self).config == old(self).config,
            (final(self).sessions@, r@) == invite_model(old(self).sessions@, chat_id, issued_view(&issued), now),
    {
        match self.sessions.state_of(chat_id) {
            Some(SessionState::Started) | Some(SessionState::AwaitingProof) => {},
            _ => {
                return self.replay_outcome(chat_id);
            },
        }
        match issued {
            Err(_) => GateOutcome::Error(GateError::IssuanceFailed),
            Ok(t) => {
                let stored = t.clone();
                let _ = self.sessions.transition(
                    chat_id,
                    StateSet::open_states(),
                    SessionState::Verified,
                    Some(stored),
                    now,
                );
                GateOutcome::Verified(t)
            },
        }
    }
}

/// The bytes of the command that starts a gating attempt: `/start`.
pub open spec fn start_command() -> Seq<u8> {
    seq![0x2fu8, 0x73u8, 0x74u8, 0x61u8, 0x72u8, 0x74u8]
}

/// Whether a chat message is the start command.
pub fn is_start_command(text: &str) -> (r: bool)
    ensures
        r == (encode_utf8(text@) == start_command()),
{
    let b = text.as_bytes();
    let cmd: [u8; 6] = [0x2fu8, 0x73u8, 0x74u8, 0x61u8, 0x72u8, 0x74u8];
    assert(cmd@ =~= start_command());
    if b.len() != 6 {
        return false;
    }
    let mut i: usize = 0;
    while i < 6
        invariant
            i <= 6,
            b@.len() == 6,
            b@ == encode_utf8(text@),
            cmd@ == start_command(),
            forall|j: int| 0 <= j < i ==> b@[j] == cmd@[j],
        decreases 6 - i,
    {
        if b[i] != cmd[i] {
            return false;
        }
        i = i + 1;
    }
    assert(b@ =~= cmd@);
    true
}

/// What the host is to reply to a chat message.
#[derive(Clone, Copy, Debug, PartialEq, Eq, Structural)]
pub enum CommandAction {
    /// Say nothing: the message comes from the gated chat itself.
    Ignore,
    /// Explain the requirement and hand out the proof-submission link.
    SendInstructions,
    /// Tell the visitor how to begin.
    SendUsageHint,
}

/// What a chat message does to the sessions, and the reply it asks for.
pub open spec fn command_model(
    m: Map<i64, SessionView>,
    chat_id: i64,
    text: Seq<u8>,
    private_chat_id: i64,
    now: u64,
) -> (Map<i64, SessionView>, CommandAction) {
    if chat_id == private_chat_id {
        (m, CommandAction::Ignore)
    } else if text != start_command() {
        (m, CommandAction::SendUsageHint)
    } else {
        let m1 = ensured(m, chat_id, now);
        let awaiting = StateSet { started: true, awaiting_proof: false, verified: false, denied: false };
        (
            transition_result(m1, chat_id, awaiting, SessionState::AwaitingProof, None, now).0,
            CommandAction::SendInstructions,
        )
    }
}

impl Gate {
    /// Handles a chat message: the start command opens a session for the chat
    /// and moves it to `AwaitingProof` as the link is handed out.
    pub fn on_command(&mut self, chat_id: i64, text: &str, now: u64) -> (r: CommandAction)
        requires
            old(self).wf(),
        ensures
            final(self).wf(),
            final(self).config == old(self).config,
            (final(self).sessions@, r) == command_model(
                old(self).sessions@,
                chat_id,
                encode_utf8(text@),
                old(self).config.private_chat_id,
                now,
            ),
    {
        if chat_id == self.config.private_chat_id {
            return CommandAction::Ignore;
        }
        if !is_start_command(text) {
            return CommandAction::SendUsageHint;
        }
        let _ = self.sessions.ensure(chat_id, now);
        let awaiting = StateSet { started: true, awaiting_proof: false, verified: false, denied: false };
        let _ = self.sessions.transition(chat_id, awaiting, SessionState::AwaitingProof, None, now);
        CommandAction::SendInstructions
    }
}

/// A verified session answers every later submission with the invite it
/// stored, whatever the signature, and no further invite is requested.
pub proof fn lemma_verified_session_replays(
    m: Map<i64, SessionView>,
    chat_id: i64,
    rec: Result<Seq<u8>, VerifyError>,
    now: u64,
)
    requires
        m.contains_key(chat_id),
        m[chat_id].state == SessionState::Verified,
    ensures
        begin_model(m, chat_id, rec, now) == (
            m,
            StepView::Finished(OutcomeView::AlreadyVerified(m[chat_id].invite->0)),
        ),
{
}

/// Issuing is idempotent: once an invite `t` ends a submission with
/// `Verified(t)`, the next submission for the chat, with any signature, gets
/// `AlreadyVerified(t)` and the store is left as it was.
pub proof fn lemma_issue_then_replay(
    m: Map<i64, SessionView>,
    chat_id: i64,
    t: Seq<char>,
    now: u64,
    rec: Result<Seq<u8>, VerifyError>,
    later: u64,
)
    requires
        m.contains_key(chat_id),
        !is_terminal(m[chat_id].state),
    ensures
        ({
            let (m2, o) = invite_model(m, chat_id, Ok(t), now);
            o == OutcomeView::Verified(t) && m2[chat_id].invite == Some(t) && begin_model(
                m2,
                chat_id,
                rec,
                later,
            ) == (m2, StepView::Finished(OutcomeView::AlreadyVerified(t)))
        }),
{
    let (m2, o) = invite_model(m, chat_id, Ok(t), now);
    lemma_verified_session_replays(m2, chat_id, rec, later);
}

/// A denied session stays denied: any later submission is answered
/// `Denied` without a balance query, and the store is left as it was.
pub proof fn lemma_denied_session_stays_denied(
    m: Map<i64, SessionView>,
    chat_id: i64,
    rec: Result<Seq<u8>, VerifyError>,
    now: u64,
)
    requires
        m.contains_key(chat_id),
        m[chat_id].state == SessionState::Denied,
    ensures
        begin_model(m, chat_id, rec, now) == (
            m,
            StepView::Finished(OutcomeView::Denied(DenyReason::AlreadyDenied)),
        ),
{
}

/// The threshold is inclusive: a balance equal to the minimum qualifies, one
/// below it does not.
pub proof fn lemma_threshold_boundary(data: Seq<u8>, min_amount: u64)
    requires
        crate::oracle::abi_uint_word(data) is Some,
    ensures
        crate::oracle::be_value(crate::oracle::abi_uint_word(data)->0) == min_amount ==> verdict_of(
            Ok(data),
            min_amount,
        ) == BalanceVerdict::Qualifies,
        crate::oracle::be_value(crate::oracle::abi_uint_word(data)->0) + 1 == min_amount
            ==> verdict_of(Ok(data), min_amount) == BalanceVerdict::Insufficient,
{
}

/// An unreachable oracle leaves the session as it was, open; a retry with the
/// same signature queries the balance again, and once the oracle answers with
/// a qualifying balance an invite is requested and can verify the session.
pub proof fn lemma_outage_is_retryable(
    m: Map<i64, SessionView>,
    chat_id: i64,
    failure: OracleFailure,
    owner: Seq<u8>,
    data: Seq<u8>,
    min_amount: u64,
    private_chat_id: i64,
    t: Seq<char>,
    now: u64,
)
    requires
        m.contains_key(chat_id),
        !is_terminal(m[chat_id].state),
        verdict_of(Ok(data), min_amount) == BalanceVerdict::Qualifies,
    ensures
        ({
            let (m1, s1) = balance_model(
                m,
                chat_id,
                verdict_of(Err(failure), min_amount),
                private_chat_id,
                now,
            );
            let (m2, s2) = begin_model(m1, chat_id, Ok(owner), now);
            let (m3, s3) = balance_model(
                m2,
                chat_id,
                verdict_of(Ok(data), min_amount),
                private_chat_id,
                now,
            );
            let (m4, o4) = invite_model(m3, chat_id, Ok(t), now);
            &&& m1 == m && s1 == StepView::Finished(OutcomeView::Error(GateError::OracleUnavailable))
            &&& !is_terminal(m1[chat_id].state)
            &&& m2 == m && s2 == StepView::QueryBalance(owner)
            &&& m3 == m && s3 == StepView::IssueInvite(
                InviteRequest { chat_id: private_chat_id, member_limit: 1 },
            )
            &&& o4 == OutcomeView::Verified(t) && m4[chat_id].state == SessionState::Verified
        }),
{
}

} // verus!
