use kinogate::config::{parse_address, ConfigError, GateConfig, Initialize};
use kinogate::gate::{
    is_start_command, CommandAction, DenyReason, Gate, GateError, GateOutcome, GateStep,
    InviteRequest, IssueFailure,
};
use kinogate::oracle::{balance_of_calldata, judge_balance, meets_threshold, BalanceVerdict, OracleFailure};
use kinogate::request::parse_chat_id;
use kinogate::session::{SessionState, SessionStore, StateSet, StoreError};
use kinogate::signature::{recover, VerifyError};

// A signature of "Some data" by 0x2c7536E3605D9C16a7a3D7b1898e529396a65c23.
const SIG: &str = "b91467e570a6466aa9e9876cbcd013baba02900b8979d43fe208a4a4f339f5fd6007e74cd82e037b800186422fc2da167c747ef045e5d18a5f5d4300f8e1a0291c";
const SIGNER: [u8; 20] = [
    0x2c, 0x75, 0x36, 0xe3, 0x60, 0x5d, 0x9c, 0x16, 0xa7, 0xa3, 0xd7, 0xb1, 0x89, 0x8e, 0x52, 0x93,
    0x96, 0xa6, 0x5c, 0x23,
];
const CONTRACT: &str = "0x00000000000000000000000000000000000000aa";
const PRIVATE_CHAT: i64 = -1001;

fn word(v: u64) -> Vec<u8> {
    let mut w = vec![0u8; 24];
    w.extend_from_slice(&v.to_be_bytes());
    w
}

fn init(min_amount: u64) -> Initialize {
    Initialize {
        tg_token: "token".to_string(),
        chain: 1,
        contract: CONTRACT.to_string(),
        min_amount,
        priv_chat_id: PRIVATE_CHAT,
        url: "https://gate.example".to_string(),
    }
}

fn gate(min_amount: u64) -> Gate {
    Gate::new(GateConfig::new(init(min_amount), b"Some data".to_vec()).unwrap())
}

/// Starts judging a submission for `chat`.
fn submit(g: &mut Gate, chat: i64, sig: &str, now: u64) -> GateStep {
    g.begin_submission(chat, sig, now)
}

#[test]
fn recover_known_signer() {
    assert_eq!(recover(b"Some data", SIG), Ok(SIGNER));
}

#[test]
fn recover_ignores_case_and_prefix() {
    let upper = SIG.to_uppercase();
    let prefixed = format!("0x{}", SIG);
    assert_eq!(recover(b"Some data", &upper), Ok(SIGNER));
    assert_eq!(recover(b"Some data", &prefixed), Ok(SIGNER));
}

#[test]
fn recover_rejects_malformed_text() {
    assert_eq!(recover(b"Some data", "not a signature"), Err(VerifyError::MalformedSignature));
    assert_eq!(recover(b"Some data", &SIG[..64]), Err(VerifyError::MalformedSignature));
}

#[test]
fn recover_fails_on_zero_signature() {
    let zero = format!("{}1b", "00".repeat(64));
    assert_eq!(recover(b"Some data", &zero), Err(VerifyError::RecoveryFailed));
}

#[test]
fn recover_other_challenge_gives_other_address() {
    let r = recover(b"hello", SIG);
    assert_ne!(r, Ok(SIGNER));
}

#[test]
fn calldata_of_balance_of() {
    let d = balance_of_calldata(&SIGNER);
    assert_eq!(d.len(), 36);
    assert_eq!(&d[..4], &[0x70, 0xa0, 0x82, 0x31]);
    assert!(d[4..16].iter().all(|b| *b == 0));
    assert_eq!(&d[16..], &SIGNER);
}

#[test]
fn threshold_is_inclusive() {
    let mut w = [0u8; 32];
    w[31] = 100;
    assert!(meets_threshold(&w, 100));
    w[31] = 99;
    assert!(!meets_threshold(&w, 100));
    let mut big = [0u8; 32];
    big[0] = 1;
    assert!(meets_threshold(&big, u64::MAX));
}

#[test]
fn judge_balance_verdicts() {
    assert_eq!(judge_balance(&Ok(word(150)), 100), BalanceVerdict::Qualifies);
    assert_eq!(judge_balance(&Ok(word(100)), 100), BalanceVerdict::Qualifies);
    assert_eq!(judge_balance(&Ok(word(99)), 100), BalanceVerdict::Insufficient);
    assert_eq!(judge_balance(&Ok(vec![1, 2, 3]), 100), BalanceVerdict::Undecodable);
    assert_eq!(judge_balance(&Err(OracleFailure::Timeout), 100), BalanceVerdict::Unavailable);
    assert_eq!(judge_balance(&Err(OracleFailure::RpcUnavailable), 100), BalanceVerdict::Unavailable);
}

#[test]
fn parse_contract_address() {
    let a = parse_address("0x2c7536E3605D9C16a7a3D7b1898e529396a65c23");
    assert_eq!(a, Some(SIGNER));
    assert_eq!(parse_address("2c7536e3605d9c16a7a3d7b1898e529396a65c23"), Some(SIGNER));
    assert_eq!(parse_address("0x2c75"), None);
    assert_eq!(parse_address("0xzz7536e3605d9c16a7a3d7b1898e529396a65c23"), None);
}

#[test]
fn config_errors() {
    let mut i = init(1);
    i.tg_token = String::new();
    assert_eq!(GateConfig::new(i, b"c".to_vec()).err(), Some(ConfigError::EmptyBotToken));
    let mut i = init(1);
    i.contract = "nope".to_string();
    assert_eq!(GateConfig::new(i, b"c".to_vec()).err(), Some(ConfigError::MalformedContract));
    let mut i = init(1);
    i.url = String::new();
    assert_eq!(GateConfig::new(i, b"c".to_vec()).err(), Some(ConfigError::EmptyBaseUrl));
    assert_eq!(GateConfig::new(init(1), Vec::new()).err(), Some(ConfigError::EmptyChallenge));
    let c = GateConfig::new(init(7), b"c".to_vec()).unwrap();
    assert_eq!(c.contract[19], 0xaa);
    assert_eq!(c.min_amount, 7);
}

#[test]
fn session_store_transitions() {
    let mut s = SessionStore::new();
    let open = StateSet::open_states();
    assert_eq!(
        s.transition(5, open, SessionState::Denied, None, 1),
        Err(StoreError::SessionNotFound)
    );
    assert_eq!(s.ensure(5, 1), SessionState::Started);
    assert_eq!(s.transition(5, open, SessionState::Started, None, 2), Err(StoreError::StaleSession));
    assert_eq!(s.transition(5, open, SessionState::AwaitingProof, None, 2), Ok(()));
    assert_eq!(
        s.transition(5, open, SessionState::Verified, Some("t".to_string()), 3),
        Ok(())
    );
    assert_eq!(s.invite_of(5), Some("t".to_string()));
    assert_eq!(s.transition(5, open, SessionState::Denied, None, 4), Err(StoreError::StaleSession));
    let all = StateSet { started: true, awaiting_proof: true, verified: true, denied: true };
    assert_eq!(s.transition(5, all, SessionState::Denied, None, 4), Err(StoreError::StaleSession));
    assert_eq!(s.state_of(5), Some(SessionState::Verified));
    assert_eq!(s.ensure(5, 9), SessionState::Verified);
}

#[test]
fn idle_sessions_are_evicted() {
    let mut s = SessionStore::new();
    s.ensure(8, 10);
    assert!(!s.evict_if_idle(8, 14, 5));
    assert!(s.evict_if_idle(8, 15, 5));
    assert_eq!(s.state_of(8), None);
    assert!(!s.evict_if_idle(8, 100, 5));
}

#[test]
fn commands() {
    let mut g = gate(100);
    assert!(is_start_command("/start"));
    assert!(!is_start_command("/stop"));
    assert_eq!(g.on_command(PRIVATE_CHAT, "/start", 1), CommandAction::Ignore);
    assert_eq!(g.on_command(3, "hi", 1), CommandAction::SendUsageHint);
    assert_eq!(g.sessions.state_of(3), None);
    assert_eq!(g.on_command(3, "/start", 1), CommandAction::SendInstructions);
    assert_eq!(g.sessions.state_of(3), Some(SessionState::AwaitingProof));
}

#[test]
fn qualifying_visitor_is_verified_once() {
    let mut g = gate(100);
    g.on_command(42, "/start", 1);
    match submit(&mut g, 42, SIG, 2) {
        GateStep::QueryBalance(q) => {
            assert_eq!(q.owner, SIGNER);
            assert_eq!(q.chain_id, 1);
            assert_eq!(q.calldata, balance_of_calldata(&SIGNER));
        }
        other => panic!("unexpected step {:?}", other),
    }
    match g.on_balance(42, &Ok(word(150)), 3) {
        GateStep::IssueInvite(r) => {
            assert_eq!(r, InviteRequest { chat_id: PRIVATE_CHAT, member_limit: 1 })
        }
        other => panic!("unexpected step {:?}", other),
    }
    match g.on_invite(42, Ok("https://t.me/+one".to_string()), 4) {
        GateOutcome::Verified(t) => assert_eq!(t, "https://t.me/+one"),
        other => panic!("unexpected outcome {:?}", other),
    }
    match submit(&mut g, 42, SIG, 5) {
        GateStep::Finished(GateOutcome::AlreadyVerified(t)) => assert_eq!(t, "https://t.me/+one"),
        other => panic!("unexpected step {:?}", other),
    }
    match submit(&mut g, 42, "garbage", 6) {
        GateStep::Finished(GateOutcome::AlreadyVerified(t)) => assert_eq!(t, "https://t.me/+one"),
        other => panic!("unexpected step {:?}", other),
    }
}

#[test]
fn poor_visitor_is_denied_for_good() {
    let mut g = gate(100);
    assert!(matches!(submit(&mut g, 7, SIG, 1), GateStep::QueryBalance(_)));
    match g.on_balance(7, &Ok(word(40)), 2) {
        GateStep::Finished(GateOutcome::Denied(d)) => {
            assert_eq!(d, DenyReason::InsufficientBalance);
            assert_eq!(d.text(), "insufficient balance");
        }
        other => panic!("unexpected step {:?}", other),
    }
    assert_eq!(g.sessions.state_of(7), Some(SessionState::Denied));
    match submit(&mut g, 7, SIG, 3) {
        GateStep::Finished(GateOutcome::Denied(d)) => assert_eq!(d, DenyReason::AlreadyDenied),
        other => panic!("unexpected step {:?}", other),
    }
}

#[test]
fn balance_at_threshold_qualifies() {
    let mut g = gate(100);
    submit(&mut g, 1, SIG, 1);
    assert!(matches!(g.on_balance(1, &Ok(word(100)), 2), GateStep::IssueInvite(_)));
    let mut g = gate(100);
    submit(&mut g, 1, SIG, 1);
    assert!(matches!(
        g.on_balance(1, &Ok(word(99)), 2),
        GateStep::Finished(GateOutcome::Denied(DenyReason::InsufficientBalance))
    ));
}

#[test]
fn invalid_signature_denies() {
    let mut g = gate(100);
    match submit(&mut g, 9, "xyz", 1) {
        GateStep::Finished(GateOutcome::Denied(d)) => {
            assert_eq!(d, DenyReason::InvalidSignature);
            assert_eq!(d.text(), "invalid signature");
        }
        other => panic!("unexpected step {:?}", other),
    }
    assert_eq!(g.sessions.state_of(9), Some(SessionState::Denied));
    match submit(&mut g, 9, SIG, 2) {
        GateStep::Finished(GateOutcome::Denied(d)) => assert_eq!(d.text(), "already denied"),
        other => panic!("unexpected step {:?}", other),
    }
}

#[test]
fn oracle_outage_can_be_retried() {
    let mut g = gate(100);
    submit(&mut g, 4, SIG, 1);
    assert!(matches!(
        g.on_balance(4, &Err(OracleFailure::RpcUnavailable), 2),
        GateStep::Finished(GateOutcome::Error(GateError::OracleUnavailable))
    ));
    assert_eq!(g.sessions.state_of(4), Some(SessionState::Started));
    assert!(matches!(submit(&mut g, 4, SIG, 3), GateStep::QueryBalance(_)));
    assert!(matches!(g.on_balance(4, &Ok(word(500)), 4), GateStep::IssueInvite(_)));
    assert!(matches!(g.on_invite(4, Ok("link".to_string()), 5), GateOutcome::Verified(_)));
}

#[test]
fn undecodable_answer_is_an_operator_error() {
    let mut g = gate(100);
    submit(&mut g, 4, SIG, 1);
    assert!(matches!(
        g.on_balance(4, &Ok(vec![0u8; 3]), 2),
        GateStep::Finished(GateOutcome::Error(GateError::OracleMisconfigured))
    ));
    assert_eq!(g.sessions.state_of(4), Some(SessionState::Started));
}

#[test]
fn issuance_failure_leaves_session_open() {
    let mut g = gate(100);
    submit(&mut g, 4, SIG, 1);
    g.on_balance(4, &Ok(word(100)), 2);
    assert!(matches!(
        g.on_invite(4, Err(IssueFailure::PlatformUnavailable), 3),
        GateOutcome::Error(GateError::IssuanceFailed)
    ));
    assert!(matches!(
        g.on_invite(4, Err(IssueFailure::PlatformRejected), 3),
        GateOutcome::Error(GateError::IssuanceFailed)
    ));
    assert_eq!(g.sessions.state_of(4), Some(SessionState::Started));
    assert!(matches!(g.on_invite(4, Ok("second".to_string()), 4), GateOutcome::Verified(_)));
    // A duplicate answer arriving later does not replace the stored invite.
    match g.on_invite(4, Ok("third".to_string()), 5) {
        GateOutcome::AlreadyVerified(t) => assert_eq!(t, "second"),
        other => panic!("unexpected outcome {:?}", other),
    }
}

#[test]
fn unknown_session_after_eviction() {
    let mut g = gate(100);
    submit(&mut g, 4, SIG, 1);
    assert!(g.sessions.evict_if_idle(4, 10, 5));
    assert!(matches!(
        g.on_balance(4, &Ok(word(100)), 11),
        GateStep::Finished(GateOutcome::Error(GateError::SessionNotFound))
    ));
}

#[test]
fn chat_ids_from_text() {
    assert_eq!(parse_chat_id("42"), Some(42));
    assert_eq!(parse_chat_id("-1001234567890"), Some(-1001234567890));
    assert_eq!(parse_chat_id("0"), Some(0));
    assert_eq!(parse_chat_id("9223372036854775807"), Some(i64::MAX));
    assert_eq!(parse_chat_id("-9223372036854775808"), Some(i64::MIN));
    assert_eq!(parse_chat_id("9223372036854775808"), None);
    assert_eq!(parse_chat_id("-9223372036854775809"), None);
    assert_eq!(parse_chat_id("99999999999999999999999"), None);
    assert_eq!(parse_chat_id(""), None);
    assert_eq!(parse_chat_id("-"), None);
    assert_eq!(parse_chat_id("12a"), None);
    assert_eq!(parse_chat_id("+5"), None);
}
