use alpine_protocol::crypto::SessionKeys;
use alpine_protocol::handshake::{HandshakeError, HandshakeOutcome};
use alpine_protocol::messages::{CapabilitySet, DeviceIdentity, SessionEstablished};
use alpine_protocol::session::state::{SessionState, SessionStateError};
use alpine_protocol::session::{
    state_error_to_handshake_error, AlnpRole, AlnpSession, JitterStrategy,
    DEFAULT_SESSION_TIMEOUT_MS,
};
use alpine_protocol::session_id::SessionId;

fn session_identity() -> DeviceIdentity {
    DeviceIdentity {
        device_id: "dev-1".to_string(),
        manufacturer_id: "acme".to_string(),
        model_id: "par".to_string(),
        hardware_rev: "a".to_string(),
        firmware_rev: "1.0.0".to_string(),
    }
}

fn session_outcome() -> HandshakeOutcome {
    HandshakeOutcome {
        established: SessionEstablished {
            session_id: SessionId { high: 1, low: 2 },
            controller_nonce: vec![1; 32],
            device_nonce: vec![2; 32],
            capabilities: CapabilitySet::default(),
            device_identity: session_identity(),
        },
        keys: SessionKeys { shared_secret: vec![3; 32], control_key: [4; 32], stream_key: [5; 32] },
    }
}

fn session_ready_at(now: u64) -> AlnpSession {
    let mut session = AlnpSession::new(AlnpRole::Controller, now);
    session.begin_handshake().unwrap();
    session.complete_handshake(session_outcome(), now).unwrap();
    session
}

fn session_all_states() -> Vec<SessionState> {
    vec![
        SessionState::Init,
        SessionState::Handshake,
        SessionState::Authenticated { since: 1 },
        SessionState::Ready { since: 2 },
        SessionState::Streaming { since: 3 },
        SessionState::Failed("boom".to_string()),
        SessionState::Closed,
    ]
}

#[test]
fn only_chain_steps_and_terminal_moves_are_permitted() {
    let states = session_all_states();
    for (i, from) in states.iter().enumerate() {
        for (j, to) in states.iter().enumerate() {
            let expected = j == 6 || (i < 5 && (j == 5 || j == i + 1));
            assert_eq!(from.can_transition(to), expected, "{:?} -> {:?}", from, to);
        }
    }
}

#[test]
fn transition_returns_the_next_state_or_says_what_was_refused() {
    let next = SessionState::Init.transition(SessionState::Handshake).unwrap();
    assert_eq!(next, SessionState::Handshake);
    let failed = SessionState::Ready { since: 5 }
        .transition(SessionState::Failed("lost".to_string()))
        .unwrap();
    assert_eq!(failed, SessionState::Failed("lost".to_string()));

    let refused = SessionState::Init.transition(SessionState::Ready { since: 9 }).unwrap_err();
    let SessionStateError::InvalidTransition(detail) = &refused;
    assert_eq!(detail, "cannot transition from Init to Ready");
    assert_eq!(refused.message(), "invalid state transition: cannot transition from Init to Ready");

    let resurrect = SessionState::Closed.transition(SessionState::Init).unwrap_err();
    assert_eq!(resurrect.message(), "invalid state transition: cannot transition from Closed to Init");
    assert!(SessionState::Failed("x".to_string()).transition(SessionState::Handshake).is_err());
    let after_close =
        SessionState::Closed.transition(SessionState::Failed("x".to_string())).unwrap_err();
    assert_eq!(
        after_close.message(),
        "invalid state transition: cannot transition from Closed to Failed"
    );
    assert!(SessionState::Failed("a".to_string())
        .transition(SessionState::Failed("b".to_string()))
        .is_err());
    assert_eq!(
        SessionState::Failed("a".to_string()).transition(SessionState::Closed).unwrap(),
        SessionState::Closed
    );
    assert_eq!(SessionState::Closed.transition(SessionState::Closed).unwrap(), SessionState::Closed);
    assert!(SessionState::Streaming { since: 1 }
        .transition(SessionState::Ready { since: 2 })
        .is_err());
}

#[test]
fn a_walk_through_the_chain_meets_every_state_once() {
    let mut state = SessionState::Init;
    let walk = vec![
        SessionState::Handshake,
        SessionState::Authenticated { since: 10 },
        SessionState::Ready { since: 11 },
        SessionState::Streaming { since: 12 },
        SessionState::Closed,
    ];
    for next in walk {
        state = state.transition(next.clone()).unwrap();
        assert_eq!(state, next);
    }
    assert!(state.is_closed());
    assert!(state.transition(SessionState::Streaming { since: 13 }).is_err());
}

#[test]
fn failed_and_closed_are_told_apart() {
    assert!(SessionState::Failed("x".to_string()).is_failed());
    assert!(!SessionState::Failed("x".to_string()).is_closed());
    assert!(SessionState::Closed.is_closed());
    assert!(!SessionState::Closed.is_failed());
    assert!(!SessionState::Ready { since: 0 }.is_failed());
    assert!(!SessionState::Init.is_closed());
}

#[test]
fn timeout_is_strictly_more_than_the_budget() {
    let ready = SessionState::Ready { since: 1_000 };
    assert!(!ready.check_timeout(500, 1_000));
    assert!(!ready.check_timeout(500, 1_500));
    assert!(ready.check_timeout(500, 1_501));
    assert!(!ready.check_timeout(500, 0));
    assert!(!ready.check_timeout(u64::MAX, u64::MAX));
    assert!(SessionState::Authenticated { since: 0 }.check_timeout(0, 1));
    assert!(SessionState::Streaming { since: 7 }.check_timeout(2, 10));
    assert!(!SessionState::Streaming { since: 7 }.check_timeout(3, 10));
    assert!(!SessionState::Init.check_timeout(0, u64::MAX));
    assert!(!SessionState::Handshake.check_timeout(0, u64::MAX));
    assert!(!SessionState::Failed("x".to_string()).check_timeout(0, u64::MAX));
    assert!(!SessionState::Closed.check_timeout(0, u64::MAX));
}

#[test]
fn state_names() {
    let names: Vec<&str> = session_all_states().iter().map(|s| s.name()).collect();
    assert_eq!(
        names,
        vec!["Init", "Handshake", "Authenticated", "Ready", "Streaming", "Failed", "Closed"]
    );
}

#[test]
fn state_clone_is_equal() {
    for state in session_all_states() {
        assert_eq!(state.clone(), state);
    }
}

#[test]
fn new_session_starts_in_init() {
    let session = AlnpSession::new(AlnpRole::Node, 77);
    assert_eq!(session.role, AlnpRole::Node);
    assert_eq!(session.state(), SessionState::Init);
    assert!(session.streaming_enabled());
    assert_eq!(session.jitter_strategy(), JitterStrategy::HoldLast);
    assert!(session.established().is_none());
    assert!(session.keys().is_none());
    assert_eq!(DEFAULT_SESSION_TIMEOUT_MS, 10_000);
}

#[test]
fn handshake_completion_makes_the_session_ready() {
    let mut session = AlnpSession::new(AlnpRole::Controller, 5);
    session.begin_handshake().unwrap();
    assert_eq!(session.state(), SessionState::Handshake);
    session.complete_handshake(session_outcome(), 9).unwrap();
    assert_eq!(session.state(), SessionState::Ready { since: 9 });
    let established = session.established().unwrap();
    assert_eq!(established, session_outcome().established);
    let keys = session.keys().unwrap();
    assert_eq!(keys.control_key, [4; 32]);
    assert_eq!(keys.stream_key, [5; 32]);
    assert_eq!(keys.shared_secret, vec![3; 32]);
}

#[test]
fn handshake_steps_out_of_order_are_protocol_errors() {
    let mut session = AlnpSession::new(AlnpRole::Controller, 5);
    let early = session.complete_handshake(session_outcome(), 9).unwrap_err();
    assert!(matches!(early, HandshakeError::Protocol(_)));
    assert_eq!(session.state(), SessionState::Init);
    assert!(session.established().is_none());

    session.begin_handshake().unwrap();
    let twice = session.begin_handshake().unwrap_err();
    assert_eq!(
        twice.message(),
        "protocol violation: invalid state transition: cannot transition from Handshake to Handshake"
    );
    assert_eq!(session.state(), SessionState::Handshake);
}

#[test]
fn streaming_needs_a_ready_session() {
    let mut session = AlnpSession::new(AlnpRole::Controller, 0);
    let refused = session.ensure_streaming_ready().unwrap_err();
    assert_eq!(refused.message(), "authentication failed: session not ready; streaming blocked");
    session.begin_handshake().unwrap();
    assert!(session.ensure_streaming_ready().is_err());
    session.complete_handshake(session_outcome(), 1).unwrap();
    assert_eq!(session.ensure_streaming_ready().unwrap(), session_outcome().established);
    session.mark_streaming(2);
    assert_eq!(session.ensure_streaming_ready().unwrap(), session_outcome().established);
    session.fail("cable pulled".to_string());
    let failed = session.ensure_streaming_ready().unwrap_err();
    assert_eq!(failed.message(), "authentication failed: cable pulled");
    session.close();
    let closed = session.ensure_streaming_ready().unwrap_err();
    assert_eq!(closed.message(), "authentication failed: session not ready; streaming blocked");
}

#[test]
fn mark_streaming_moves_only_a_ready_session_and_only_once() {
    let mut session = AlnpSession::new(AlnpRole::Controller, 0);
    session.mark_streaming(5);
    assert_eq!(session.state(), SessionState::Init);
    let mut session = session_ready_at(10);
    session.mark_streaming(20);
    assert_eq!(session.state(), SessionState::Streaming { since: 20 });
    session.mark_streaming(30);
    assert_eq!(session.state(), SessionState::Streaming { since: 20 });
    session.close();
    session.mark_streaming(40);
    assert_eq!(session.state(), SessionState::Closed);
}

#[test]
fn idle_session_fails_with_session_timeout() {
    let mut session = session_ready_at(1_000);
    assert!(session.check_timeouts(11_000).is_ok());
    assert_eq!(session.state(), SessionState::Ready { since: 1_000 });
    let expired = session.check_timeouts(11_001).unwrap_err();
    assert!(matches!(&expired, HandshakeError::Transport(reason) if reason == "session timeout"));
    assert_eq!(session.state(), SessionState::Failed("session timeout".to_string()));
    assert!(session.ensure_streaming_ready().is_err());
    assert!(session.check_timeouts(99_000).is_ok());
}

#[test]
fn session_before_handshake_never_times_out() {
    let mut session = AlnpSession::new(AlnpRole::Node, 0);
    assert!(session.check_timeouts(u64::MAX).is_ok());
    assert_eq!(session.state(), SessionState::Init);
}

#[test]
fn session_switches() {
    let mut session = session_ready_at(0);
    session.set_streaming_enabled(false);
    assert!(!session.streaming_enabled());
    session.set_streaming_enabled(true);
    assert!(session.streaming_enabled());
    session.set_jitter_strategy(JitterStrategy::Lerp);
    assert_eq!(session.jitter_strategy(), JitterStrategy::Lerp);
    session.set_jitter_strategy(JitterStrategy::Drop);
    assert_eq!(session.jitter_strategy(), JitterStrategy::Drop);
    assert_eq!(session.last_keepalive(), 0);
    session.update_keepalive(123);
    assert_eq!(session.last_keepalive(), 123);
    assert_eq!(session.state(), SessionState::Ready { since: 0 });
}

#[test]
fn state_error_becomes_a_protocol_error() {
    let refused = SessionState::Closed.transition(SessionState::Init).unwrap_err();
    let converted = state_error_to_handshake_error(refused);
    assert!(matches!(
        &converted,
        HandshakeError::Protocol(detail)
            if detail == "invalid state transition: cannot transition from Closed to Init"
    ));
}

#[test]
fn closing_a_session_destroys_its_keys() {
    let mut session = session_ready_at(0);
    assert!(session.keys().is_some());
    session.close();
    assert_eq!(session.state(), SessionState::Closed);
    assert!(session.keys().is_none());
    assert!(session.established().is_some());
}

#[test]
fn a_session_that_has_ended_does_not_fail_again() {
    let mut closed = session_ready_at(0);
    closed.close();
    closed.fail("late".to_string());
    assert_eq!(closed.state(), SessionState::Closed);

    let mut failed = session_ready_at(0);
    failed.fail("first".to_string());
    failed.fail("second".to_string());
    assert_eq!(failed.state(), SessionState::Failed("first".to_string()));
    failed.close();
    assert_eq!(failed.state(), SessionState::Closed);
}
