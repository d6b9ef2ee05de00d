//! Sessions: the lifecycle state, the streaming switch and the authenticators.
//!
//! A session owns its state, the flag that admits streaming, and what the
//! handshake established. All instants are milliseconds on the caller's
//! monotonic clock.

use crate::bytes::{concat, ends_with, has_prefix, has_suffix, starts_with, to_array, to_vec};
use crate::crypto::identity::NodeCredentials;
use crate::crypto::primitives::{ed25519_signature, ed25519_verifies};
use crate::crypto::{KeyExchange, KeyExchangeAlgorithm, SessionKeys, X25519KeyExchange};
use crate::handshake::client::ClientHandshake;
use crate::handshake::server::ServerHandshake;
use crate::handshake::{
    in_memory_always_completes, in_memory_completes, ChallengeAuthenticator, Failure,
    HandshakeContext, HandshakeError, HandshakeOutcome, HandshakeParticipant, HandshakeTransport,
};
use crate::session_id::SessionId;
use crate::messages::{
    Capabilities, CapabilitySet, ChannelFormat, DeviceIdentity, SessionEstablished,
};
use crate::session::state::{SessionState, SessionStateError};
use vstd::array::array_as_slice;
use vstd::prelude::*;
use vstd::string::StringExecFns;

pub mod state;

verus! {

/// The side of the protocol that a session plays.
#[derive(Debug, Clone, Copy, PartialEq, Eq, Structural)]
pub enum AlnpRole {
    Controller,
    Node,
}

/// What the streaming engine does with a frame before it goes out.
#[derive(Debug, Clone, Copy, PartialEq, Eq, Structural)]
pub enum JitterStrategy {
    HoldLast,
    Drop,
    Lerp,
}

/// The idle budget of a new session, in milliseconds.
pub const DEFAULT_SESSION_TIMEOUT_MS: u64 = 10_000;

/// The state error as a handshake error: a protocol violation with the
/// state error's text.
pub fn state_error_to_handshake_error(error: SessionStateError) -> (converted: HandshakeError)
    ensures
        converted@ == Failure::Protocol(error.message_spec()),
{
    HandshakeError::Protocol(error.message())
}

/// One session between a controller and a node.
#[derive(Debug)]
pub struct AlnpSession {
    pub role: AlnpRole,
    state: SessionState,
    last_keepalive: u64,
    jitter: JitterStrategy,
    streaming_enabled: bool,
    timeout: u64,
    session_established: Option<SessionEstablished>,
    keys: Option<SessionKeys>,
}

/// Why a session is not ready to stream.
pub open spec fn readiness_refusal(state: SessionState, established: bool) -> Option<Failure> {
    match state {
        SessionState::Ready { .. } | SessionState::Streaming { .. } => if established {
            None
        } else {
            Some(Failure::Authentication("session missing even though state is ready"@))
        },
        SessionState::Failed(reason) => Some(Failure::Authentication(reason@)),
        _ => Some(Failure::Authentication("session not ready; streaming blocked"@)),
    }
}

impl AlnpSession {
    /// The side that the session plays.
    pub closed spec fn role_spec(&self) -> AlnpRole {
        self.role
    }

    /// Where the session stands.
    pub closed spec fn state_spec(&self) -> SessionState {
        self.state
    }

    /// Whether the operating mode lets frames out.
    pub closed spec fn streaming_enabled_spec(&self) -> bool {
        self.streaming_enabled
    }

    /// The jitter strategy in force.
    pub closed spec fn jitter_spec(&self) -> JitterStrategy {
        self.jitter
    }

    /// The instant of the last keepalive.
    pub closed spec fn last_keepalive_spec(&self) -> u64 {
        self.last_keepalive
    }

    /// The idle budget in milliseconds.
    pub closed spec fn timeout_spec(&self) -> u64 {
        self.timeout
    }

    /// What the handshake established, once it has.
    pub closed spec fn established_spec(&self) -> Option<SessionEstablished> {
        self.session_established
    }

    /// The session keys, once the handshake has derived them.
    pub closed spec fn keys_spec(&self) -> Option<SessionKeys> {
        self.keys
    }

    /// Everything but the state is as it was in `before`.
    pub open spec fn same_but_state(&self, before: &AlnpSession) -> bool {
        &&& self.role_spec() == before.role_spec()
        &&& self.streaming_enabled_spec() == before.streaming_enabled_spec()
        &&& self.jitter_spec() == before.jitter_spec()
        &&& self.last_keepalive_spec() == before.last_keepalive_spec()
        &&& self.timeout_spec() == before.timeout_spec()
        &&& self.established_spec() == before.established_spec()
        &&& self.keys_spec() == before.keys_spec()
    }

    /// A session before its handshake: in `Init`, with streaming enabled,
    /// the `HoldLast` strategy and an idle budget of ten seconds.
    pub fn new(role: AlnpRole, now: u64) -> (session: Self)
        ensures
            session.role_spec() == role,
            session.state_spec() is Init,
            session.streaming_enabled_spec(),
            session.jitter_spec() == JitterStrategy::HoldLast,
            session.last_keepalive_spec() == now,
            session.timeout_spec() == DEFAULT_SESSION_TIMEOUT_MS,
            session.established_spec() is None,
            session.keys_spec() is None,
    {
        AlnpSession {
            role,
            state: SessionState::Init,
            last_keepalive: now,
            jitter: JitterStrategy::HoldLast,
            streaming_enabled: true,
            timeout: DEFAULT_SESSION_TIMEOUT_MS,
            session_established: None,
            keys: None,
        }
    }

    /// What the handshake established, if it has completed.
    pub fn established(&self) -> (established: Option<SessionEstablished>)
        ensures
            established is Some == self.established_spec() is Some,
            established matches Some(copy) ==> same_session(copy, self.established_spec()->0),
    {
        match &self.session_established {
            Some(established) => Some(established.clone()),
            None => None,
        }
    }

    /// The session keys, if the handshake has completed.
    pub fn keys(&self) -> (keys: Option<SessionKeys>)
        ensures
            keys is Some == self.keys_spec() is Some,
            keys matches Some(copy) ==> copy@ == self.keys_spec()->0@,
    {
        match &self.keys {
            Some(keys) => Some(keys.clone()),
            None => None,
        }
    }

    /// Where the session stands.
    pub fn state(&self) -> (state: SessionState)
        ensures
            state == self.state_spec(),
    {
        self.state.clone()
    }

    /// Admission to the streaming plane: the session as established, where
    /// the state is `Ready` or `Streaming`; else an authentication error
    /// that carries the reason of a failed session, or says that the
    /// session is not ready.
    pub fn ensure_streaming_ready(&self) -> (ready: Result<SessionEstablished, HandshakeError>)
        ensures
            match ready {
                Ok(copy) => readiness_refusal(
                    self.state_spec(),
                    self.established_spec() is Some,
                ) is None && self.established_spec() is Some && same_session(
                    copy,
                    self.established_spec()->0,
                ),
                Err(e) => readiness_refusal(self.state_spec(), self.established_spec() is Some)
                    == Some(e@),
            },
    {
        match &self.state {
            SessionState::Ready { .. } | SessionState::Streaming { .. } => {
                match &self.session_established {
                    Some(established) => Ok(established.clone()),
                    None => Err(
                        HandshakeError::authentication(
                            "session missing even though state is ready",
                        ),
                    ),
                }
            },
            SessionState::Failed(reason) => Err(HandshakeError::Authentication(reason.clone())),
            _ => Err(HandshakeError::authentication("session not ready; streaming blocked")),
        }
    }

    /// Records a keepalive at `now`.
    pub fn update_keepalive(&mut self, now: u64)
        ensures
            final(self).last_keepalive_spec() == now,
            final(self).state_spec() == old(self).state_spec(),
            final(self).role_spec() == old(self).role_spec(),
            final(self).streaming_enabled_spec() == old(self).streaming_enabled_spec(),
            final(self).jitter_spec() == old(self).jitter_spec(),
            final(self).timeout_spec() == old(self).timeout_spec(),
            final(self).established_spec() == old(self).established_spec(),
            final(self).keys_spec() == old(self).keys_spec(),
    {
        self.last_keepalive = now;
    }

    /// The instant of the last keepalive; for a session that has seen
    /// none, the instant it was made.
    pub fn last_keepalive(&self) -> (instant: u64)
        ensures
            instant == self.last_keepalive_spec(),
    {
        self.last_keepalive
    }

    /// Fails a session that has been idle for more than its budget: the
    /// state becomes `Failed("session timeout")` and a transport error says
    /// so. A session within its budget is left as it is.
    pub fn check_timeouts(&mut self, now: u64) -> (checked: Result<(), HandshakeError>)
        ensures
            final(self).same_but_state(old(self)),
            old(self).state_spec().timed_out(old(self).timeout_spec(), now) ==> {
                &&& checked matches Err(e) && e@ == Failure::Transport("session timeout"@)
                &&& final(self).state_spec() matches SessionState::Failed(reason) && reason@
                    == "session timeout"@
            },
            !old(self).state_spec().timed_out(old(self).timeout_spec(), now) ==> {
                &&& checked is Ok
                &&& final(self).state_spec() == old(self).state_spec()
            },
    {
        if self.state.check_timeout(self.timeout, now) {
            self.fail(String::from_str("session timeout"));
            Err(HandshakeError::transport("session timeout"))
        } else {
            Ok(())
        }
    }

    pub fn set_jitter_strategy(&mut self, strategy: JitterStrategy)
        ensures
            final(self).jitter_spec() == strategy,
            final(self).state_spec() == old(self).state_spec(),
            final(self).role_spec() == old(self).role_spec(),
            final(self).streaming_enabled_spec() == old(self).streaming_enabled_spec(),
            final(self).last_keepalive_spec() == old(self).last_keepalive_spec(),
            final(self).timeout_spec() == old(self).timeout_spec(),
            final(self).established_spec() == old(self).established_spec(),
            final(self).keys_spec() == old(self).keys_spec(),
    {
        self.jitter = strategy;
    }

    pub fn jitter_strategy(&self) -> (strategy: JitterStrategy)
        ensures
            strategy == self.jitter_spec(),
    {
        self.jitter
    }

    /// Closes the session, from whatever state, and destroys its keys.
    pub fn close(&mut self)
        ensures
            final(self).state_spec() is Closed,
            final(self).keys_spec() is None,
            final(self).role_spec() == old(self).role_spec(),
            final(self).streaming_enabled_spec() == old(self).streaming_enabled_spec(),
            final(self).jitter_spec() == old(self).jitter_spec(),
            final(self).last_keepalive_spec() == old(self).last_keepalive_spec(),
            final(self).timeout_spec() == old(self).timeout_spec(),
            final(self).established_spec() == old(self).established_spec(),
    {
        self.state = SessionState::Closed;
        self.keys = None;
    }

    /// Fails the session with a reason. A session that has failed or
    /// closed before stays as it is: after the end only `Closed` may
    /// follow.
    pub fn fail(&mut self, reason: String)
        ensures
            final(self).state_spec() == (if old(self).state_spec().is_terminal() {
                old(self).state_spec()
            } else {
                SessionState::Failed(reason)
            }),
            final(self).same_but_state(old(self)),
    {
        let _ = self.transition(SessionState::Failed(reason));
    }

    /// Moves to `next` where the state machine permits it.
    fn transition(&mut self, next: SessionState) -> (moved: Result<(), SessionStateError>)
        ensures
            final(self).same_but_state(old(self)),
            old(self).state_spec().permits(next) ==> moved is Ok && final(self).state_spec()
                == next,
            !old(self).state_spec().permits(next) ==> moved is Err && final(self).state_spec()
                == old(self).state_spec(),
    {
        let current = self.state.clone();
        match current.transition(next) {
            Ok(state) => {
                self.state = state;
                Ok(())
            },
            Err(e) => Err(e),
        }
    }

    /// Switches streaming on or off.
    pub fn set_streaming_enabled(&mut self, enabled: bool)
        ensures
            final(self).streaming_enabled_spec() == enabled,
            final(self).state_spec() == old(self).state_spec(),
            final(self).role_spec() == old(self).role_spec(),
            final(self).jitter_spec() == old(self).jitter_spec(),
            final(self).last_keepalive_spec() == old(self).last_keepalive_spec(),
            final(self).timeout_spec() == old(self).timeout_spec(),
            final(self).established_spec() == old(self).established_spec(),
            final(self).keys_spec() == old(self).keys_spec(),
    {
        self.streaming_enabled = enabled;
    }

    /// Moves a `Ready` session to `Streaming` as of `now`; any other state
    /// is left as it is, so that a second call changes nothing.
    pub fn mark_streaming(&mut self, now: u64)
        ensures
            final(self).same_but_state(old(self)),
            final(self).state_spec() == (if old(self).state_spec() is Ready {
                SessionState::Streaming { since: now }
            } else {
                old(self).state_spec()
            }),
    {
        if let SessionState::Ready { .. } = &self.state {
            let _ = self.transition(SessionState::Streaming { since: now });
        }
    }

    pub fn streaming_enabled(&self) -> (enabled: bool)
        ensures
            enabled == self.streaming_enabled_spec(),
    {
        self.streaming_enabled
    }

    /// Enters the handshake. Only a session in `Init` can.
    pub fn begin_handshake(&mut self) -> (begun: Result<(), HandshakeError>)
        ensures
            final(self).same_but_state(old(self)),
            old(self).state_spec() is Init ==> begun is Ok && final(self).state_spec() is Handshake,
            !(old(self).state_spec() is Init) ==> {
                &&& begun matches Err(e) && e is Protocol
                &&& final(self).state_spec() == old(self).state_spec()
            },
    {
        match self.transition(SessionState::Handshake) {
            Ok(_) => Ok(()),
            Err(e) => Err(state_error_to_handshake_error(e)),
        }
    }

    /// Takes in what a completed handshake produced: the session goes
    /// through `Authenticated` to `Ready`, both as of `now`, and holds the
    /// established record and the keys. Only a session in `Handshake` can.
    pub fn complete_handshake(&mut self, outcome: HandshakeOutcome, now: u64) -> (completed:
        Result<(), HandshakeError>)
        ensures
            final(self).role_spec() == old(self).role_spec(),
            final(self).streaming_enabled_spec() == old(self).streaming_enabled_spec(),
            final(self).jitter_spec() == old(self).jitter_spec(),
            final(self).last_keepalive_spec() == old(self).last_keepalive_spec(),
            final(self).timeout_spec() == old(self).timeout_spec(),
            old(self).state_spec() is Handshake ==> {
                &&& completed is Ok
                &&& final(self).state_spec() == SessionState::Ready { since: now }
                &&& final(self).established_spec() == Some(outcome.established)
                &&& final(self).keys_spec() == Some(outcome.keys)
            },
            !(old(self).state_spec() is Handshake) ==> {
                &&& completed matches Err(e) && e is Protocol
                &&& final(self).state_spec() == old(self).state_spec()
                &&& final(self).established_spec() == old(self).established_spec()
                &&& final(self).keys_spec() == old(self).keys_spec()
            },
    {
        match self.transition(SessionState::Authenticated { since: now }) {
            Ok(_) => {},
            Err(e) => {
                return Err(state_error_to_handshake_error(e));
            },
        }
        match self.transition(SessionState::Ready { since: now }) {
            Ok(_) => {},
            Err(e) => {
                return Err(state_error_to_handshake_error(e));
            },
        }
        self.session_established = Some(outcome.established);
        self.keys = Some(outcome.keys);
        Ok(())
    }
}

impl AlnpSession {
    /// What a session holds after its handshake, run by `driver`, has
    /// completed at `now`: it is ready since then, in the given role, with
    /// streaming enabled, and with an established record and keys that the
    /// driver can have reached.
    pub open spec fn established_by<P: HandshakeParticipant>(
        &self,
        driver: P,
        role: AlnpRole,
        now: u64,
    ) -> bool {
        &&& self.role_spec() == role
        &&& self.state_spec() == SessionState::Ready { since: now }
        &&& self.streaming_enabled_spec()
        &&& self.jitter_spec() == JitterStrategy::HoldLast
        &&& self.timeout_spec() == DEFAULT_SESSION_TIMEOUT_MS
        &&& self.last_keepalive_spec() == now
        &&& self.established_spec() matches Some(established) && self.keys_spec() matches Some(keys)
            && driver.reached(HandshakeOutcome { established, keys })
    }

    fn establish<P: HandshakeParticipant, T: HandshakeTransport>(
        role: AlnpRole,
        driver: &P,
        transport: &mut T,
        now: u64,
    ) -> (session: Result<AlnpSession, HandshakeError>)
        ensures
            session matches Ok(s) ==> s.established_by(*driver, role, now),
    {
        let mut session = AlnpSession::new(role, now);
        match session.begin_handshake() {
            Ok(_) => {},
            Err(e) => {
                return Err(e);
            },
        }
        let outcome = match driver.run(transport) {
            Ok(outcome) => outcome,
            Err(e) => {
                return Err(e);
            },
        };
        match session.complete_handshake(outcome, now) {
            Ok(_) => Ok(session),
            Err(e) => Err(e),
        }
    }

    /// Opens a session as controller: runs the controller's handshake on
    /// the transport and, where it completes, returns the session, ready
    /// as of `now`. Any failure of the handshake is returned as it is.
    pub fn connect<T, A, K>(
        identity: DeviceIdentity,
        capabilities: CapabilitySet,
        authenticator: A,
        key_exchange: K,
        context: HandshakeContext,
        transport: &mut T,
        now: u64,
    ) -> (session: Result<AlnpSession, HandshakeError>) where
        T: HandshakeTransport,
        A: ChallengeAuthenticator,
        K: KeyExchange,

        ensures
            session matches Ok(s) ==> s.established_by(
                ClientHandshake { identity, capabilities, authenticator, key_exchange, context },
                AlnpRole::Controller,
                now,
            ),
    {
        let driver = ClientHandshake { identity, capabilities, authenticator, key_exchange, context };
        AlnpSession::establish(AlnpRole::Controller, &driver, transport, now)
    }

    /// Accepts a session as node: runs the node's handshake on the
    /// transport and, where it completes, returns the session, ready as of
    /// `now`. Any failure of the handshake is returned as it is.
    pub fn accept<T, A, K>(
        identity: DeviceIdentity,
        capabilities: CapabilitySet,
        authenticator: A,
        key_exchange: K,
        context: HandshakeContext,
        transport: &mut T,
        now: u64,
    ) -> (session: Result<AlnpSession, HandshakeError>) where
        T: HandshakeTransport,
        A: ChallengeAuthenticator,
        K: KeyExchange,

        ensures
            session matches Ok(s) ==> s.established_by(
                ServerHandshake { identity, capabilities, authenticator, key_exchange, context },
                AlnpRole::Node,
                now,
            ),
    {
        let driver = ServerHandshake { identity, capabilities, authenticator, key_exchange, context };
        AlnpSession::establish(AlnpRole::Node, &driver, transport, now)
    }
}

/// The capabilities that the example sessions declare: those of a plain
/// node.
pub open spec fn example_capabilities() -> Capabilities {
    Capabilities {
        channel_formats: seq![ChannelFormat::U8],
        max_channels: 512,
        grouping_supported: false,
        streaming_supported: true,
        encryption_supported: true,
        vendor_extensions: None,
    }
}

/// The context of the example sessions: X25519, and no restriction on the
/// peer.
pub open spec fn is_example_context(context: HandshakeContext) -> bool {
    &&& context.key_algorithm == KeyExchangeAlgorithm::X25519
    &&& context.expected_controller is None
    &&& context.required_firmware_rev is None
}

/// The drivers that [`example_controller_session`] runs for an identity:
/// they declare the identity and the example capabilities, authenticate
/// with the default shared secret, and bring some X25519 key pair.
pub open spec fn is_example_controller(
    driver: ClientHandshake<StaticKeyAuthenticator, X25519KeyExchange>,
    identity: DeviceIdentity,
) -> bool {
    &&& driver.identity == identity
    &&& driver.capabilities@ == example_capabilities()
    &&& driver.authenticator.secret_spec() == default_secret()
    &&& is_example_context(driver.context)
}

/// The drivers that [`example_node_session`] runs for an identity, as
/// [`is_example_controller`] for the controller.
pub open spec fn is_example_node(
    driver: ServerHandshake<StaticKeyAuthenticator, X25519KeyExchange>,
    identity: DeviceIdentity,
) -> bool {
    &&& driver.identity == identity
    &&& driver.capabilities@ == example_capabilities()
    &&& driver.authenticator.secret_spec() == default_secret()
    &&& is_example_context(driver.context)
}

/// Helper builder to quickly create a controller-side session with
/// defaults: the default capabilities, the default shared secret, a fresh
/// X25519 key pair, and no restriction on the peer. Where the handshake
/// completes on the transport, the session is the one that a driver with
/// these defaults established at `now`.
pub fn example_controller_session<T: HandshakeTransport>(
    identity: DeviceIdentity,
    transport: &mut T,
    now: u64,
) -> (session: Result<AlnpSession, HandshakeError>)
    ensures
        session matches Ok(s) ==> {
            &&& s.role_spec() == AlnpRole::Controller
            &&& s.state_spec() == (SessionState::Ready { since: now })
            &&& s.established_spec() is Some
            &&& s.keys_spec() is Some
            &&& exists|driver: ClientHandshake<StaticKeyAuthenticator, X25519KeyExchange>|
                is_example_controller(driver, identity) && #[trigger] s.established_by(
                    driver,
                    AlnpRole::Controller,
                    now,
                )
        },
{
    let capabilities = CapabilitySet::default();
    let authenticator = StaticKeyAuthenticator::default();
    let key_exchange = X25519KeyExchange::new();
    let context = HandshakeContext::default();
    let ghost driver = ClientHandshake { identity, capabilities, authenticator, key_exchange, context };
    proof {
        assert(driver.capabilities@ =~= example_capabilities());
    }
    let session = AlnpSession::connect(
        identity,
        capabilities,
        authenticator,
        key_exchange,
        context,
        transport,
        now,
    );
    proof {
        if session is Ok {
            assert(is_example_controller(driver, identity));
            assert(session->Ok_0.established_by(driver, AlnpRole::Controller, now));
        }
    }
    session
}

/// Helper builder to quickly create a node-side session with defaults, as
/// [`example_controller_session`] for the controller.
pub fn example_node_session<T: HandshakeTransport>(
    identity: DeviceIdentity,
    transport: &mut T,
    now: u64,
) -> (session: Result<AlnpSession, HandshakeError>)
    ensures
        session matches Ok(s) ==> {
            &&& s.role_spec() == AlnpRole::Node
            &&& s.state_spec() == (SessionState::Ready { since: now })
            &&& s.established_spec() is Some
            &&& s.keys_spec() is Some
            &&& exists|driver: ServerHandshake<StaticKeyAuthenticator, X25519KeyExchange>|
                is_example_node(driver, identity) && #[trigger] s.established_by(
                    driver,
                    AlnpRole::Node,
                    now,
                )
        },
{
    let capabilities = CapabilitySet::default();
    let authenticator = StaticKeyAuthenticator::default();
    let key_exchange = X25519KeyExchange::new();
    let context = HandshakeContext::default();
    let ghost driver = ServerHandshake { identity, capabilities, authenticator, key_exchange, context };
    proof {
        assert(driver.capabilities@ =~= example_capabilities());
    }
    let session = AlnpSession::accept(
        identity,
        capabilities,
        authenticator,
        key_exchange,
        context,
        transport,
        now,
    );
    proof {
        if session is Ok {
            assert(is_example_node(driver, identity));
            assert(session->Ok_0.established_by(driver, AlnpRole::Node, now));
        }
    }
    session
}

/// What two sessions hold that were established against each other: the
/// roles of controller and node; both ready as of `now`; one session
/// identifier and the same two nonces, 32 bytes each; and byte-equal shared
/// secret, control key and stream key.
pub open spec fn established_together(controller: AlnpSession, node: AlnpSession, now: u64) -> bool {
    &&& controller.role_spec() == AlnpRole::Controller
    &&& node.role_spec() == AlnpRole::Node
    &&& controller.state_spec() == (SessionState::Ready { since: now })
    &&& node.state_spec() == (SessionState::Ready { since: now })
    &&& controller.streaming_enabled_spec()
    &&& node.streaming_enabled_spec()
    &&& controller.established_spec() matches Some(at_controller) && node.established_spec() matches Some(
        at_node,
    ) && {
        &&& at_controller.session_id == at_node.session_id
        &&& at_controller.controller_nonce@ == at_node.controller_nonce@
        &&& at_controller.device_nonce@ == at_node.device_nonce@
        &&& at_controller.controller_nonce@.len() == 32
        &&& at_controller.device_nonce@.len() == 32
    }
    &&& controller.keys_spec() matches Some(controller_keys) && node.keys_spec() matches Some(
        node_keys,
    ) && controller_keys@ == node_keys@
}

fn ready_session(role: AlnpRole, outcome: HandshakeOutcome, now: u64) -> (session: Result<
    AlnpSession,
    HandshakeError,
>)
    ensures
        session matches Ok(s) && {
            &&& s.role_spec() == role
            &&& s.state_spec() == (SessionState::Ready { since: now })
            &&& s.streaming_enabled_spec()
            &&& s.established_spec() == Some(outcome.established)
            &&& s.keys_spec() == Some(outcome.keys)
        },
{
    let mut session = AlnpSession::new(role, now);
    match session.begin_handshake() {
        Ok(_) => {},
        Err(e) => {
            return Err(e);
        },
    }
    match session.complete_handshake(outcome, now) {
        Ok(_) => Ok(session),
        Err(e) => Err(e),
    }
}

/// Establishes a controller's and a node's session against each other in
/// memory, every message handed over as it was sent.
///
/// The nonces and the session identifier are left to chance. The two
/// sessions are established where the drivers let every handshake
/// complete, as [`in_memory_always_completes`] says; and wherever they are
/// established, they are established together.
pub fn sessions_in_memory<A, B>(
    controller: &ClientHandshake<A, X25519KeyExchange>,
    node: &ServerHandshake<B, X25519KeyExchange>,
    now: u64,
) -> (pair: Result<(AlnpSession, AlnpSession), HandshakeError>) where
    A: ChallengeAuthenticator,
    B: ChallengeAuthenticator,

    ensures
        in_memory_always_completes(*controller, *node) ==> pair is Ok,
        pair matches Ok((at_controller, at_node)) ==> established_together(
            at_controller,
            at_node,
            now,
        ),
{
    let (outcome_at_controller, outcome_at_node) = match crate::handshake::handshake_in_memory(
        controller,
        node,
    ) {
        Ok(both) => both,
        Err(e) => {
            return Err(e);
        },
    };
    let at_controller = match ready_session(AlnpRole::Controller, outcome_at_controller, now) {
        Ok(session) => session,
        Err(e) => {
            return Err(e);
        },
    };
    let at_node = match ready_session(AlnpRole::Node, outcome_at_node, now) {
        Ok(session) => session,
        Err(e) => {
            return Err(e);
        },
    };
    Ok((at_controller, at_node))
}

/// Establishes a controller's and a node's session against each other in
/// memory, both with the defaults of the example sessions. This always
/// succeeds, and the two sessions are established together.
pub fn example_sessions_in_memory(
    controller_identity: DeviceIdentity,
    node_identity: DeviceIdentity,
    now: u64,
) -> (pair: Result<(AlnpSession, AlnpSession), HandshakeError>)
    ensures
        pair matches Ok((at_controller, at_node)) && established_together(
            at_controller,
            at_node,
            now,
        ),
{
    let controller = ClientHandshake {
        identity: controller_identity,
        capabilities: CapabilitySet::default(),
        authenticator: StaticKeyAuthenticator::default(),
        key_exchange: X25519KeyExchange::new(),
        context: HandshakeContext::default(),
    };
    let node = ServerHandshake {
        identity: node_identity,
        capabilities: CapabilitySet::default(),
        authenticator: StaticKeyAuthenticator::default(),
        key_exchange: X25519KeyExchange::new(),
        context: HandshakeContext::default(),
    };
    proof {
        lemma_shared_secret_always_completes(controller, node);
    }
    sessions_in_memory(&controller, &node, now)
}

/// Two records of one established session: the same identifier, nonces,
/// capabilities and identity.
pub open spec fn same_session(a: SessionEstablished, b: SessionEstablished) -> bool {
    &&& a.session_id == b.session_id
    &&& a.controller_nonce@ == b.controller_nonce@
    &&& a.device_nonce@ == b.device_nonce@
    &&& a.capabilities@ == b.capabilities@
    &&& a.device_identity == b.device_identity
}

/// Shared-secret authenticator: the signature of a nonce is the secret
/// followed by the nonce.
#[derive(Debug)]
pub struct StaticKeyAuthenticator {
    secret: Vec<u8>,
}

impl StaticKeyAuthenticator {
    /// The shared secret.
    pub closed spec fn secret_spec(&self) -> Seq<u8> {
        self.secret@
    }

    pub fn new(secret: Vec<u8>) -> (authenticator: Self)
        ensures
            authenticator.secret_spec() == secret@,
    {
        StaticKeyAuthenticator { secret }
    }
}

/// The secret of the default authenticator: the ASCII of
/// `default-alnp-secret`.
pub open spec fn default_secret() -> Seq<u8> {
    seq![
        100u8, 101, 102, 97, 117, 108, 116, 45, 97, 108, 110, 112, 45, 115, 101, 99, 114, 101, 116,
    ]
}

const DEFAULT_SECRET: [u8; 19] = [
    100, 101, 102, 97, 117, 108, 116, 45, 97, 108, 110, 112, 45, 115, 101, 99, 114, 101, 116,
];

impl Default for StaticKeyAuthenticator {
    fn default() -> (authenticator: Self)
        ensures
            authenticator.secret_spec() == default_secret(),
    {
        let secret = to_vec(array_as_slice(&DEFAULT_SECRET));
        assert(secret@ =~= default_secret());
        StaticKeyAuthenticator::new(secret)
    }
}

impl ChallengeAuthenticator for StaticKeyAuthenticator {
    open spec fn signature_spec(&self, nonce: Seq<u8>) -> Seq<u8> {
        self.secret_spec() + nonce
    }

    open spec fn accepts_spec(&self, nonce: Seq<u8>, signature: Seq<u8>) -> bool {
        has_suffix(signature, nonce) && has_prefix(signature, self.secret_spec())
    }

    fn sign_challenge(&self, nonce: &[u8]) -> (signature: Vec<u8>) {
        concat(self.secret.as_slice(), nonce)
    }

    fn verify_challenge(&self, nonce: &[u8], signature: &[u8]) -> (accepted: bool) {
        ends_with(signature, nonce) && starts_with(signature, self.secret.as_slice())
    }
}

/// A shared-secret authenticator accepts what it signs.
pub proof fn lemma_static_key_accepts_own_signature(
    authenticator: StaticKeyAuthenticator,
    nonce: Seq<u8>,
)
    ensures
        authenticator.accepts_spec(nonce, authenticator.signature_spec(nonce)),
{
    let secret = authenticator.secret_spec();
    let signature = secret + nonce;
    assert(signature.subrange(0, secret.len() as int) =~= secret);
    assert(signature.subrange(signature.len() - nonce.len(), signature.len() as int) =~= nonce);
}

/// A controller and a node that share one secret, and that are configured
/// for no session in particular, complete every handshake in memory.
pub proof fn lemma_shared_secret_always_completes(
    controller: ClientHandshake<StaticKeyAuthenticator, X25519KeyExchange>,
    node: ServerHandshake<StaticKeyAuthenticator, X25519KeyExchange>,
)
    requires
        controller.authenticator.secret_spec() == node.authenticator.secret_spec(),
        controller.context.expected_controller is None,
        node.context.expected_controller is None,
    ensures
        in_memory_always_completes(controller, node),
{
    assert forall|controller_nonce: Seq<u8>, session_id: SessionId, device_nonce: Seq<u8>|
        controller_nonce.len() == 32 && device_nonce.len() == 32 implies #[trigger] in_memory_completes(
        controller,
        node,
        controller_nonce,
        session_id,
        device_nonce,
    ) by {
        lemma_static_key_accepts_own_signature(controller.authenticator, controller_nonce);
    }
}

/// Ed25519-based authenticator using a node's credentials.
#[derive(Debug)]
pub struct Ed25519Authenticator {
    creds: NodeCredentials,
}

impl Ed25519Authenticator {
    /// The credentials in use.
    pub closed spec fn credentials(&self) -> NodeCredentials {
        self.creds
    }

    pub fn new(creds: NodeCredentials) -> (authenticator: Self)
        ensures
            authenticator.credentials() == creds,
    {
        Ed25519Authenticator { creds }
    }
}

impl ChallengeAuthenticator for Ed25519Authenticator {
    open spec fn signature_spec(&self, nonce: Seq<u8>) -> Seq<u8> {
        ed25519_signature(self.credentials().signing@, nonce)
    }

    /// Only a signature of 64 bytes that verifies under the credentials'
    /// verifying key is accepted.
    open spec fn accepts_spec(&self, nonce: Seq<u8>, signature: Seq<u8>) -> bool {
        signature.len() == 64 && ed25519_verifies(self.credentials().verifying@, nonce, signature)
    }

    fn sign_challenge(&self, nonce: &[u8]) -> (signature: Vec<u8>) {
        let signature = self.creds.sign(nonce);
        to_vec(array_as_slice(&signature))
    }

    fn verify_challenge(&self, nonce: &[u8], signature: &[u8]) -> (accepted: bool) {
        match to_array::<64>(signature) {
            Some(fixed) => self.creds.verify(nonce, &fixed),
            None => false,
        }
    }
}

} // verus!
