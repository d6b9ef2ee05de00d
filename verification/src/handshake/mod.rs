//! The four-message handshake and what it shares between its two roles.
//!
//! ```text
//! Controller                            Node
//! session_init (cNonce, cPub, req, sid)
//!                   ----------------->
//!                                       session_ack (dNonce, dPub, ident, caps,
//!                                                    sig = sign(cNonce), sid)
//!                   <-----------------
//! session_ready (sid, mac0)
//!                   ----------------->
//!                                       session_complete (sid, ok, error?)
//!                   <-----------------
//! ```
//!
//! Each role is a small state machine: a function per received message that
//! takes where the role stands and what arrived, and returns where it stands
//! next and what to send. Whoever owns the transport moves the messages.

use crate::crypto::primitives::random_bytes;
use crate::crypto::{KeyExchange, KeyExchangeAlgorithm, SessionKeys, X25519KeyExchange};
use crate::handshake::client::{ClientAwaitingAck, ClientHandshake};
use crate::handshake::server::{ServerAwaitingReady, ServerHandshake};
use crate::messages::{
    Acknowledge, ControlEnvelope, Keepalive, SessionAck, SessionComplete, SessionEstablished,
    SessionInit, SessionReady,
};
use crate::bytes::to_vec;
use crate::session_id::SessionId;
use vstd::array::array_as_slice;
use vstd::prelude::*;
use vstd::string::StringExecFns;

pub mod client;
pub mod keepalive;
pub mod replay;
pub mod server;
pub mod transport;

verus! {

/// Everything that travels on the control transport.
#[derive(Debug, PartialEq)]
pub enum HandshakeMessage {
    SessionInit(SessionInit),
    SessionAck(SessionAck),
    SessionReady(SessionReady),
    SessionComplete(SessionComplete),
    SessionEstablished(SessionEstablished),
    Keepalive(Keepalive),
    Control(ControlEnvelope),
    Ack(Acknowledge),
}

impl HandshakeMessage {
    /// The name of the message's kind.
    pub open spec fn kind_spec(self) -> Seq<char> {
        match self {
            HandshakeMessage::SessionInit(_) => "SessionInit"@,
            HandshakeMessage::SessionAck(_) => "SessionAck"@,
            HandshakeMessage::SessionReady(_) => "SessionReady"@,
            HandshakeMessage::SessionComplete(_) => "SessionComplete"@,
            HandshakeMessage::SessionEstablished(_) => "SessionEstablished"@,
            HandshakeMessage::Keepalive(_) => "Keepalive"@,
            HandshakeMessage::Control(_) => "Control"@,
            HandshakeMessage::Ack(_) => "Ack"@,
        }
    }

    /// The name of the message's kind.
    pub fn kind(&self) -> (name: &'static str)
        ensures
            name@ == self.kind_spec(),
    {
        match self {
            HandshakeMessage::SessionInit(_) => "SessionInit",
            HandshakeMessage::SessionAck(_) => "SessionAck",
            HandshakeMessage::SessionReady(_) => "SessionReady",
            HandshakeMessage::SessionComplete(_) => "SessionComplete",
            HandshakeMessage::SessionEstablished(_) => "SessionEstablished",
            HandshakeMessage::Keepalive(_) => "Keepalive",
            HandshakeMessage::Control(_) => "Control",
            HandshakeMessage::Ack(_) => "Ack",
        }
    }
}

/// Context shared between handshake participants.
#[derive(Debug)]
pub struct HandshakeContext {
    pub key_algorithm: KeyExchangeAlgorithm,
    pub expected_controller: Option<String>,
    pub required_firmware_rev: Option<String>,
}

impl Default for HandshakeContext {
    /// X25519, and no restriction on the peer.
    fn default() -> (context: Self)
        ensures
            context.key_algorithm == KeyExchangeAlgorithm::X25519,
            context.expected_controller is None,
            context.required_firmware_rev is None,
    {
        HandshakeContext {
            key_algorithm: KeyExchangeAlgorithm::X25519,
            expected_controller: None,
            required_firmware_rev: None,
        }
    }
}

/// Why a handshake or a control exchange failed: the transport, the shape or
/// order of the messages, the peer's proof of identity, or an option that is
/// not supported.
#[derive(Debug)]
pub enum HandshakeError {
    Transport(String),
    Protocol(String),
    Authentication(String),
    Capability(String),
}

/// The mathematical content of a [`HandshakeError`].
pub enum Failure {
    Transport(Seq<char>),
    Protocol(Seq<char>),
    Authentication(Seq<char>),
    Capability(Seq<char>),
}

impl View for HandshakeError {
    type V = Failure;

    open spec fn view(&self) -> Failure {
        match self {
            HandshakeError::Transport(detail) => Failure::Transport(detail@),
            HandshakeError::Protocol(detail) => Failure::Protocol(detail@),
            HandshakeError::Authentication(detail) => Failure::Authentication(detail@),
            HandshakeError::Capability(detail) => Failure::Capability(detail@),
        }
    }
}

impl HandshakeError {
    /// The reason as one line: the kind of failure, then the detail.
    pub open spec fn message_spec(self) -> Seq<char> {
        match self {
            HandshakeError::Transport(detail) => "transport error: "@ + detail@,
            HandshakeError::Protocol(detail) => "protocol violation: "@ + detail@,
            HandshakeError::Authentication(detail) => "authentication failed: "@ + detail@,
            HandshakeError::Capability(detail) => "unsupported capability: "@ + detail@,
        }
    }

    /// The reason as one line: the kind of failure, then the detail.
    pub fn message(&self) -> (text: String)
        ensures
            text@ == self.message_spec(),
    {
        match self {
            HandshakeError::Transport(detail) => String::from_str("transport error: ").concat(
                detail.as_str(),
            ),
            HandshakeError::Protocol(detail) => String::from_str("protocol violation: ").concat(
                detail.as_str(),
            ),
            HandshakeError::Authentication(detail) => String::from_str(
                "authentication failed: ",
            ).concat(detail.as_str()),
            HandshakeError::Capability(detail) => String::from_str(
                "unsupported capability: ",
            ).concat(detail.as_str()),
        }
    }

    pub(crate) fn protocol(detail: &str) -> (error: HandshakeError)
        ensures
            error@ == Failure::Protocol(detail@),
    {
        HandshakeError::Protocol(String::from_str(detail))
    }

    pub(crate) fn authentication(detail: &str) -> (error: HandshakeError)
        ensures
            error@ == Failure::Authentication(detail@),
    {
        HandshakeError::Authentication(String::from_str(detail))
    }

    pub(crate) fn transport(detail: &str) -> (error: HandshakeError)
        ensures
            error@ == Failure::Transport(detail@),
    {
        HandshakeError::Transport(String::from_str(detail))
    }

    /// The error for a message of the wrong kind at some step.
    pub(crate) fn unexpected(expected: &str, got: &HandshakeMessage) -> (error: HandshakeError)
        ensures
            error@ == unexpected_message(expected@, *got),
    {
        HandshakeError::Protocol(
            String::from_str("expected ").concat(expected).concat(", got ").concat(got.kind()),
        )
    }
}

/// The failure for a message of the wrong kind where `expected` was due.
pub open spec fn unexpected_message(expected: Seq<char>, got: HandshakeMessage) -> Failure {
    Failure::Protocol("expected "@ + expected + ", got "@ + got.kind_spec())
}

/// Generates a cryptographic nonce for challenge and response: 32 bytes from
/// the operating system's generator.
pub fn new_nonce() -> (nonce: [u8; 32]) {
    random_bytes::<32>()
}

/// Transport abstraction used during the handshake: it moves whole
/// messages, and either call may fail.
pub trait HandshakeTransport {
    fn send(&mut self, message: HandshakeMessage) -> Result<(), HandshakeError>;

    fn recv(&mut self) -> Result<HandshakeMessage, HandshakeError>;
}

/// Shared behavior between controller and node handshake roles.
pub trait HandshakeParticipant {
    /// Whether an outcome is one that this participant can have reached:
    /// it rests on a message from the peer that passed every check of the
    /// role.
    spec fn reached(&self, outcome: HandshakeOutcome) -> bool;

    /// Runs the role's side of the handshake on a transport. Any error of
    /// the transport and any refusal of the role ends the handshake.
    fn run<T: HandshakeTransport>(&self, transport: &mut T) -> (outcome: Result<
        HandshakeOutcome,
        HandshakeError,
    >)
        ensures
            outcome matches Ok(reached) ==> self.reached(reached),
    ;
}

/// Signs and checks the handshake challenge.
pub trait ChallengeAuthenticator {
    /// The signature this authenticator gives for a nonce.
    spec fn signature_spec(&self, nonce: Seq<u8>) -> Seq<u8>;

    /// Whether this authenticator accepts a signature for a nonce.
    spec fn accepts_spec(&self, nonce: Seq<u8>, signature: Seq<u8>) -> bool;

    fn sign_challenge(&self, nonce: &[u8]) -> (signature: Vec<u8>)
        ensures
            signature@ == self.signature_spec(nonce@),
    ;

    fn verify_challenge(&self, nonce: &[u8], signature: &[u8]) -> (accepted: bool)
        ensures
            accepted == self.accepts_spec(nonce@, signature@),
    ;
}

/// Output returned by handshake drivers.
#[derive(Debug)]
pub struct HandshakeOutcome {
    pub established: SessionEstablished,
    pub keys: SessionKeys,
}

/// The messages of a handshake reached the other side as they were sent:
/// the node saw the controller's nonce and public key, and the controller
/// saw the node's.
pub open spec fn delivered_faithfully<A, B>(
    controller: ClientHandshake<A, X25519KeyExchange>,
    node: ServerHandshake<B, X25519KeyExchange>,
    at_controller: ClientAwaitingAck,
    ack: SessionAck,
    at_node: ServerAwaitingReady,
) -> bool where A: ChallengeAuthenticator, B: ChallengeAuthenticator {
    &&& at_node.controller_nonce@ == at_controller.controller_nonce@
    &&& at_node.controller_pubkey@ == controller.key_exchange.public_key_spec()
    &&& ack.device_nonce@ == at_node.device_nonce@
    &&& ack.device_pubkey@ == node.key_exchange.public_key_spec()
}

/// For every completed handshake whose messages were delivered faithfully,
/// whatever the transport, controller and node hold byte-equal shared
/// secret, control key and stream key.
pub proof fn lemma_completed_handshake_shares_keys<A, B>(
    controller: ClientHandshake<A, X25519KeyExchange>,
    node: ServerHandshake<B, X25519KeyExchange>,
    outcome_at_controller: HandshakeOutcome,
    outcome_at_node: HandshakeOutcome,
    at_controller: ClientAwaitingAck,
    ack: SessionAck,
    at_node: ServerAwaitingReady,
    ready: SessionReady,
) where A: ChallengeAuthenticator, B: ChallengeAuthenticator
    requires
        controller.completed_on(outcome_at_controller, at_controller, ack),
        node.completed_on(outcome_at_node, at_node, ready),
        delivered_faithfully(controller, node, at_controller, ack, at_node),
    ensures
        outcome_at_controller.keys@ == outcome_at_node.keys@,
{
    controller.key_exchange.lemma_secret_has_32_bytes();
    let salt = at_node.controller_nonce@ + at_node.device_nonce@;
    assert(at_controller.controller_nonce@ + ack.device_nonce@ == salt);
    assert(Some(outcome_at_node.keys@) == crate::crypto::x25519_derive(
        controller.key_exchange.secret(),
        crate::crypto::primitives::x25519_public(node.key_exchange.secret()),
        salt,
    ));
}

/// The same for two runs of the handshake drivers, whatever the transport:
/// where a controller's run and a node's run both returned a session, and
/// the messages that they rest on reached the other side as they were
/// sent, both hold byte-equal shared secret, control key and stream key.
pub proof fn lemma_runs_share_keys<A, B>(
    controller: ClientHandshake<A, X25519KeyExchange>,
    node: ServerHandshake<B, X25519KeyExchange>,
    outcome_at_controller: HandshakeOutcome,
    outcome_at_node: HandshakeOutcome,
) where A: ChallengeAuthenticator, B: ChallengeAuthenticator
    requires
        controller.reached(outcome_at_controller),
        node.reached(outcome_at_node),
        forall|at_controller: ClientAwaitingAck, ack: SessionAck, at_node: ServerAwaitingReady, ready: SessionReady|
            #![trigger
                controller.completed_on(outcome_at_controller, at_controller, ack),
                node.completed_on(outcome_at_node, at_node, ready)
            ]
            controller.completed_on(outcome_at_controller, at_controller, ack)
                && node.completed_on(outcome_at_node, at_node, ready) ==> delivered_faithfully(
                controller,
                node,
                at_controller,
                ack,
                at_node,
            ),
    ensures
        outcome_at_controller.keys@ == outcome_at_node.keys@,
{
    let (at_controller, ack) = choose|at_controller: ClientAwaitingAck, ack: SessionAck| #[trigger]
        controller.completed_on(outcome_at_controller, at_controller, ack)
            && at_controller.controller_nonce@.len() == 32;
    let (at_node, ready) = choose|at_node: ServerAwaitingReady, ready: SessionReady| #[trigger]
        node.completed_on(outcome_at_node, at_node, ready) && at_node.device_nonce@.len() == 32;
    lemma_completed_handshake_shares_keys(
        controller,
        node,
        outcome_at_controller,
        outcome_at_node,
        at_controller,
        ack,
        at_node,
        ready,
    );
}

/// When a controller and a node that talk to each other directly, with the
/// given nonces and session identifier, complete their handshake: neither
/// is configured for another session, the nonces have one length, and the
/// controller's authenticator accepts the node's signature over the
/// controller's nonce.
pub open spec fn in_memory_completes<A, B>(
    controller: ClientHandshake<A, X25519KeyExchange>,
    node: ServerHandshake<B, X25519KeyExchange>,
    controller_nonce: Seq<u8>,
    session_id: SessionId,
    device_nonce: Seq<u8>,
) -> bool where A: ChallengeAuthenticator, B: ChallengeAuthenticator {
    &&& node.context.expected_controller matches Some(expected) ==> expected@
        == session_id.text_spec()
    &&& controller.context.expected_controller matches Some(expected) ==> expected@
        == session_id.text_spec()
    &&& device_nonce.len() == controller_nonce.len()
    &&& controller.authenticator.accepts_spec(
        controller_nonce,
        node.authenticator.signature_spec(controller_nonce),
    )
}

/// What both ends hold after a handshake between `controller` and `node`:
/// the same session identifier, the same two nonces, and byte-equal shared
/// secret, control key and stream key.
pub open spec fn ends_agree<A, B>(
    controller: ClientHandshake<A, X25519KeyExchange>,
    node: ServerHandshake<B, X25519KeyExchange>,
    at_controller: HandshakeOutcome,
    at_node: HandshakeOutcome,
) -> bool where A: ChallengeAuthenticator, B: ChallengeAuthenticator {
    &&& at_controller.keys@ == at_node.keys@
    &&& at_controller.established.session_id == at_node.established.session_id
    &&& at_controller.established.controller_nonce@ == at_node.established.controller_nonce@
    &&& at_controller.established.device_nonce@ == at_node.established.device_nonce@
    &&& at_controller.established.device_identity == node.identity
    &&& at_controller.established.capabilities@ == node.capabilities@
    &&& at_node.established.capabilities@ == controller.capabilities@
}

/// Runs a controller and a node against each other in memory, with given
/// nonces and session identifier, every message handed over as it was sent.
///
/// The handshake completes exactly when [`in_memory_completes`] holds, and
/// then both ends agree on the session and hold byte-equal keys. Otherwise
/// the error of the role that refused is returned.
pub fn handshake_in_memory_with<A, B>(
    controller: &ClientHandshake<A, X25519KeyExchange>,
    node: &ServerHandshake<B, X25519KeyExchange>,
    controller_nonce: Vec<u8>,
    session_id: SessionId,
    device_nonce: Vec<u8>,
) -> (both: Result<(HandshakeOutcome, HandshakeOutcome), HandshakeError>) where
    A: ChallengeAuthenticator,
    B: ChallengeAuthenticator,

    ensures
        both is Ok <==> in_memory_completes(
            *controller,
            *node,
            controller_nonce@,
            session_id,
            device_nonce@,
        ),
        both matches Ok((at_controller, at_node)) ==> {
            &&& ends_agree(*controller, *node, at_controller, at_node)
            &&& at_controller.established.session_id == session_id
            &&& at_controller.established.controller_nonce@ == controller_nonce@
            &&& at_controller.established.device_nonce@ == device_nonce@
        },
{
    controller.key_exchange.recall_lengths();
    node.key_exchange.recall_lengths();
    let (awaiting_ack, init) = controller.begin(controller_nonce, session_id);
    let (awaiting_ready, ack) = match node.on_init(
        HandshakeMessage::SessionInit(init),
        device_nonce,
    ) {
        Ok(step) => step,
        Err(rejection) => {
            return Err(rejection.error);
        },
    };
    let ghost salt = awaiting_ready.controller_nonce@ + awaiting_ready.device_nonce@;
    let (awaiting_complete, ready) = match controller.on_ack(
        awaiting_ack,
        HandshakeMessage::SessionAck(ack),
    ) {
        Ok(step) => step,
        Err(e) => {
            return Err(e);
        },
    };
    proof {
        assert(awaiting_complete.controller_nonce@ + awaiting_complete.device_nonce@ == salt);
    }
    let (at_node, complete) = match node.on_ready(
        awaiting_ready,
        HandshakeMessage::SessionReady(ready),
    ) {
        Ok(step) => step,
        Err(rejection) => {
            return Err(rejection.error);
        },
    };
    let at_controller = match controller.on_complete(
        awaiting_complete,
        HandshakeMessage::SessionComplete(complete),
    ) {
        Ok(outcome) => outcome,
        Err(e) => {
            return Err(e);
        },
    };
    Ok((at_controller, at_node))
}

/// A controller and a node complete their handshake in memory whatever
/// the nonces and the session identifier: that is, whenever
/// [`in_memory_completes`] holds for every pair of 32-byte nonces and every
/// session identifier.
pub open spec fn in_memory_always_completes<A, B>(
    controller: ClientHandshake<A, X25519KeyExchange>,
    node: ServerHandshake<B, X25519KeyExchange>,
) -> bool where A: ChallengeAuthenticator, B: ChallengeAuthenticator {
    forall|controller_nonce: Seq<u8>, session_id: SessionId, device_nonce: Seq<u8>|
        controller_nonce.len() == 32 && device_nonce.len() == 32 ==> #[trigger] in_memory_completes(
            controller,
            node,
            controller_nonce,
            session_id,
            device_nonce,
        )
}

/// Runs a controller and a node against each other in memory, with fresh
/// 32-byte nonces and a fresh session identifier.
///
/// The nonces and the identifier are left to chance, so whether the
/// handshake completes is in general up to the two authenticators and the
/// two configurations. It does complete where they let every handshake
/// complete, as [`in_memory_always_completes`] says. Where it completes,
/// [`in_memory_completes`] holds of the nonces and the identifier that were
/// drawn: both nonces have 32 bytes, the identifier is a version 4 UUID,
/// and both ends agree on the session and hold byte-equal keys.
pub fn handshake_in_memory<A, B>(
    controller: &ClientHandshake<A, X25519KeyExchange>,
    node: &ServerHandshake<B, X25519KeyExchange>,
) -> (both: Result<(HandshakeOutcome, HandshakeOutcome), HandshakeError>) where
    A: ChallengeAuthenticator,
    B: ChallengeAuthenticator,

    ensures
        in_memory_always_completes(*controller, *node) ==> both is Ok,
        both matches Ok((at_controller, at_node)) ==> {
            &&& ends_agree(*controller, *node, at_controller, at_node)
            &&& at_controller.established.controller_nonce@.len() == 32
            &&& at_controller.established.device_nonce@.len() == 32
            &&& (at_controller.established.session_id.high >> 12) & 0xf == 4
            &&& at_controller.established.session_id.low >> 62 == 2
            &&& in_memory_completes(
                *controller,
                *node,
                at_controller.established.controller_nonce@,
                at_controller.established.session_id,
                at_controller.established.device_nonce@,
            )
        },
{
    let controller_nonce = new_nonce();
    let device_nonce = new_nonce();
    handshake_in_memory_with(
        controller,
        node,
        to_vec(array_as_slice(&controller_nonce)),
        SessionId::generate(),
        to_vec(array_as_slice(&device_nonce)),
    )
}

} // verus!