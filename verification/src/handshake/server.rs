//! The node's side of the handshake.
//!
//! The node answers `session_init` with a signed `session_ack`, derives the
//! keys on its own, and completes the session only if the tag in
//! `session_ready` is the one it computes itself. Whatever it refuses, it
//! tells the controller in a `session_complete` that says so, as soon as it
//! knows which session the message belongs to.

use crate::bytes::{concat, to_vec};
use crate::crypto::{mac_accepts, verify_mac, KeyExchange};
use crate::handshake::{
    new_nonce, unexpected_message, ChallengeAuthenticator, Failure, HandshakeContext,
    HandshakeError, HandshakeMessage, HandshakeOutcome, HandshakeParticipant, HandshakeTransport,
};
use crate::messages::{
    CapabilitySet, DeviceIdentity, ErrorCode, MessageType, SessionAck, SessionComplete,
    SessionEstablished, SessionInit, SessionReady,
};
use crate::session_id::SessionId;
use vstd::array::array_as_slice;
use vstd::prelude::*;

verus! {

/// Node-side handshake driver that validates the controller and proves
/// identity.
pub struct ServerHandshake<A, K> where A: ChallengeAuthenticator, K: KeyExchange {
    pub identity: DeviceIdentity,
    pub capabilities: CapabilitySet,
    pub authenticator: A,
    pub key_exchange: K,
    pub context: HandshakeContext,
}

/// The node after `session_ack` has gone out.
#[derive(Debug)]
pub struct ServerAwaitingReady {
    pub session_id: SessionId,
    pub controller_nonce: Vec<u8>,
    pub controller_pubkey: Vec<u8>,
    pub requested: CapabilitySet,
    pub device_nonce: Vec<u8>,
}

/// A handshake that the node gives up: the error it ends with, and the
/// `session_complete` that tells the controller, where the session is known.
#[derive(Debug)]
pub struct ServerRejection {
    pub error: HandshakeError,
    pub notice: Option<SessionComplete>,
}

/// The `session_complete` that refuses session `session_id` with `code`.
pub open spec fn refusal_notice(session_id: SessionId, code: ErrorCode) -> SessionComplete {
    SessionComplete {
        message_type: MessageType::SessionComplete,
        session_id,
        ok: false,
        error: Some(code),
    }
}

/// The `session_complete` that accepts session `session_id`.
pub open spec fn acceptance_notice(session_id: SessionId) -> SessionComplete {
    SessionComplete {
        message_type: MessageType::SessionComplete,
        session_id,
        ok: true,
        error: None,
    }
}

fn reject(error: HandshakeError, session_id: SessionId, code: ErrorCode) -> (rejection:
    ServerRejection)
    ensures
        rejection.error == error,
        rejection.notice == Some(refusal_notice(session_id, code)),
{
    ServerRejection {
        error,
        notice: Some(
            SessionComplete {
                message_type: MessageType::SessionComplete,
                session_id,
                ok: false,
                error: Some(code),
            },
        ),
    }
}

impl<A, K> ServerHandshake<A, K> where A: ChallengeAuthenticator, K: KeyExchange {
    /// Why the node refuses what arrived in place of a good `session_init`,
    /// and what it tells the controller: anything else is out of order, and
    /// a controller that is not the configured one is not authorized.
    pub open spec fn init_step_refusal(self, message: HandshakeMessage) -> Option<
        (Failure, Option<SessionComplete>),
    > {
        match message {
            HandshakeMessage::SessionInit(init) => if self.context.expected_controller matches Some(
                expected,
            ) && expected@ != init.session_id.text_spec() {
                Some(
                    (
                        Failure::Authentication("controller identity not authorized"@),
                        Some(refusal_notice(init.session_id, ErrorCode::ControlUnauthorized)),
                    ),
                )
            } else {
                None
            },
            other => Some((unexpected_message("SessionInit"@, other), None)),
        }
    }

    /// What the node holds and sends after a good `session_init`.
    pub open spec fn init_step_result(
        self,
        init: SessionInit,
        device_nonce: Seq<u8>,
        next: ServerAwaitingReady,
        ack: SessionAck,
    ) -> bool {
        &&& next.session_id == init.session_id
        &&& next.controller_nonce == init.controller_nonce
        &&& next.controller_pubkey == init.controller_pubkey
        &&& next.requested == init.requested
        &&& next.device_nonce@ == device_nonce
        &&& ack.message_type == MessageType::SessionAck
        &&& ack.device_nonce@ == device_nonce
        &&& ack.device_pubkey@ == self.key_exchange.public_key_spec()
        &&& ack.device_identity == self.identity
        &&& ack.capabilities@ == self.capabilities@
        &&& ack.signature@ == self.authenticator.signature_spec(init.controller_nonce@)
        &&& ack.session_id == init.session_id
    }

    /// Why the node refuses what arrived in place of a good `session_ready`,
    /// and with which code it says so, as far as that is decided without
    /// the keys.
    pub open spec fn ready_step_refusal(
        self,
        state: ServerAwaitingReady,
        message: HandshakeMessage,
    ) -> Option<(Failure, ErrorCode)> {
        match message {
            HandshakeMessage::SessionReady(ready) => if ready.session_id != state.session_id {
                Some(
                    (
                        Failure::Protocol("session_id mismatch between init and ready"@),
                        ErrorCode::SessionInvalidToken,
                    ),
                )
            } else {
                None
            },
            other => Some((unexpected_message("SessionReady"@, other), ErrorCode::HandshakeReplay)),
        }
    }

    /// What a session that the node established rests on: a
    /// `session_ready` that named the session and carried the tag of the
    /// session identifier under the node's own control key. The keys are
    /// those derived against the controller's key, with both nonces as
    /// salt.
    pub open spec fn completed_on(
        self,
        outcome: HandshakeOutcome,
        state: ServerAwaitingReady,
        ready: SessionReady,
    ) -> bool {
        let salt = state.controller_nonce@ + state.device_nonce@;
        &&& self.ready_step_refusal(state, HandshakeMessage::SessionReady(ready)) is None
        &&& self.key_exchange.derive_spec(state.controller_pubkey@, salt) == Some(outcome.keys@)
        &&& self.key_exchange.agreement(state.controller_pubkey@, salt, outcome.keys@)
        &&& mac_accepts(
            outcome.keys@.control_key,
            0,
            state.session_id.bytes_spec(),
            state.device_nonce@,
            ready.mac@,
        )
        &&& outcome.established.session_id == state.session_id
        &&& outcome.established.controller_nonce == state.controller_nonce
        &&& outcome.established.device_nonce == state.device_nonce
        &&& outcome.established.capabilities == state.requested
        &&& outcome.established.device_identity == self.identity
    }

    /// The node's answer to the first message, with a given nonce of its
    /// own: a `session_ack` that carries that nonce, the node's public key,
    /// identity and capabilities, and its signature over the controller's
    /// nonce.
    pub fn on_init(&self, message: HandshakeMessage, device_nonce: Vec<u8>) -> (step: Result<
        (ServerAwaitingReady, SessionAck),
        ServerRejection,
    >)
        ensures
            match step {
                Ok((next, ack)) => self.init_step_refusal(message) is None && match message {
                    HandshakeMessage::SessionInit(init) => self.init_step_result(
                        init,
                        device_nonce@,
                        next,
                        ack,
                    ),
                    _ => false,
                },
                Err(rejection) => self.init_step_refusal(message) == Some(
                    (rejection.error@, rejection.notice),
                ),
            },
    {
        let init = match message {
            HandshakeMessage::SessionInit(init) => init,
            other => {
                return Err(
                    ServerRejection {
                        error: HandshakeError::unexpected("SessionInit", &other),
                        notice: None,
                    },
                );
            },
        };
        if let Some(expected) = &self.context.expected_controller {
            let text = init.session_id.to_text();
            if !(*expected == text) {
                return Err(
                    reject(
                        HandshakeError::authentication("controller identity not authorized"),
                        init.session_id,
                        ErrorCode::ControlUnauthorized,
                    ),
                );
            }
        }
        let signature = self.authenticator.sign_challenge(init.controller_nonce.as_slice());
        let ack = SessionAck {
            message_type: MessageType::SessionAck,
            device_nonce: to_vec(device_nonce.as_slice()),
            device_pubkey: self.key_exchange.public_key(),
            device_identity: self.identity.clone(),
            capabilities: self.capabilities.clone(),
            signature,
            session_id: init.session_id,
        };
        let next = ServerAwaitingReady {
            session_id: init.session_id,
            controller_nonce: init.controller_nonce,
            controller_pubkey: init.controller_pubkey,
            requested: init.requested,
            device_nonce,
        };
        Ok((next, ack))
    }

    /// The node's answer to the first message, with a fresh 32-byte nonce.
    pub fn accept_init(&self, message: HandshakeMessage) -> (step: Result<
        (ServerAwaitingReady, SessionAck),
        ServerRejection,
    >)
        ensures
            match step {
                Ok((next, ack)) => self.init_step_refusal(message) is None
                    && next.device_nonce@.len() == 32 && match message {
                    HandshakeMessage::SessionInit(init) => self.init_step_result(
                        init,
                        next.device_nonce@,
                        next,
                        ack,
                    ),
                    _ => false,
                },
                Err(rejection) => self.init_step_refusal(message) == Some(
                    (rejection.error@, rejection.notice),
                ),
            },
    {
        let nonce = new_nonce();
        self.on_init(message, to_vec(array_as_slice(&nonce)))
    }

    /// The node's answer to what arrived after `session_ack`.
    ///
    /// Anything but a `session_ready` for this session is refused. The node
    /// then derives the keys against the controller's key, with both nonces
    /// as salt, and completes the session exactly if the tag it was sent is
    /// the tag of the session identifier under its own control key, at
    /// sequence number 0 and bound to its nonce. Every refusal comes with
    /// the `session_complete` that reports it.
    pub fn on_ready(&self, state: ServerAwaitingReady, message: HandshakeMessage) -> (step: Result<
        (HandshakeOutcome, SessionComplete),
        ServerRejection,
    >)
        ensures
            match step {
                Ok((outcome, complete)) => {
                    let salt = state.controller_nonce@ + state.device_nonce@;
                    &&& self.ready_step_refusal(state, message) is None
                    &&& self.key_exchange.derive_spec(state.controller_pubkey@, salt) == Some(
                        outcome.keys@,
                    )
                    &&& self.key_exchange.agreement(state.controller_pubkey@, salt, outcome.keys@)
                    &&& message matches HandshakeMessage::SessionReady(ready) && mac_accepts(
                        outcome.keys@.control_key,
                        0,
                        state.session_id.bytes_spec(),
                        state.device_nonce@,
                        ready.mac@,
                    )
                    &&& complete == acceptance_notice(state.session_id)
                    &&& outcome.established.session_id == state.session_id
                    &&& outcome.established.controller_nonce == state.controller_nonce
                    &&& outcome.established.device_nonce == state.device_nonce
                    &&& outcome.established.capabilities == state.requested
                    &&& outcome.established.device_identity == self.identity
                },
                Err(rejection) => match self.ready_step_refusal(state, message) {
                    Some((failure, code)) => rejection.error@ == failure && rejection.notice
                        == Some(refusal_notice(state.session_id, code)),
                    None => match self.key_exchange.derive_spec(
                        state.controller_pubkey@,
                        state.controller_nonce@ + state.device_nonce@,
                    ) {
                        None => rejection.error is Authentication && rejection.notice == Some(
                            refusal_notice(
                                state.session_id,
                                ErrorCode::HandshakeKeyDerivationFailed,
                            ),
                        ),
                        Some(keys) => {
                            &&& rejection.error@ == Failure::Authentication(
                                "session_ready MAC invalid"@,
                            )
                            &&& rejection.notice == Some(
                                refusal_notice(state.session_id, ErrorCode::SessionMacMismatch),
                            )
                            &&& message matches HandshakeMessage::SessionReady(ready)
                                && !mac_accepts(
                                keys.control_key,
                                0,
                                state.session_id.bytes_spec(),
                                state.device_nonce@,
                                ready.mac@,
                            )
                        },
                    },
                },
            },
    {
        let ready = match message {
            HandshakeMessage::SessionReady(ready) => ready,
            other => {
                return Err(
                    reject(
                        HandshakeError::unexpected("SessionReady", &other),
                        state.session_id,
                        ErrorCode::HandshakeReplay,
                    ),
                );
            },
        };
        if !(ready.session_id == state.session_id) {
            return Err(
                reject(
                    HandshakeError::protocol("session_id mismatch between init and ready"),
                    state.session_id,
                    ErrorCode::SessionInvalidToken,
                ),
            );
        }
        let salt = concat(state.controller_nonce.as_slice(), state.device_nonce.as_slice());
        let keys = match self.key_exchange.derive_keys(
            state.controller_pubkey.as_slice(),
            salt.as_slice(),
        ) {
            Ok(keys) => keys,
            Err(e) => {
                return Err(
                    reject(
                        HandshakeError::Authentication(e.message()),
                        state.session_id,
                        ErrorCode::HandshakeKeyDerivationFailed,
                    ),
                );
            },
        };
        let id_bytes = state.session_id.as_bytes();
        if !verify_mac(
            &keys,
            0,
            id_bytes.as_slice(),
            state.device_nonce.as_slice(),
            ready.mac.as_slice(),
        ) {
            return Err(
                reject(
                    HandshakeError::authentication("session_ready MAC invalid"),
                    state.session_id,
                    ErrorCode::SessionMacMismatch,
                ),
            );
        }
        let complete = SessionComplete {
            message_type: MessageType::SessionComplete,
            session_id: state.session_id,
            ok: true,
            error: None,
        };
        let established = SessionEstablished {
            session_id: state.session_id,
            controller_nonce: state.controller_nonce,
            device_nonce: state.device_nonce,
            capabilities: state.requested,
            device_identity: self.identity.clone(),
        };
        Ok((HandshakeOutcome { established, keys }, complete))
    }
}

fn give_up<T: HandshakeTransport>(transport: &mut T, rejection: ServerRejection) -> (error:
    HandshakeError)
    ensures
        error == rejection.error,
{
    match rejection.notice {
        Some(notice) => {
            let _ = transport.send(HandshakeMessage::SessionComplete(notice));
        },
        None => {},
    }
    rejection.error
}

impl<A, K> HandshakeParticipant for ServerHandshake<A, K> where
    A: ChallengeAuthenticator,
    K: KeyExchange,
 {
    /// The node establishes a session only on a `session_ready` that
    /// passed every check, after a `session_ack` with a nonce of 32 bytes.
    open spec fn reached(&self, outcome: HandshakeOutcome) -> bool {
        exists|state: ServerAwaitingReady, ready: SessionReady| #[trigger]
            self.completed_on(outcome, state, ready) && state.device_nonce@.len() == 32
    }

    /// A refusal is reported to the controller, as far as the transport
    /// lets it through, before the error is returned.
    fn run<T: HandshakeTransport>(&self, transport: &mut T) -> (outcome: Result<
        HandshakeOutcome,
        HandshakeError,
    >) {
        let message = match transport.recv() {
            Ok(message) => message,
            Err(e) => {
                return Err(e);
            },
        };
        let (awaiting_ready, ack) = match self.accept_init(message) {
            Ok(step) => step,
            Err(rejection) => {
                return Err(give_up(transport, rejection));
            },
        };
        match transport.send(HandshakeMessage::SessionAck(ack)) {
            Ok(_) => {},
            Err(e) => {
                return Err(e);
            },
        }
        let message = match transport.recv() {
            Ok(message) => message,
            Err(e) => {
                return Err(e);
            },
        };
        let ghost state = awaiting_ready;
        let ghost answer = message;
        let (outcome, complete) = match self.on_ready(awaiting_ready, message) {
            Ok(step) => step,
            Err(rejection) => {
                return Err(give_up(transport, rejection));
            },
        };
        match transport.send(HandshakeMessage::SessionComplete(complete)) {
            Ok(_) => {},
            Err(e) => {
                return Err(e);
            },
        }
        proof {
            let ready = answer->SessionReady_0;
            assert(answer == HandshakeMessage::SessionReady(ready));
            assert(self.completed_on(outcome, state, ready));
        }
        Ok(outcome)
    }
}

} // verus!
