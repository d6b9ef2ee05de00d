//! The controller's side of the handshake.
//!
//! The controller sends `session_init`, checks the node's `session_ack`,
//! derives the keys, proves that it holds them with the tag in
//! `session_ready`, and accepts the session on `session_complete`.

use crate::bytes::{concat, to_vec};
use crate::crypto::{compute_mac, mac_spec, KeyExchange, SessionKeys};
use crate::handshake::{
    new_nonce, unexpected_message, ChallengeAuthenticator, Failure, HandshakeContext,
    HandshakeError, HandshakeMessage, HandshakeOutcome, HandshakeParticipant, HandshakeTransport,
};
use crate::messages::{
    CapabilitySet, DeviceIdentity, MessageType, SessionAck, SessionEstablished, SessionInit,
    SessionReady,
};
use crate::session_id::SessionId;
use vstd::array::array_as_slice;
use vstd::prelude::*;

verus! {

/// Controller-side handshake driver.
pub struct ClientHandshake<A, K> where A: ChallengeAuthenticator, K: KeyExchange {
    pub identity: DeviceIdentity,
    pub capabilities: CapabilitySet,
    pub authenticator: A,
    pub key_exchange: K,
    pub context: HandshakeContext,
}

/// The controller after `session_init` has gone out.
#[derive(Debug)]
pub struct ClientAwaitingAck {
    pub session_id: SessionId,
    pub controller_nonce: Vec<u8>,
}

/// The controller after `session_ready` has gone out.
#[derive(Debug)]
pub struct ClientAwaitingComplete {
    pub session_id: SessionId,
    pub controller_nonce: Vec<u8>,
    pub device_nonce: Vec<u8>,
    pub capabilities: CapabilitySet,
    pub device_identity: DeviceIdentity,
    pub keys: SessionKeys,
}

/// Why a `session_ack` is refused before its signature is looked at: it
/// names another session, its nonce has another length than ours, or the
/// session is not the one this controller was configured to open.
pub open spec fn ack_refusal(
    ack: SessionAck,
    session_id: SessionId,
    controller_nonce: Seq<u8>,
    context: HandshakeContext,
) -> Option<Failure> {
    if ack.session_id != session_id {
        Some(Failure::Protocol("session_id mismatch between init and ack"@))
    } else if ack.device_nonce@.len() != controller_nonce.len() {
        Some(Failure::Protocol("device nonce length mismatch"@))
    } else if context.expected_controller matches Some(expected) && expected@
        != session_id.text_spec() {
        Some(Failure::Authentication("controller identity rejected"@))
    } else {
        None
    }
}

/// Checks a `session_ack` against the session it answers.
pub fn validate_ack(
    ack: &SessionAck,
    session_id: SessionId,
    controller_nonce: &[u8],
    context: &HandshakeContext,
) -> (checked: Result<(), HandshakeError>)
    ensures
        match checked {
            Ok(_) => ack_refusal(*ack, session_id, controller_nonce@, *context) is None,
            Err(e) => ack_refusal(*ack, session_id, controller_nonce@, *context) == Some(e@),
        },
{
    if !(ack.session_id == session_id) {
        return Err(HandshakeError::protocol("session_id mismatch between init and ack"));
    }
    if ack.device_nonce.len() != controller_nonce.len() {
        return Err(HandshakeError::protocol("device nonce length mismatch"));
    }
    if let Some(expected) = &context.expected_controller {
        let text = session_id.to_text();
        if !(*expected == text) {
            return Err(HandshakeError::authentication("controller identity rejected"));
        }
    }
    Ok(())
}

/// Why the controller refuses what arrived in place of `session_complete`.
pub open spec fn complete_refusal(reply: HandshakeMessage) -> Option<Failure> {
    match reply {
        HandshakeMessage::SessionComplete(complete) => if complete.ok {
            None
        } else {
            Some(Failure::Authentication("device rejected session_ready"@))
        },
        other => Some(unexpected_message("SessionComplete"@, other)),
    }
}

impl<A, K> ClientHandshake<A, K> where A: ChallengeAuthenticator, K: KeyExchange {
    /// Why the controller refuses what arrived in place of a good
    /// `session_ack`, as far as that is decided before the keys are
    /// derived.
    pub open spec fn ack_step_refusal(
        self,
        state: ClientAwaitingAck,
        reply: HandshakeMessage,
    ) -> Option<Failure> {
        match reply {
            HandshakeMessage::SessionAck(ack) => match ack_refusal(
                ack,
                state.session_id,
                state.controller_nonce@,
                self.context,
            ) {
                Some(failure) => Some(failure),
                None => if self.authenticator.accepts_spec(
                    state.controller_nonce@,
                    ack.signature@,
                ) {
                    None
                } else {
                    Some(Failure::Authentication("device signature validation failed"@))
                },
            },
            other => Some(unexpected_message("SessionAck"@, other)),
        }
    }

    /// What the controller holds and sends after a good `session_ack`: keys
    /// derived against the node's key with both nonces as salt, the node's
    /// nonce, capabilities and identity, and a `session_ready` whose tag
    /// authenticates the session identifier under the control key, at
    /// sequence number 0 and bound to the node's nonce.
    pub open spec fn ack_step_result(
        self,
        state: ClientAwaitingAck,
        ack: SessionAck,
        next: ClientAwaitingComplete,
        ready: SessionReady,
    ) -> bool {
        let salt = state.controller_nonce@ + ack.device_nonce@;
        &&& self.key_exchange.derive_spec(ack.device_pubkey@, salt) == Some(next.keys@)
        &&& self.key_exchange.agreement(ack.device_pubkey@, salt, next.keys@)
        &&& next.session_id == state.session_id
        &&& next.controller_nonce@ == state.controller_nonce@
        &&& next.device_nonce@ == ack.device_nonce@
        &&& next.capabilities == ack.capabilities
        &&& next.device_identity == ack.device_identity
        &&& ready.message_type == MessageType::SessionReady
        &&& ready.session_id == state.session_id
        &&& ready.mac@.len() == 16
        &&& ready.mac@ == mac_spec(
            next.keys@.control_key,
            0,
            state.session_id.bytes_spec(),
            ack.device_nonce@,
        )
    }

    /// What a session that the controller established rests on: a
    /// `session_ack` that named the session, carried a nonce as long as the
    /// controller's own and a signature over that nonce which the
    /// authenticator accepted. The keys are those derived against the key
    /// in that ack, with both nonces as salt, and the record holds what
    /// the ack declared.
    pub open spec fn completed_on(
        self,
        outcome: HandshakeOutcome,
        state: ClientAwaitingAck,
        ack: SessionAck,
    ) -> bool {
        let salt = state.controller_nonce@ + ack.device_nonce@;
        &&& self.ack_step_refusal(state, HandshakeMessage::SessionAck(ack)) is None
        &&& self.key_exchange.derive_spec(ack.device_pubkey@, salt) == Some(outcome.keys@)
        &&& self.key_exchange.agreement(ack.device_pubkey@, salt, outcome.keys@)
        &&& outcome.established.session_id == state.session_id
        &&& outcome.established.controller_nonce@ == state.controller_nonce@
        &&& outcome.established.device_nonce@ == ack.device_nonce@
        &&& outcome.established.capabilities == ack.capabilities
        &&& outcome.established.device_identity == ack.device_identity
    }

    /// Opens a handshake with a given nonce and session identifier: the
    /// `session_init` to send, and what to remember of it.
    pub fn begin(&self, controller_nonce: Vec<u8>, session_id: SessionId) -> (opened: (
        ClientAwaitingAck,
        SessionInit,
    ))
        ensures
            opened.0.session_id == session_id,
            opened.0.controller_nonce@ == controller_nonce@,
            opened.1.message_type == MessageType::SessionInit,
            opened.1.controller_nonce@ == controller_nonce@,
            opened.1.controller_pubkey@ == self.key_exchange.public_key_spec(),
            opened.1.requested@ == self.capabilities@,
            opened.1.session_id == session_id,
    {
        let init = SessionInit {
            message_type: MessageType::SessionInit,
            controller_nonce: to_vec(controller_nonce.as_slice()),
            controller_pubkey: self.key_exchange.public_key(),
            requested: self.capabilities.clone(),
            session_id,
        };
        (ClientAwaitingAck { session_id, controller_nonce }, init)
    }

    /// Opens a handshake with a fresh 32-byte nonce and a fresh random
    /// session identifier.
    pub fn start(&self) -> (opened: (ClientAwaitingAck, SessionInit))
        ensures
            opened.0.controller_nonce@.len() == 32,
            opened.1.message_type == MessageType::SessionInit,
            opened.1.controller_nonce@ == opened.0.controller_nonce@,
            opened.1.controller_pubkey@ == self.key_exchange.public_key_spec(),
            opened.1.requested@ == self.capabilities@,
            opened.1.session_id == opened.0.session_id,
    {
        let nonce = new_nonce();
        self.begin(to_vec(array_as_slice(&nonce)), SessionId::generate())
    }

    /// The controller's answer to what arrived after `session_init`.
    ///
    /// Anything but a `session_ack` is a protocol error. The ack is refused
    /// as [`ack_refusal`] says, then if the authenticator rejects the node's
    /// signature over our nonce, then if the keys cannot be derived; each
    /// refusal is final. Otherwise the controller moves on with the keys
    /// and the `session_ready` to send.
    pub fn on_ack(&self, state: ClientAwaitingAck, reply: HandshakeMessage) -> (step: Result<
        (ClientAwaitingComplete, SessionReady),
        HandshakeError,
    >)
        ensures
            match step {
                Ok((next, ready)) => self.ack_step_refusal(state, reply) is None && match reply {
                    HandshakeMessage::SessionAck(ack) => self.ack_step_result(
                        state,
                        ack,
                        next,
                        ready,
                    ),
                    _ => false,
                },
                Err(e) => match self.ack_step_refusal(state, reply) {
                    Some(failure) => e@ == failure,
                    None => e is Authentication && match reply {
                        HandshakeMessage::SessionAck(ack) => self.key_exchange.derive_spec(
                            ack.device_pubkey@,
                            state.controller_nonce@ + ack.device_nonce@,
                        ) is None,
                        _ => false,
                    },
                },
            },
    {
        let ack = match reply {
            HandshakeMessage::SessionAck(ack) => ack,
            other => {
                return Err(HandshakeError::unexpected("SessionAck", &other));
            },
        };
        match validate_ack(
            &ack,
            state.session_id,
            state.controller_nonce.as_slice(),
            &self.context,
        ) {
            Ok(_) => {},
            Err(e) => {
                return Err(e);
            },
        }
        if !self.authenticator.verify_challenge(
            state.controller_nonce.as_slice(),
            ack.signature.as_slice(),
        ) {
            return Err(HandshakeError::authentication("device signature validation failed"));
        }
        let salt = concat(state.controller_nonce.as_slice(), ack.device_nonce.as_slice());
        let keys = match self.key_exchange.derive_keys(
            ack.device_pubkey.as_slice(),
            salt.as_slice(),
        ) {
            Ok(keys) => keys,
            Err(e) => {
                return Err(HandshakeError::Authentication(e.message()));
            },
        };
        let id_bytes = state.session_id.as_bytes();
        let mac = match compute_mac(&keys, 0, id_bytes.as_slice(), ack.device_nonce.as_slice()) {
            Ok(mac) => mac,
            Err(e) => {
                return Err(HandshakeError::Authentication(e.message()));
            },
        };
        let ready = SessionReady {
            message_type: MessageType::SessionReady,
            session_id: state.session_id,
            mac,
        };
        let next = ClientAwaitingComplete {
            session_id: state.session_id,
            controller_nonce: state.controller_nonce,
            device_nonce: ack.device_nonce,
            capabilities: ack.capabilities,
            device_identity: ack.device_identity,
            keys,
        };
        Ok((next, ready))
    }

    /// The controller's answer to what arrived after `session_ready`: the
    /// session is established on a `session_complete` that says `ok`, and
    /// on nothing else.
    pub fn on_complete(&self, state: ClientAwaitingComplete, reply: HandshakeMessage) -> (step:
        Result<HandshakeOutcome, HandshakeError>)
        ensures
            match step {
                Ok(outcome) => {
                    &&& complete_refusal(reply) is None
                    &&& outcome.keys == state.keys
                    &&& outcome.established.session_id == state.session_id
                    &&& outcome.established.controller_nonce == state.controller_nonce
                    &&& outcome.established.device_nonce == state.device_nonce
                    &&& outcome.established.capabilities == state.capabilities
                    &&& outcome.established.device_identity == state.device_identity
                },
                Err(e) => complete_refusal(reply) == Some(e@),
            },
    {
        let complete = match reply {
            HandshakeMessage::SessionComplete(complete) => complete,
            other => {
                return Err(HandshakeError::unexpected("SessionComplete", &other));
            },
        };
        if !complete.ok {
            return Err(HandshakeError::authentication("device rejected session_ready"));
        }
        let established = SessionEstablished {
            session_id: state.session_id,
            controller_nonce: state.controller_nonce,
            device_nonce: state.device_nonce,
            capabilities: state.capabilities,
            device_identity: state.device_identity,
        };
        Ok(HandshakeOutcome { established, keys: state.keys })
    }
}

impl<A, K> HandshakeParticipant for ClientHandshake<A, K> where
    A: ChallengeAuthenticator,
    K: KeyExchange,
 {
    /// The controller establishes a session only on a `session_ack` that
    /// passed every check, after a `session_init` with a nonce of 32
    /// bytes.
    open spec fn reached(&self, outcome: HandshakeOutcome) -> bool {
        exists|state: ClientAwaitingAck, ack: SessionAck| #[trigger]
            self.completed_on(outcome, state, ack) && state.controller_nonce@.len() == 32
    }

    fn run<T: HandshakeTransport>(&self, transport: &mut T) -> (outcome: Result<
        HandshakeOutcome,
        HandshakeError,
    >) {
        let (awaiting_ack, init) = self.start();
        match transport.send(HandshakeMessage::SessionInit(init)) {
            Ok(_) => {},
            Err(e) => {
                return Err(e);
            },
        }
        let reply = match transport.recv() {
            Ok(reply) => reply,
            Err(e) => {
                return Err(e);
            },
        };
        let ghost state = awaiting_ack;
        let ghost answer = reply;
        let (awaiting_complete, ready) = match self.on_ack(awaiting_ack, reply) {
            Ok(step) => step,
            Err(e) => {
                return Err(e);
            },
        };
        match transport.send(HandshakeMessage::SessionReady(ready)) {
            Ok(_) => {},
            Err(e) => {
                return Err(e);
            },
        }
        let reply = match transport.recv() {
            Ok(reply) => reply,
            Err(e) => {
                return Err(e);
            },
        };
        match self.on_complete(awaiting_complete, reply) {
            Ok(outcome) => {
                proof {
                    let ack = answer->SessionAck_0;
                    assert(answer == HandshakeMessage::SessionAck(ack));
                    assert(self.completed_on(outcome, state, ack));
                }
                Ok(outcome)
            },
            Err(e) => Err(e),
        }
    }
}

} // verus!
