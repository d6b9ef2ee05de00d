//! The control crypto helper and the two ends of the control plane.
//!
//! Envelopes and acks are authenticated with the session's control key. The
//! tag of an envelope covers its payload as it stands on the wire; the tag
//! of an ack covers the record of its outcome, which the wire codec encodes
//! and the caller hands in. Both are bound to the sequence number and the
//! session identifier, and every tag has 16 bytes.

use crate::bytes::to_vec;
use crate::crypto::{compute_mac, mac_accepts, mac_spec, verify_mac, SessionKeys};
use crate::handshake::transport::{
    backoff_ms, next_seq_spec, ChannelModel, ControlAction, PendingSend, ReliableControlChannel,
};
use crate::handshake::{Failure, HandshakeError};
use crate::messages::{Acknowledge, ControlEnvelope, ControlHeader, ControlOp, MessageType};
use crate::session::{readiness_refusal, AlnpSession};
use crate::session_id::SessionId;
use vstd::prelude::*;

verus! {

/// Signs and verifies control envelopes using the derived session keys.
#[derive(Debug)]
pub struct ControlCrypto {
    keys: SessionKeys,
}

impl ControlCrypto {
    /// The control key in use.
    pub closed spec fn control_key(&self) -> Seq<u8> {
        self.keys@.control_key
    }

    pub fn new(keys: SessionKeys) -> (crypto: Self)
        ensures
            crypto.control_key() == keys@.control_key,
    {
        ControlCrypto { keys }
    }

    /// The tag of an envelope's payload, as it stands on the wire, bound to
    /// the sequence number and the session. It has 16 bytes.
    pub fn mac_for_payload(&self, seq: u64, session_id: &SessionId, payload: &[u8]) -> (mac:
        Result<Vec<u8>, HandshakeError>)
        ensures
            mac matches Ok(tag) && tag@.len() == 16 && tag@ == mac_spec(
                self.control_key(),
                seq,
                payload@,
                session_id.bytes_spec(),
            ),
    {
        let aad = session_id.as_bytes();
        match compute_mac(&self.keys, seq, payload, aad.as_slice()) {
            Ok(tag) => Ok(tag),
            Err(e) => Err(HandshakeError::Authentication(e.message())),
        }
    }

    /// Checks a tag against the payload it came with: accepted exactly if
    /// it is the tag that [`ControlCrypto::mac_for_payload`] computes.
    pub fn verify_mac(&self, seq: u64, session_id: &SessionId, payload: &[u8], mac: &[u8]) -> (
    checked: Result<(), HandshakeError>)
        ensures
            checked is Ok <==> mac_accepts(
                self.control_key(),
                seq,
                payload@,
                session_id.bytes_spec(),
                mac@,
            ),
            checked matches Err(e) ==> e@ == Failure::Authentication(
                "control MAC validation failed"@,
            ),
    {
        let aad = session_id.as_bytes();
        if verify_mac(&self.keys, seq, payload, aad.as_slice(), mac) {
            Ok(())
        } else {
            Err(HandshakeError::authentication("control MAC validation failed"))
        }
    }

    /// The tag of an ack: that of the record of its outcome, as the wire
    /// codec encodes it, bound to the sequence number and the session. It
    /// has 16 bytes.
    pub fn mac_for_ack(&self, seq: u64, session_id: &SessionId, record: &[u8]) -> (mac: Result<
        Vec<u8>,
        HandshakeError,
    >)
        ensures
            mac matches Ok(tag) && tag@.len() == 16 && tag@ == ack_mac_spec(
                self.control_key(),
                seq,
                *session_id,
                record@,
            ),
    {
        self.mac_for_payload(seq, session_id, record)
    }

    /// Checks the tag of an ack against the record of its outcome:
    /// accepted exactly if it is the tag that
    /// [`ControlCrypto::mac_for_ack`] computes for the ack's sequence
    /// number and session and for that record.
    pub fn verify_ack(&self, ack: &Acknowledge, record: &[u8]) -> (checked: Result<
        (),
        HandshakeError,
    >)
        ensures
            checked is Ok <==> ack.mac@ == ack_mac_spec(
                self.control_key(),
                ack.header.seq,
                ack.session_id,
                record@,
            ),
            checked matches Err(e) ==> e@ == Failure::Authentication(
                "control MAC validation failed"@,
            ),
    {
        self.verify_mac(ack.header.seq, &ack.session_id, record, ack.mac.as_slice())
    }
}

/// The tag of an ack whose outcome has the given record.
pub open spec fn ack_mac_spec(
    control_key: Seq<u8>,
    seq: u64,
    session_id: SessionId,
    record: Seq<u8>,
) -> Seq<u8> {
    mac_spec(control_key, seq, record, session_id.bytes_spec())
}

/// Control-plane client helper to build authenticated envelopes.
#[derive(Debug)]
pub struct ControlClient {
    pub device_id: SessionId,
    pub crypto: ControlCrypto,
    pub session_id: SessionId,
}

impl ControlClient {
    pub fn new(device_id: SessionId, session_id: SessionId, crypto: ControlCrypto) -> (client:
        Self)
        ensures
            client.device_id == device_id,
            client.session_id == session_id,
            client.crypto == crypto,
    {
        ControlClient { device_id, crypto, session_id }
    }

    /// An envelope of this session for `op`, with the given header, whose
    /// tag covers the payload under the header's sequence number.
    pub fn envelope(&self, header: ControlHeader, op: ControlOp, payload: Vec<u8>) -> (envelope:
        Result<ControlEnvelope, HandshakeError>)
        ensures
            envelope matches Ok(e) && {
                &&& e.message_type == MessageType::AlpineControl
                &&& e.session_id == self.session_id
                &&& e.header == header
                &&& e.op == op
                &&& e.payload == payload
                &&& e.mac@.len() == 16
                &&& e.mac@ == mac_spec(
                    self.crypto.control_key(),
                    header.seq,
                    payload@,
                    self.session_id.bytes_spec(),
                )
            },
    {
        match self.crypto.mac_for_payload(header.seq, &self.session_id, payload.as_slice()) {
            Ok(mac) => Ok(
                ControlEnvelope {
                    message_type: MessageType::AlpineControl,
                    session_id: self.session_id,
                    header,
                    op,
                    payload,
                    mac,
                },
            ),
            Err(e) => Err(e),
        }
    }
}

impl ControlClient {
    /// Hands an operation to the reliable channel.
    ///
    /// A session that is not ready, be it failed, timed out, closed or not
    /// yet established, accepts no control operation: the refusal is
    /// returned and the channel is left as it is. Otherwise the channel
    /// takes the next sequence number and a fresh nonce, and the envelope
    /// is authenticated with this client's keys for this client's session.
    /// What follows is decided by [`ReliableControlChannel::on_event`].
    pub fn send<T>(
        &self,
        session: &AlnpSession,
        channel: &mut ReliableControlChannel<T>,
        op: ControlOp,
        payload: Vec<u8>,
        now_ms: u64,
    ) -> (begun: Result<(PendingSend, ControlAction), HandshakeError>)
        ensures
            final(channel).transport_spec() == old(channel).transport_spec(),
            readiness_refusal(session.state_spec(), session.established_spec() is Some)
                matches Some(refusal) ==> {
                &&& begun matches Err(e) && e@ == refusal
                &&& final(channel)@ == old(channel)@
            },
            readiness_refusal(session.state_spec(), session.established_spec() is Some)
                is None ==> {
                &&& final(channel)@ == (ChannelModel {
                    seq: next_seq_spec(old(channel)@.seq),
                    ..old(channel)@
                })
                &&& begun matches Ok((pending, action)) && {
                    &&& pending.attempt == 1
                    &&& pending.envelope.message_type == MessageType::AlpineControl
                    &&& pending.envelope.session_id == self.session_id
                    &&& pending.envelope.header.seq == next_seq_spec(old(channel)@.seq)
                    &&& pending.envelope.header.nonce@.len() == 16
                    &&& pending.envelope.header.timestamp_ms == now_ms
                    &&& pending.envelope.op == op
                    &&& pending.envelope.payload == payload
                    &&& pending.envelope.mac@.len() == 16
                    &&& pending.envelope.mac@ == mac_spec(
                        self.crypto.control_key(),
                        next_seq_spec(old(channel)@.seq),
                        payload@,
                        self.session_id.bytes_spec(),
                    )
                    &&& action == (ControlAction::Transmit {
                        timeout_ms: backoff_ms(old(channel)@.base_timeout, 1),
                    })
                }
            },
    {
        match session.ensure_streaming_ready() {
            Ok(_) => {},
            Err(e) => {
                return Err(e);
            },
        }
        channel.send_reliable(&self.crypto, self.session_id, op, payload, now_ms)
    }
}

/// Control responder to validate envelopes and generate authenticated acks.
#[derive(Debug)]
pub struct ControlResponder {
    pub crypto: ControlCrypto,
    pub session_id: SessionId,
}

impl ControlResponder {
    pub fn new(session_id: SessionId, crypto: ControlCrypto) -> (responder: Self)
        ensures
            responder.session_id == session_id,
            responder.crypto == crypto,
    {
        ControlResponder { crypto, session_id }
    }

    /// Accepts an envelope exactly if the tag it carries is the tag of its
    /// payload under its own sequence number and session identifier. A
    /// refused envelope is to be dropped without an answer.
    pub fn verify(&self, envelope: &ControlEnvelope) -> (checked: Result<(), HandshakeError>)
        ensures
            checked is Ok <==> envelope.mac@ == mac_spec(
                self.crypto.control_key(),
                envelope.header.seq,
                envelope.payload@,
                envelope.session_id.bytes_spec(),
            ),
            checked matches Err(e) ==> e@ == Failure::Authentication(
                "control MAC validation failed"@,
            ),
    {
        self.crypto.verify_mac(
            envelope.header.seq,
            &envelope.session_id,
            envelope.payload.as_slice(),
            envelope.mac.as_slice(),
        )
    }

    /// The ack of this session for the envelope with `header`: it repeats
    /// the header and reports the given outcome, and its tag covers the
    /// record of that outcome, which the caller hands in as the wire codec
    /// encodes it, under the header's sequence number.
    pub fn ack(
        &self,
        header: ControlHeader,
        ok: bool,
        detail: Option<String>,
        payload: Option<Vec<u8>>,
        record: &[u8],
    ) -> (ack: Result<Acknowledge, HandshakeError>)
        ensures
            ack matches Ok(a) && {
                &&& a.message_type == MessageType::AlpineControlAck
                &&& a.session_id == self.session_id
                &&& a.header == header
                &&& a.ok == ok
                &&& a.detail == detail
                &&& a.payload == payload
                &&& a.mac@.len() == 16
                &&& a.mac@ == ack_mac_spec(
                    self.crypto.control_key(),
                    header.seq,
                    self.session_id,
                    record@,
                )
            },
    {
        match self.crypto.mac_for_ack(header.seq, &self.session_id, record) {
            Ok(mac) => Ok(
                Acknowledge {
                    message_type: MessageType::AlpineControlAck,
                    session_id: self.session_id,
                    header,
                    ok,
                    detail,
                    payload,
                    mac,
                },
            ),
            Err(e) => Err(e),
        }
    }
}

impl ControlResponder {
    /// Answers an envelope: one whose tag does not verify is dropped
    /// without an answer, so that the sender retransmits; any other gets
    /// the ack for its sequence number and nonce, stamped with `now_ms`,
    /// that reports the given outcome and is authenticated over the record
    /// of that outcome.
    pub fn respond(
        &self,
        envelope: &ControlEnvelope,
        ok: bool,
        detail: Option<String>,
        payload: Option<Vec<u8>>,
        record: &[u8],
        now_ms: u64,
    ) -> (answer: Option<Acknowledge>)
        ensures
            answer is Some <==> envelope.mac@ == mac_spec(
                self.crypto.control_key(),
                envelope.header.seq,
                envelope.payload@,
                envelope.session_id.bytes_spec(),
            ),
            answer matches Some(a) ==> {
                &&& a.message_type == MessageType::AlpineControlAck
                &&& a.session_id == self.session_id
                &&& a.header.seq == envelope.header.seq
                &&& a.header.nonce@ == envelope.header.nonce@
                &&& a.header.timestamp_ms == now_ms
                &&& a.ok == ok
                &&& a.detail == detail
                &&& a.payload == payload
                &&& a.mac@.len() == 16
                &&& a.mac@ == ack_mac_spec(
                    self.crypto.control_key(),
                    envelope.header.seq,
                    self.session_id,
                    record@,
                )
            },
    {
        match self.verify(envelope) {
            Ok(_) => {},
            Err(_) => {
                return None;
            },
        }
        let header = ControlHeader {
            seq: envelope.header.seq,
            nonce: to_vec(envelope.header.nonce.as_slice()),
            timestamp_ms: now_ms,
        };
        match self.ack(header, ok, detail, payload, record) {
            Ok(ack) => Some(ack),
            Err(_) => None,
        }
    }
}

} // verus!
