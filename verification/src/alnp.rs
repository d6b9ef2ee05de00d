//! The ALNP message family: the hello and challenge messages of a
//! handshake in which the node challenges the controller, the typed
//! payloads of its control plane, and the Ed25519 signatures that
//! authenticate its envelopes and acks.

use crate::bytes::{ct_eq, to_array, to_vec};
use crate::crypto::identity::NodeCredentials;
use crate::crypto::primitives::{ed25519_public, ed25519_signature, ed25519_verifies};
use crate::handshake::{ChallengeAuthenticator, Failure, HandshakeContext, HandshakeError};
use crate::messages::{ControlHeader, OperatingMode};
use vstd::array::array_as_slice;
use crate::session_id::SessionId;
use vstd::prelude::*;
use vstd::string::StringExecFns;

verus! {

/// ALNP protocol semantic version.
#[derive(Debug, Clone, Copy, PartialEq, Eq, Structural)]
pub struct ProtocolVersion {
    pub major: u16,
    pub minor: u16,
    pub patch: u16,
}

impl ProtocolVersion {
    pub fn new(major: u16, minor: u16, patch: u16) -> (version: Self)
        ensures
            version == (ProtocolVersion { major, minor, patch }),
    {
        ProtocolVersion { major, minor, patch }
    }

    /// Version 1.0.0.
    pub fn alnp_v1() -> (version: Self)
        ensures
            version == (ProtocolVersion { major: 1, minor: 0, patch: 0 }),
    {
        ProtocolVersion::new(1, 0, 0)
    }
}

/// Device identity tuple exchanged during the hello messages. The `cid` is
/// the component's UUID.
#[derive(Debug, PartialEq)]
pub struct DeviceIdentity {
    pub cid: SessionId,
    pub manufacturer: String,
    pub model: String,
    pub firmware_rev: String,
}

/// Declared capabilities of a component.
#[derive(Debug, PartialEq)]
pub struct CapabilitySet {
    pub supports_encryption: bool,
    pub supports_redundancy: bool,
    pub max_universes: Option<u16>,
    pub vendor_data: Option<String>,
}

/// A proposal for the key exchange: the algorithm's name and a public key.
#[derive(Debug, PartialEq)]
pub struct KeyExchangeProposal {
    pub algorithm: String,
    pub public_key: Vec<u8>,
}

/// The signature scheme of a challenge.
#[derive(Debug, Clone, Copy, PartialEq, Eq, Structural)]
pub enum SignatureScheme {
    Ed25519,
    EcdsaP256,
}

/// Controller to node hello message.
#[derive(Debug, PartialEq)]
pub struct ControllerHello {
    pub controller: DeviceIdentity,
    pub requested_version: ProtocolVersion,
    pub capabilities: CapabilitySet,
    pub key_exchange: KeyExchangeProposal,
}

/// Node to controller hello message.
#[derive(Debug, PartialEq)]
pub struct NodeHello {
    pub node: DeviceIdentity,
    pub supported_version: ProtocolVersion,
    pub capabilities: CapabilitySet,
    pub key_exchange: KeyExchangeProposal,
    pub auth_required: bool,
}

/// Challenge issued by node to controller.
#[derive(Debug, PartialEq)]
pub struct ChallengeRequest {
    pub nonce: Vec<u8>,
    pub controller_expected: SessionId,
    pub signature_scheme: SignatureScheme,
}

/// Response from controller to prove identity.
#[derive(Debug, PartialEq)]
pub struct ChallengeResponse {
    pub nonce: Vec<u8>,
    pub signature: Vec<u8>,
    pub key_confirmation: Option<Vec<u8>>,
}

/// Session ready marker.
#[derive(Debug, PartialEq)]
pub struct SessionEstablished {
    pub session_id: SessionId,
    pub agreed_version: ProtocolVersion,
    pub stream_key: Option<Vec<u8>>,
    pub expires_at_epoch_ms: Option<u64>,
}

/// Control-plane keepalive frame to detect dead sessions.
#[derive(Debug, Clone, Copy, PartialEq, Eq, Structural)]
pub struct Keepalive {
    pub session_id: Option<SessionId>,
    pub tick_ms: u64,
}

#[derive(Debug, PartialEq)]
pub struct IdentifyRequest {
    pub blink: bool,
    pub metadata: Option<String>,
}

#[derive(Debug, PartialEq)]
pub struct IdentifyResponse {
    pub acknowledged: bool,
    pub detail: Option<String>,
}

#[derive(Debug, Clone, Copy, PartialEq, Eq, Structural)]
pub struct DeviceInfoRequest;

#[derive(Debug, PartialEq)]
pub struct DeviceInfo {
    pub identity: DeviceIdentity,
    pub version: ProtocolVersion,
    pub mode: OperatingMode,
}

#[derive(Debug, PartialEq)]
pub struct SetWifiCreds {
    pub ssid: String,
    pub password: String,
}

#[derive(Debug, Clone, Copy, PartialEq, Eq, Structural)]
pub struct UniverseMapping {
    pub universe: u16,
    pub output_port: u8,
}

#[derive(Debug, PartialEq)]
pub struct SetUniverseMapping {
    pub mappings: Vec<UniverseMapping>,
}

#[derive(Debug, Clone, Copy, PartialEq, Eq, Structural)]
pub struct SetMode {
    pub mode: OperatingMode,
}

#[derive(Debug, PartialEq)]
pub struct StatusReport {
    pub healthy: bool,
    pub detail: Option<String>,
    pub uptime_secs: u64,
}

#[derive(Debug, PartialEq)]
pub struct RestartRequest {
    pub reason: Option<String>,
}

/// The typed payloads of the control plane.
#[derive(Debug, PartialEq)]
pub enum ControlPayload {
    Identify(IdentifyRequest),
    IdentifyResponse(IdentifyResponse),
    GetDeviceInfo(DeviceInfoRequest),
    DeviceInfo(DeviceInfo),
    GetCapabilities,
    Capabilities(CapabilitySet),
    SetWifiCreds(SetWifiCreds),
    SetUniverseMapping(SetUniverseMapping),
    SetMode(SetMode),
    GetStatus,
    StatusReport(StatusReport),
    Restart(RestartRequest),
}

/// Why a controller refuses a challenge: it is addressed to another
/// controller, or to one that this controller was not configured to be.
pub open spec fn challenge_refusal(
    challenge: ChallengeRequest,
    controller_cid: SessionId,
    context: HandshakeContext,
) -> Option<Failure> {
    if challenge.controller_expected != controller_cid {
        Some(Failure::Authentication("challenge addressed to different controller"@))
    } else if context.expected_controller matches Some(expected) && expected@
        != challenge.controller_expected.text_spec() {
        Some(Failure::Authentication("controller identity rejected"@))
    } else {
        None
    }
}

/// Checks a challenge on the controller's side.
pub fn validate_challenge(
    challenge: &ChallengeRequest,
    controller_cid: &SessionId,
    context: &HandshakeContext,
) -> (checked: Result<(), HandshakeError>)
    ensures
        match checked {
            Ok(_) => challenge_refusal(*challenge, *controller_cid, *context) is None,
            Err(e) => challenge_refusal(*challenge, *controller_cid, *context) == Some(e@),
        },
{
    if !(challenge.controller_expected == *controller_cid) {
        return Err(
            HandshakeError::authentication("challenge addressed to different controller"),
        );
    }
    if let Some(expected) = &context.expected_controller {
        let text = challenge.controller_expected.to_text();
        if !(text == *expected) {
            return Err(HandshakeError::authentication("controller identity rejected"));
        }
    }
    Ok(())
}

/// Why a node refuses the response to its challenge: the nonce is not the
/// one it sent; or the authenticator rejects the signature over it; or the
/// controller confirmed no key material.
pub open spec fn response_refusal<A: ChallengeAuthenticator>(
    challenge: ChallengeRequest,
    response: ChallengeResponse,
    authenticator: A,
    controller_cid: SessionId,
) -> Option<Failure> {
    if response.nonce@ != challenge.nonce@ {
        Some(Failure::Protocol("nonce in response did not match challenge"@))
    } else if !authenticator.accepts_spec(response.nonce@, response.signature@) {
        Some(Failure::Authentication("challenge signature validation failed"@))
    } else if response.key_confirmation matches Some(confirmation) && confirmation@.len() > 0 {
        None
    } else {
        Some(
            Failure::Authentication(
                "controller "@ + controller_cid.text_spec() + " did not confirm key material"@,
            ),
        )
    }
}

/// Checks the response to a challenge on the node's side.
pub fn validate_response<A: ChallengeAuthenticator>(
    challenge: &ChallengeRequest,
    response: &ChallengeResponse,
    authenticator: &A,
    controller_cid: &SessionId,
) -> (checked: Result<(), HandshakeError>)
    ensures
        match checked {
            Ok(_) => response_refusal(*challenge, *response, *authenticator, *controller_cid)
                is None,
            Err(e) => response_refusal(*challenge, *response, *authenticator, *controller_cid)
                == Some(e@),
        },
{
    if !ct_eq(response.nonce.as_slice(), challenge.nonce.as_slice()) {
        return Err(HandshakeError::protocol("nonce in response did not match challenge"));
    }
    if !authenticator.verify_challenge(response.nonce.as_slice(), response.signature.as_slice()) {
        return Err(HandshakeError::authentication("challenge signature validation failed"));
    }
    let confirmed = match &response.key_confirmation {
        Some(confirmation) => confirmation.len() > 0,
        None => false,
    };
    if !confirmed {
        let detail = String::from_str("controller ").concat(
            controller_cid.to_text().as_str(),
        ).concat(" did not confirm key material");
        return Err(HandshakeError::Authentication(detail));
    }
    Ok(())
}

/// Envelope that carries a control payload and the signature over it.
#[derive(Debug, PartialEq)]
pub struct ControlEnvelope {
    pub header: ControlHeader,
    pub payload: ControlPayload,
    pub signature: Vec<u8>,
}

/// Signed acknowledge.
#[derive(Debug, PartialEq)]
pub struct Acknowledge {
    pub header: ControlHeader,
    pub ok: bool,
    pub detail: Option<String>,
    pub signature: Vec<u8>,
}

/// Signs and verifies control envelopes with Ed25519. What is signed is the
/// encoding of a payload or of a header, which the caller hands in.
#[derive(Debug)]
pub struct ControlCrypto {
    own: NodeCredentials,
    peer_verifying: Option<[u8; 32]>,
}

impl ControlCrypto {
    /// The seed of the key that signs.
    pub closed spec fn signing_spec(&self) -> Seq<u8> {
        self.own.signing@
    }

    /// The key that signatures are checked against: the peer's, where one
    /// is known, and else the own.
    pub closed spec fn verifier_spec(&self) -> Seq<u8> {
        match self.peer_verifying {
            Some(peer) => peer@,
            None => self.own.verifying@,
        }
    }

    /// A helper that signs with `signing` and checks signatures against
    /// the peer's key or, where none is given, against the public key that
    /// belongs to `signing`.
    pub fn new(signing: [u8; 32], peer_verifying: Option<[u8; 32]>) -> (crypto: Self)
        ensures
            crypto.signing_spec() == signing@,
            crypto.verifier_spec() == (match peer_verifying {
                Some(peer) => peer@,
                None => ed25519_public(signing@),
            }),
    {
        ControlCrypto { own: NodeCredentials::from_seed(signing), peer_verifying }
    }

    /// The envelope with its signature: that of the encoded payload.
    pub fn sign_envelope(&self, envelope: ControlEnvelope, payload_bytes: &[u8]) -> (signed:
        ControlEnvelope)
        ensures
            signed.header == envelope.header,
            signed.payload == envelope.payload,
            signed.signature@ == ed25519_signature(self.signing_spec(), payload_bytes@),
            signed.signature@.len() == 64,
    {
        let signature = self.own.sign(payload_bytes);
        ControlEnvelope {
            header: envelope.header,
            payload: envelope.payload,
            signature: to_vec(array_as_slice(&signature)),
        }
    }

    /// Accepts an envelope exactly if its signature has 64 bytes and is a
    /// valid signature of the encoded payload under the verifier's key.
    pub fn verify_envelope(&self, envelope: &ControlEnvelope, payload_bytes: &[u8]) -> (checked:
        Result<(), HandshakeError>)
        ensures
            checked is Ok <==> envelope.signature@.len() == 64 && ed25519_verifies(
                self.verifier_spec(),
                payload_bytes@,
                envelope.signature@,
            ),
            checked matches Err(e) ==> e@ == Failure::Authentication("signature error"@),
    {
        let signature = match to_array::<64>(envelope.signature.as_slice()) {
            Some(signature) => signature,
            None => {
                return Err(HandshakeError::authentication("signature error"));
            },
        };
        let verifier = match self.peer_verifying {
            Some(peer) => NodeCredentials::new(self.own.signing, peer),
            None => self.own,
        };
        if verifier.verify(payload_bytes, &signature) {
            Ok(())
        } else {
            Err(HandshakeError::authentication("signature error"))
        }
    }

    /// The ack with its signature: that of the encoded header.
    pub fn sign_ack(&self, ack: Acknowledge, header_bytes: &[u8]) -> (signed: Acknowledge)
        ensures
            signed.header == ack.header,
            signed.ok == ack.ok,
            signed.detail == ack.detail,
            signed.signature@ == ed25519_signature(self.signing_spec(), header_bytes@),
            signed.signature@.len() == 64,
    {
        let signature = self.own.sign(header_bytes);
        Acknowledge {
            header: ack.header,
            ok: ack.ok,
            detail: ack.detail,
            signature: to_vec(array_as_slice(&signature)),
        }
    }
}

} // verus!
