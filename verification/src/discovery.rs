//! Discovery replies: how a node signs one, and how a controller checks it.
//!
//! A reply is bound to the request it answers by the node's signature over
//! the node's nonce followed by the controller's. Sending the broadcast and
//! receiving the reply are the caller's.

use crate::bytes::{concat, to_array, to_vec};
use crate::crypto::primitives::{ed25519_sign, ed25519_signature, ed25519_verifies, ed25519_verify};
use crate::messages::{
    CapabilitySet, DeviceIdentity, DiscoveryReply, DiscoveryRequest, ErrorCode, MessageType,
    ALPINE_VERSION,
};
use vstd::array::array_as_slice;
use vstd::prelude::*;
use vstd::string::StringExecFns;

verus! {

/// Why discovery failed.
#[derive(Debug)]
pub enum DiscoveryError {
    Io(String),
    Decode(String),
    InvalidSignature,
    NonceMismatch,
    UnsupportedVersion,
}

/// The mathematical content of a [`DiscoveryError`].
pub enum DiscoveryFailure {
    Io(Seq<char>),
    Decode(Seq<char>),
    InvalidSignature,
    NonceMismatch,
    UnsupportedVersion,
}

impl View for DiscoveryError {
    type V = DiscoveryFailure;

    open spec fn view(&self) -> DiscoveryFailure {
        match self {
            DiscoveryError::Io(detail) => DiscoveryFailure::Io(detail@),
            DiscoveryError::Decode(detail) => DiscoveryFailure::Decode(detail@),
            DiscoveryError::InvalidSignature => DiscoveryFailure::InvalidSignature,
            DiscoveryError::NonceMismatch => DiscoveryFailure::NonceMismatch,
            DiscoveryError::UnsupportedVersion => DiscoveryFailure::UnsupportedVersion,
        }
    }
}

impl DiscoveryError {
    /// The error code that names the failure on the wire, where there
    /// is one.
    pub open spec fn code_spec(self) -> Option<ErrorCode> {
        match self {
            DiscoveryError::InvalidSignature => Some(ErrorCode::DiscoveryInvalidSignature),
            DiscoveryError::NonceMismatch => Some(ErrorCode::DiscoveryNonceMismatch),
            DiscoveryError::UnsupportedVersion => Some(ErrorCode::DiscoveryUnsupportedVersion),
            _ => None,
        }
    }

    /// The error code that names the failure on the wire, where there
    /// is one.
    pub fn code(&self) -> (code: Option<ErrorCode>)
        ensures
            code == self.code_spec(),
    {
        match self {
            DiscoveryError::InvalidSignature => Some(ErrorCode::DiscoveryInvalidSignature),
            DiscoveryError::NonceMismatch => Some(ErrorCode::DiscoveryNonceMismatch),
            DiscoveryError::UnsupportedVersion => Some(ErrorCode::DiscoveryUnsupportedVersion),
            _ => None,
        }
    }

    /// The reason as one line of text.
    pub open spec fn message_spec(self) -> Seq<char> {
        match self {
            DiscoveryError::Io(detail) => "socket error: "@ + detail@,
            DiscoveryError::Decode(detail) => "decode error: "@ + detail@,
            DiscoveryError::InvalidSignature => "signature invalid"@,
            DiscoveryError::NonceMismatch => "nonce mismatch"@,
            DiscoveryError::UnsupportedVersion => "unsupported version"@,
        }
    }

    /// The reason as one line of text.
    pub fn message(&self) -> (text: String)
        ensures
            text@ == self.message_spec(),
    {
        match self {
            DiscoveryError::Io(detail) => String::from_str("socket error: ").concat(
                detail.as_str(),
            ),
            DiscoveryError::Decode(detail) => String::from_str("decode error: ").concat(
                detail.as_str(),
            ),
            DiscoveryError::InvalidSignature => String::from_str("signature invalid"),
            DiscoveryError::NonceMismatch => String::from_str("nonce mismatch"),
            DiscoveryError::UnsupportedVersion => String::from_str("unsupported version"),
        }
    }
}

/// Device-side responder.
#[derive(Debug)]
pub struct DiscoveryResponder {
    pub identity: DeviceIdentity,
    pub mac_address: String,
    pub capabilities: CapabilitySet,
    /// The seed of the node's Ed25519 signing key.
    pub signer: [u8; 32],
}

impl DiscoveryResponder {
    /// The signed reply to a request with `client_nonce`: it declares the
    /// node's identity, address and capabilities, and its signature is
    /// that of the node's nonce followed by the controller's.
    pub fn reply(&self, server_nonce: Vec<u8>, client_nonce: &[u8]) -> (reply: DiscoveryReply)
        ensures
            reply.message_type == MessageType::AlpineDiscoverReply,
            reply.alpine_version@ == ALPINE_VERSION@,
            reply.device_id == self.identity.device_id,
            reply.manufacturer_id == self.identity.manufacturer_id,
            reply.model_id == self.identity.model_id,
            reply.hardware_rev == self.identity.hardware_rev,
            reply.firmware_rev == self.identity.firmware_rev,
            reply.mac == self.mac_address,
            reply.server_nonce == server_nonce,
            reply.capabilities@ == self.capabilities@,
            reply.signature@ == ed25519_signature(self.signer@, server_nonce@ + client_nonce@),
    {
        let data = concat(server_nonce.as_slice(), client_nonce);
        let signature = ed25519_sign(&self.signer, data.as_slice());
        DiscoveryReply::new(
            &self.identity,
            self.mac_address.clone(),
            server_nonce,
            self.capabilities.clone(),
            to_vec(array_as_slice(&signature)),
        )
    }
}

/// Whether a request is one that a node of this version answers: a
/// discovery request that carries this version.
pub open spec fn request_supported(request: DiscoveryRequest) -> bool {
    request.message_type == MessageType::AlpineDiscover && request.version@ == ALPINE_VERSION@
}

impl DiscoveryResponder {
    /// Answers a discovery request: a request of another version, or a
    /// message that is no discovery request, is refused as an unsupported
    /// version; any other gets the signed reply that is bound to its
    /// nonce.
    pub fn answer(&self, request: &DiscoveryRequest, server_nonce: Vec<u8>) -> (answer: Result<
        DiscoveryReply,
        DiscoveryError,
    >)
        ensures
            match answer {
                Ok(reply) => {
                    &&& request_supported(*request)
                    &&& reply.message_type == MessageType::AlpineDiscoverReply
                    &&& reply.alpine_version@ == ALPINE_VERSION@
                    &&& reply.device_id == self.identity.device_id
                    &&& reply.manufacturer_id == self.identity.manufacturer_id
                    &&& reply.model_id == self.identity.model_id
                    &&& reply.hardware_rev == self.identity.hardware_rev
                    &&& reply.firmware_rev == self.identity.firmware_rev
                    &&& reply.mac == self.mac_address
                    &&& reply.server_nonce == server_nonce
                    &&& reply.capabilities@ == self.capabilities@
                    &&& reply.signature@ == ed25519_signature(
                        self.signer@,
                        server_nonce@ + request.client_nonce@,
                    )
                },
                Err(e) => !request_supported(*request) && e is UnsupportedVersion,
            },
    {
        match request.message_type {
            MessageType::AlpineDiscover => {},
            _ => {
                return Err(DiscoveryError::UnsupportedVersion);
            },
        }
        if !(request.version == String::from_str(ALPINE_VERSION)) {
            return Err(DiscoveryError::UnsupportedVersion);
        }
        Ok(self.reply(server_nonce, request.client_nonce.as_slice()))
    }
}

/// Why a reply is refused: it is no discovery reply or speaks another
/// version; or its signature has not 64 bytes or does not verify, under
/// the node's key, for the node's nonce followed by ours.
pub open spec fn reply_refusal(
    reply: DiscoveryReply,
    expected_client_nonce: Seq<u8>,
    verifier: Seq<u8>,
) -> Option<DiscoveryFailure> {
    if reply.message_type != MessageType::AlpineDiscoverReply {
        Some(DiscoveryFailure::UnsupportedVersion)
    } else if reply.alpine_version@ != ALPINE_VERSION@ {
        Some(DiscoveryFailure::UnsupportedVersion)
    } else if reply.signature@.len() != 64 || !ed25519_verifies(
        verifier,
        reply.server_nonce@ + expected_client_nonce,
        reply.signature@,
    ) {
        Some(DiscoveryFailure::InvalidSignature)
    } else {
        None
    }
}

/// Checks a discovery reply against the nonce of the request and the key
/// of the node it claims to come from.
pub fn verify_reply(reply: &DiscoveryReply, expected_client_nonce: &[u8], verifier: &[u8; 32]) -> (
checked: Result<(), DiscoveryError>)
    ensures
        match checked {
            Ok(_) => reply_refusal(*reply, expected_client_nonce@, verifier@) is None,
            Err(e) => reply_refusal(*reply, expected_client_nonce@, verifier@) == Some(e@),
        },
{
    match reply.message_type {
        MessageType::AlpineDiscoverReply => {},
        _ => {
            return Err(DiscoveryError::UnsupportedVersion);
        },
    }
    if !(reply.alpine_version == String::from_str(ALPINE_VERSION)) {
        return Err(DiscoveryError::UnsupportedVersion);
    }
    let data = concat(reply.server_nonce.as_slice(), expected_client_nonce);
    let signature = match to_array::<64>(reply.signature.as_slice()) {
        Some(signature) => signature,
        None => {
            return Err(DiscoveryError::InvalidSignature);
        },
    };
    if ed25519_verify(verifier, data.as_slice(), &signature) {
        Ok(())
    } else {
        Err(DiscoveryError::InvalidSignature)
    }
}

} // verus!
