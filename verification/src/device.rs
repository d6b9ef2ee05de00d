//! A node as a whole: what it needs to answer discovery and to accept a
//! session.

use crate::crypto::identity::NodeCredentials;
use crate::crypto::X25519KeyExchange;
use crate::discovery::DiscoveryResponder;
use crate::handshake::server::ServerHandshake;
use crate::handshake::HandshakeContext;
use crate::messages::{CapabilitySet, DeviceIdentity};
use crate::session::Ed25519Authenticator;
use vstd::prelude::*;

verus! {

/// Minimal device-side server skeleton that wires discovery and handshake
/// together.
#[derive(Debug)]
pub struct DeviceServer {
    pub identity: DeviceIdentity,
    pub mac_address: String,
    pub capabilities: CapabilitySet,
    pub credentials: NodeCredentials,
}

impl DeviceServer {
    /// Build a discovery responder that signs replies with the device
    /// credentials.
    pub fn discovery_responder(&self) -> (responder: DiscoveryResponder)
        ensures
            responder.identity == self.identity,
            responder.mac_address == self.mac_address,
            responder.capabilities@ == self.capabilities@,
            responder.signer == self.credentials.signing,
    {
        DiscoveryResponder {
            identity: self.identity.clone(),
            mac_address: self.mac_address.clone(),
            capabilities: self.capabilities.clone(),
            signer: self.credentials.signing,
        }
    }

    /// The handshake driver with which the device accepts one inbound
    /// session: it declares the device's identity and capabilities, signs
    /// with the device's credentials, brings a fresh X25519 key pair, and
    /// admits any controller.
    pub fn acceptor(&self) -> (driver: ServerHandshake<Ed25519Authenticator, X25519KeyExchange>)
        ensures
            driver.identity == self.identity,
            driver.capabilities@ == self.capabilities@,
            driver.authenticator.credentials() == self.credentials,
            driver.context.expected_controller is None,
    {
        ServerHandshake {
            identity: self.identity.clone(),
            capabilities: self.capabilities.clone(),
            authenticator: Ed25519Authenticator::new(self.credentials),
            key_exchange: X25519KeyExchange::new(),
            context: HandshakeContext::default(),
        }
    }
}

} // verus!
