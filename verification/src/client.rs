//! What the control plane hands back to an application: typed replies, and
//! one error type for everything that a client can meet.

use crate::handshake::HandshakeError;
use crate::messages::{Acknowledge, DeviceIdentity};
use crate::stream::StreamError;
use vstd::prelude::*;
use vstd::std_specs::convert::FromSpecImpl;
use vstd::string::StringExecFns;

verus! {

/// Errors emitted by a client.
#[derive(Debug)]
#[non_exhaustive]
pub enum AlpineSdkError {
    Io(String),
    Handshake(HandshakeError),
    Stream(StreamError),
}

impl AlpineSdkError {
    /// The reason as one line of text.
    pub open spec fn message_spec(self) -> Seq<char> {
        match self {
            AlpineSdkError::Io(detail) => "io error: "@ + detail@,
            AlpineSdkError::Handshake(error) => "handshake error: "@ + error.message_spec(),
            AlpineSdkError::Stream(error) => "stream error: "@ + error.message_spec(),
        }
    }

    /// The reason as one line of text.
    pub fn message(&self) -> (text: String)
        ensures
            text@ == self.message_spec(),
    {
        match self {
            AlpineSdkError::Io(detail) => String::from_str("io error: ").concat(detail.as_str()),
            AlpineSdkError::Handshake(error) => String::from_str("handshake error: ").concat(
                error.message().as_str(),
            ),
            AlpineSdkError::Stream(error) => String::from_str("stream error: ").concat(
                error.message().as_str(),
            ),
        }
    }
}

impl From<HandshakeError> for AlpineSdkError {
    fn from(error: HandshakeError) -> (converted: Self) {
        AlpineSdkError::Handshake(error)
    }
}

impl FromSpecImpl<HandshakeError> for AlpineSdkError {
    open spec fn obeys_from_spec() -> bool {
        true
    }

    open spec fn from_spec(error: HandshakeError) -> Self {
        AlpineSdkError::Handshake(error)
    }
}

impl From<StreamError> for AlpineSdkError {
    fn from(error: StreamError) -> (converted: Self) {
        AlpineSdkError::Stream(error)
    }
}

impl FromSpecImpl<StreamError> for AlpineSdkError {
    open spec fn obeys_from_spec() -> bool {
        true
    }

    open spec fn from_spec(error: StreamError) -> Self {
        AlpineSdkError::Stream(error)
    }
}

/// Typed control response: the ack, and the payload it carried as the
/// caller's codec decoded it.
#[derive(Debug)]
pub struct ControlReply<T> {
    pub ack: Acknowledge,
    pub payload: Option<T>,
}

impl<T> ControlReply<T> {
    /// Whether the peer carried the operation out.
    pub fn ok(&self) -> (ok: bool)
        ensures
            ok == self.ack.ok,
    {
        self.ack.ok
    }

    /// What the peer said of the operation.
    pub fn detail(&self) -> (detail: Option<&str>)
        ensures
            match detail {
                Some(text) => self.ack.detail matches Some(given) && text@ == given@,
                None => self.ack.detail is None,
            },
    {
        match &self.ack.detail {
            Some(text) => Some(text.as_str()),
            None => None,
        }
    }
}

/// Ping reply payload (may be partial depending on device support).
#[derive(Debug, PartialEq, Eq)]
pub struct PingReply {
    pub timestamp_ms: Option<u64>,
    pub message: Option<String>,
}

/// Status reply payload.
#[derive(Debug, PartialEq, Eq)]
pub struct StatusReply {
    pub healthy: Option<bool>,
    pub detail: Option<String>,
    pub uptime_secs: Option<u64>,
}

/// The fetched device identity.
pub type IdentityReply = DeviceIdentity;

} // verus!
