//! The message model: typed envelopes for discovery, handshake, control,
//! streaming and keepalive, and the closed sets of operations and error
//! codes.
//!
//! Every message carries its type as an explicit field. Octet strings are
//! `Vec<u8>`; maps with string keys are kept as lists of entries, whose
//! values the library hands through in their wire encoding.

use crate::bytes::to_vec;
use crate::session_id::SessionId;
use vstd::prelude::*;
use vstd::string::StringExecFns;

verus! {

/// The protocol version carried in discovery.
pub const ALPINE_VERSION: &'static str = "1.0";

/// Common envelope type identifiers used across the wire encoding.
#[derive(Debug, Clone, Copy, PartialEq, Eq, Structural)]
pub enum MessageType {
    AlpineDiscover,
    AlpineDiscoverReply,
    SessionInit,
    SessionAck,
    SessionReady,
    SessionComplete,
    AlpineControl,
    AlpineControlAck,
    AlpineFrame,
    Keepalive,
}

impl MessageType {
    /// The string tag of the type on the wire.
    pub open spec fn tag_spec(self) -> Seq<char> {
        match self {
            MessageType::AlpineDiscover => "alpine_discover"@,
            MessageType::AlpineDiscoverReply => "alpine_discover_reply"@,
            MessageType::SessionInit => "session_init"@,
            MessageType::SessionAck => "session_ack"@,
            MessageType::SessionReady => "session_ready"@,
            MessageType::SessionComplete => "session_complete"@,
            MessageType::AlpineControl => "alpine_control"@,
            MessageType::AlpineControlAck => "alpine_control_ack"@,
            MessageType::AlpineFrame => "alpine_frame"@,
            MessageType::Keepalive => "keepalive"@,
        }
    }

    /// The string tag of the type on the wire.
    pub fn tag(&self) -> (tag: &'static str)
        ensures
            tag@ == self.tag_spec(),
    {
        match self {
            MessageType::AlpineDiscover => "alpine_discover",
            MessageType::AlpineDiscoverReply => "alpine_discover_reply",
            MessageType::SessionInit => "session_init",
            MessageType::SessionAck => "session_ack",
            MessageType::SessionReady => "session_ready",
            MessageType::SessionComplete => "session_complete",
            MessageType::AlpineControl => "alpine_control",
            MessageType::AlpineControlAck => "alpine_control_ack",
            MessageType::AlpineFrame => "alpine_frame",
            MessageType::Keepalive => "keepalive",
        }
    }

    /// The type that a string tag stands for, if it is one of the ten.
    pub open spec fn from_tag_spec(tag: Seq<char>) -> Option<MessageType> {
        if tag == "alpine_discover"@ {
            Some(MessageType::AlpineDiscover)
        } else if tag == "alpine_discover_reply"@ {
            Some(MessageType::AlpineDiscoverReply)
        } else if tag == "session_init"@ {
            Some(MessageType::SessionInit)
        } else if tag == "session_ack"@ {
            Some(MessageType::SessionAck)
        } else if tag == "session_ready"@ {
            Some(MessageType::SessionReady)
        } else if tag == "session_complete"@ {
            Some(MessageType::SessionComplete)
        } else if tag == "alpine_control"@ {
            Some(MessageType::AlpineControl)
        } else if tag == "alpine_control_ack"@ {
            Some(MessageType::AlpineControlAck)
        } else if tag == "alpine_frame"@ {
            Some(MessageType::AlpineFrame)
        } else if tag == "keepalive"@ {
            Some(MessageType::Keepalive)
        } else {
            None
        }
    }

    /// The type that a string tag stands for, if it is one of the ten.
    pub fn from_tag(tag: &str) -> (found: Option<MessageType>)
        ensures
            found == MessageType::from_tag_spec(tag@),
    {
        let tag = String::from_str(tag);
        if tag == String::from_str("alpine_discover") {
            Some(MessageType::AlpineDiscover)
        } else if tag == String::from_str("alpine_discover_reply") {
            Some(MessageType::AlpineDiscoverReply)
        } else if tag == String::from_str("session_init") {
            Some(MessageType::SessionInit)
        } else if tag == String::from_str("session_ack") {
            Some(MessageType::SessionAck)
        } else if tag == String::from_str("session_ready") {
            Some(MessageType::SessionReady)
        } else if tag == String::from_str("session_complete") {
            Some(MessageType::SessionComplete)
        } else if tag == String::from_str("alpine_control") {
            Some(MessageType::AlpineControl)
        } else if tag == String::from_str("alpine_control_ack") {
            Some(MessageType::AlpineControlAck)
        } else if tag == String::from_str("alpine_frame") {
            Some(MessageType::AlpineFrame)
        } else if tag == String::from_str("keepalive") {
            Some(MessageType::Keepalive)
        } else {
            None
        }
    }
}

/// The string tags tell the message types apart: reading the tag of a type
/// gives that type back.
pub proof fn lemma_tag_round_trip(message_type: MessageType)
    ensures
        MessageType::from_tag_spec(message_type.tag_spec()) == Some(message_type),
{
    reveal_strlit("alpine_discover");
    reveal_strlit("alpine_discover_reply");
    reveal_strlit("session_init");
    reveal_strlit("session_ack");
    reveal_strlit("session_ready");
    reveal_strlit("session_complete");
    reveal_strlit("alpine_control");
    reveal_strlit("alpine_control_ack");
    reveal_strlit("alpine_frame");
    reveal_strlit("keepalive");
    assert("alpine_discover"@.len() == 15);
    assert("alpine_discover_reply"@.len() == 21);
    assert("session_init"@.len() == 12);
    assert("session_ack"@.len() == 11);
    assert("session_ready"@.len() == 13);
    assert("session_complete"@.len() == 16);
    assert("alpine_control"@.len() == 14);
    assert("alpine_control_ack"@.len() == 18);
    assert("alpine_frame"@.len() == 12);
    assert("keepalive"@.len() == 9);
    assert("session_init"@[0] == 's');
    assert("alpine_frame"@[0] == 'a');
}

/// Supported channel encodings for frames.
#[derive(Debug, Clone, Copy, PartialEq, Eq, Structural)]
pub enum ChannelFormat {
    U8,
    U16,
}

impl ChannelFormat {
    /// The name of the format on the wire.
    pub open spec fn tag_spec(self) -> Seq<char> {
        match self {
            ChannelFormat::U8 => "u8"@,
            ChannelFormat::U16 => "u16"@,
        }
    }

    /// The name of the format on the wire.
    pub fn tag(&self) -> (text: &'static str)
        ensures
            text@ == self.tag_spec(),
    {
        match self {
            ChannelFormat::U8 => "u8",
            ChannelFormat::U16 => "u16",
        }
    }

    /// The format that a name stands for, if it is one of the two.
    pub open spec fn from_tag_spec(text: Seq<char>) -> Option<ChannelFormat> {
        if text == "u8"@ {
            Some(ChannelFormat::U8)
        } else if text == "u16"@ {
            Some(ChannelFormat::U16)
        } else {
            None
        }
    }

    /// The format that a name stands for, if it is one of the two.
    pub fn from_tag(text: &str) -> (found: Option<ChannelFormat>)
        ensures
            found == ChannelFormat::from_tag_spec(text@),
    {
        let text = String::from_str(text);
        if text == String::from_str("u8") {
            Some(ChannelFormat::U8)
        } else if text == String::from_str("u16") {
            Some(ChannelFormat::U16)
        } else {
            None
        }
    }
}

/// The names tell the channel formats apart.
pub proof fn lemma_channel_format_round_trip(value: ChannelFormat)
    ensures
        ChannelFormat::from_tag_spec(value.tag_spec()) == Some(value),
{
    reveal_strlit("u8");
    reveal_strlit("u16");
    assert("u8"@.len() == 2);
    assert("u16"@.len() == 3);
}

/// Control operations of the control plane.
#[derive(Debug, Clone, Copy, PartialEq, Eq, Structural)]
pub enum ControlOp {
    GetInfo,
    GetCaps,
    Identify,
    Restart,
    GetStatus,
    SetConfig,
    SetMode,
    TimeSync,
    Vendor,
}

impl ControlOp {
    /// The name of the operation on the wire.
    pub open spec fn tag_spec(self) -> Seq<char> {
        match self {
            ControlOp::GetInfo => "get_info"@,
            ControlOp::GetCaps => "get_caps"@,
            ControlOp::Identify => "identify"@,
            ControlOp::Restart => "restart"@,
            ControlOp::GetStatus => "get_status"@,
            ControlOp::SetConfig => "set_config"@,
            ControlOp::SetMode => "set_mode"@,
            ControlOp::TimeSync => "time_sync"@,
            ControlOp::Vendor => "vendor"@,
        }
    }

    /// The name of the operation on the wire.
    pub fn tag(&self) -> (text: &'static str)
        ensures
            text@ == self.tag_spec(),
    {
        match self {
            ControlOp::GetInfo => "get_info",
            ControlOp::GetCaps => "get_caps",
            ControlOp::Identify => "identify",
            ControlOp::Restart => "restart",
            ControlOp::GetStatus => "get_status",
            ControlOp::SetConfig => "set_config",
            ControlOp::SetMode => "set_mode",
            ControlOp::TimeSync => "time_sync",
            ControlOp::Vendor => "vendor",
        }
    }

    /// The operation that a name stands for, if it is one of the nine.
    pub open spec fn from_tag_spec(text: Seq<char>) -> Option<ControlOp> {
        if text == "get_info"@ {
            Some(ControlOp::GetInfo)
        } else if text == "get_caps"@ {
            Some(ControlOp::GetCaps)
        } else if text == "identify"@ {
            Some(ControlOp::Identify)
        } else if text == "restart"@ {
            Some(ControlOp::Restart)
        } else if text == "get_status"@ {
            Some(ControlOp::GetStatus)
        } else if text == "set_config"@ {
            Some(ControlOp::SetConfig)
        } else if text == "set_mode"@ {
            Some(ControlOp::SetMode)
        } else if text == "time_sync"@ {
            Some(ControlOp::TimeSync)
        } else if text == "vendor"@ {
            Some(ControlOp::Vendor)
        } else {
            None
        }
    }

    /// The operation that a name stands for, if it is one of the nine.
    pub fn from_tag(text: &str) -> (found: Option<ControlOp>)
        ensures
            found == ControlOp::from_tag_spec(text@),
    {
        let text = String::from_str(text);
        if text == String::from_str("get_info") {
            Some(ControlOp::GetInfo)
        } else if text == String::from_str("get_caps") {
            Some(ControlOp::GetCaps)
        } else if text == String::from_str("identify") {
            Some(ControlOp::Identify)
        } else if text == String::from_str("restart") {
            Some(ControlOp::Restart)
        } else if text == String::from_str("get_status") {
            Some(ControlOp::GetStatus)
        } else if text == String::from_str("set_config") {
            Some(ControlOp::SetConfig)
        } else if text == String::from_str("set_mode") {
            Some(ControlOp::SetMode)
        } else if text == String::from_str("time_sync") {
            Some(ControlOp::TimeSync)
        } else if text == String::from_str("vendor") {
            Some(ControlOp::Vendor)
        } else {
            None
        }
    }
}

/// The names tell the control operations apart: reading the name of an operation
/// gives that operation back.
pub proof fn lemma_control_op_round_trip(value: ControlOp)
    ensures
        ControlOp::from_tag_spec(value.tag_spec()) == Some(value),
{
    reveal_strlit("get_info");
    reveal_strlit("get_caps");
    reveal_strlit("identify");
    reveal_strlit("restart");
    reveal_strlit("get_status");
    reveal_strlit("set_config");
    reveal_strlit("set_mode");
    reveal_strlit("time_sync");
    reveal_strlit("vendor");
    assert("get_info"@.len() == 8);
    assert("get_caps"@.len() == 8);
    assert("identify"@.len() == 8);
    assert("restart"@.len() == 7);
    assert("get_status"@.len() == 10);
    assert("set_config"@.len() == 10);
    assert("set_mode"@.len() == 8);
    assert("time_sync"@.len() == 9);
    assert("vendor"@.len() == 6);
    assert("get_info"@[4] == 'i');
    assert("get_caps"@[4] == 'c');
    assert("get_info"@[0] == 'g');
    assert("identify"@[0] == 'i');
    assert("set_mode"@[0] == 's');
    assert("get_caps"@[0] == 'g');
    assert("get_status"@[0] == 'g');
    assert("set_config"@[0] == 's');
}

/// The operating mode of a node. Only the normal mode lets frames out.
#[derive(Debug, Clone, Copy, PartialEq, Eq, Structural)]
pub enum OperatingMode {
    Normal,
    Calibration,
    Maintenance,
}

/// The phase of the protocol that an error code belongs to.
#[derive(Debug, Clone, Copy, PartialEq, Eq, Structural)]
pub enum ErrorPhase {
    Discovery,
    Handshake,
    Session,
    Control,
    Stream,
}

/// Standard error codes.
#[derive(Debug, Clone, Copy, PartialEq, Eq, Structural)]
pub enum ErrorCode {
    DiscoveryInvalidSignature,
    DiscoveryNonceMismatch,
    DiscoveryUnsupportedVersion,
    HandshakeSignatureInvalid,
    HandshakeKeyDerivationFailed,
    HandshakeTimeout,
    HandshakeReplay,
    SessionExpired,
    SessionInvalidToken,
    SessionMacMismatch,
    ControlUnknownOp,
    ControlPayloadInvalid,
    ControlUnauthorized,
    StreamBadFormat,
    StreamTooLarge,
    StreamUnsupportedChannelMode,
}

impl ErrorCode {
    /// The phase that the code is grouped under.
    pub open spec fn phase_spec(self) -> ErrorPhase {
        match self {
            ErrorCode::DiscoveryInvalidSignature
            | ErrorCode::DiscoveryNonceMismatch
            | ErrorCode::DiscoveryUnsupportedVersion => ErrorPhase::Discovery,
            ErrorCode::HandshakeSignatureInvalid
            | ErrorCode::HandshakeKeyDerivationFailed
            | ErrorCode::HandshakeTimeout
            | ErrorCode::HandshakeReplay => ErrorPhase::Handshake,
            ErrorCode::SessionExpired
            | ErrorCode::SessionInvalidToken
            | ErrorCode::SessionMacMismatch => ErrorPhase::Session,
            ErrorCode::ControlUnknownOp
            | ErrorCode::ControlPayloadInvalid
            | ErrorCode::ControlUnauthorized => ErrorPhase::Control,
            ErrorCode::StreamBadFormat
            | ErrorCode::StreamTooLarge
            | ErrorCode::StreamUnsupportedChannelMode => ErrorPhase::Stream,
        }
    }

    /// The phase that the code is grouped under.
    pub fn phase(&self) -> (phase: ErrorPhase)
        ensures
            phase == self.phase_spec(),
    {
        match self {
            ErrorCode::DiscoveryInvalidSignature
            | ErrorCode::DiscoveryNonceMismatch
            | ErrorCode::DiscoveryUnsupportedVersion => ErrorPhase::Discovery,
            ErrorCode::HandshakeSignatureInvalid
            | ErrorCode::HandshakeKeyDerivationFailed
            | ErrorCode::HandshakeTimeout
            | ErrorCode::HandshakeReplay => ErrorPhase::Handshake,
            ErrorCode::SessionExpired
            | ErrorCode::SessionInvalidToken
            | ErrorCode::SessionMacMismatch => ErrorPhase::Session,
            ErrorCode::ControlUnknownOp
            | ErrorCode::ControlPayloadInvalid
            | ErrorCode::ControlUnauthorized => ErrorPhase::Control,
            ErrorCode::StreamBadFormat
            | ErrorCode::StreamTooLarge
            | ErrorCode::StreamUnsupportedChannelMode => ErrorPhase::Stream,
        }
    }

    /// The code as it is written on the wire.
    pub open spec fn name_spec(self) -> Seq<char> {
        match self {
            ErrorCode::DiscoveryInvalidSignature => "DISCOVERY_INVALID_SIGNATURE"@,
            ErrorCode::DiscoveryNonceMismatch => "DISCOVERY_NONCE_MISMATCH"@,
            ErrorCode::DiscoveryUnsupportedVersion => "DISCOVERY_UNSUPPORTED_VERSION"@,
            ErrorCode::HandshakeSignatureInvalid => "HANDSHAKE_SIGNATURE_INVALID"@,
            ErrorCode::HandshakeKeyDerivationFailed => "HANDSHAKE_KEY_DERIVATION_FAILED"@,
            ErrorCode::HandshakeTimeout => "HANDSHAKE_TIMEOUT"@,
            ErrorCode::HandshakeReplay => "HANDSHAKE_REPLAY"@,
            ErrorCode::SessionExpired => "SESSION_EXPIRED"@,
            ErrorCode::SessionInvalidToken => "SESSION_INVALID_TOKEN"@,
            ErrorCode::SessionMacMismatch => "SESSION_MAC_MISMATCH"@,
            ErrorCode::ControlUnknownOp => "CONTROL_UNKNOWN_OP"@,
            ErrorCode::ControlPayloadInvalid => "CONTROL_PAYLOAD_INVALID"@,
            ErrorCode::ControlUnauthorized => "CONTROL_UNAUTHORIZED"@,
            ErrorCode::StreamBadFormat => "STREAM_BAD_FORMAT"@,
            ErrorCode::StreamTooLarge => "STREAM_TOO_LARGE"@,
            ErrorCode::StreamUnsupportedChannelMode => "STREAM_UNSUPPORTED_CHANNEL_MODE"@,
        }
    }

    /// The code as it is written on the wire.
    pub fn name(&self) -> (name: &'static str)
        ensures
            name@ == self.name_spec(),
    {
        match self {
            ErrorCode::DiscoveryInvalidSignature => "DISCOVERY_INVALID_SIGNATURE",
            ErrorCode::DiscoveryNonceMismatch => "DISCOVERY_NONCE_MISMATCH",
            ErrorCode::DiscoveryUnsupportedVersion => "DISCOVERY_UNSUPPORTED_VERSION",
            ErrorCode::HandshakeSignatureInvalid => "HANDSHAKE_SIGNATURE_INVALID",
            ErrorCode::HandshakeKeyDerivationFailed => "HANDSHAKE_KEY_DERIVATION_FAILED",
            ErrorCode::HandshakeTimeout => "HANDSHAKE_TIMEOUT",
            ErrorCode::HandshakeReplay => "HANDSHAKE_REPLAY",
            ErrorCode::SessionExpired => "SESSION_EXPIRED",
            ErrorCode::SessionInvalidToken => "SESSION_INVALID_TOKEN",
            ErrorCode::SessionMacMismatch => "SESSION_MAC_MISMATCH",
            ErrorCode::ControlUnknownOp => "CONTROL_UNKNOWN_OP",
            ErrorCode::ControlPayloadInvalid => "CONTROL_PAYLOAD_INVALID",
            ErrorCode::ControlUnauthorized => "CONTROL_UNAUTHORIZED",
            ErrorCode::StreamBadFormat => "STREAM_BAD_FORMAT",
            ErrorCode::StreamTooLarge => "STREAM_TOO_LARGE",
            ErrorCode::StreamUnsupportedChannelMode => "STREAM_UNSUPPORTED_CHANNEL_MODE",
        }
    }
}

impl ErrorCode {
    /// The code that a name stands for, if it is one of the sixteen.
    pub open spec fn from_name_spec(text: Seq<char>) -> Option<ErrorCode> {
        if text == "DISCOVERY_INVALID_SIGNATURE"@ {
            Some(ErrorCode::DiscoveryInvalidSignature)
        } else if text == "DISCOVERY_NONCE_MISMATCH"@ {
            Some(ErrorCode::DiscoveryNonceMismatch)
        } else if text == "DISCOVERY_UNSUPPORTED_VERSION"@ {
            Some(ErrorCode::DiscoveryUnsupportedVersion)
        } else if text == "HANDSHAKE_SIGNATURE_INVALID"@ {
            Some(ErrorCode::HandshakeSignatureInvalid)
        } else if text == "HANDSHAKE_KEY_DERIVATION_FAILED"@ {
            Some(ErrorCode::HandshakeKeyDerivationFailed)
        } else if text == "HANDSHAKE_TIMEOUT"@ {
            Some(ErrorCode::HandshakeTimeout)
        } else if text == "HANDSHAKE_REPLAY"@ {
            Some(ErrorCode::HandshakeReplay)
        } else if text == "SESSION_EXPIRED"@ {
            Some(ErrorCode::SessionExpired)
        } else if text == "SESSION_INVALID_TOKEN"@ {
            Some(ErrorCode::SessionInvalidToken)
        } else if text == "SESSION_MAC_MISMATCH"@ {
            Some(ErrorCode::SessionMacMismatch)
        } else if text == "CONTROL_UNKNOWN_OP"@ {
            Some(ErrorCode::ControlUnknownOp)
        } else if text == "CONTROL_PAYLOAD_INVALID"@ {
            Some(ErrorCode::ControlPayloadInvalid)
        } else if text == "CONTROL_UNAUTHORIZED"@ {
            Some(ErrorCode::ControlUnauthorized)
        } else if text == "STREAM_BAD_FORMAT"@ {
            Some(ErrorCode::StreamBadFormat)
        } else if text == "STREAM_TOO_LARGE"@ {
            Some(ErrorCode::StreamTooLarge)
        } else if text == "STREAM_UNSUPPORTED_CHANNEL_MODE"@ {
            Some(ErrorCode::StreamUnsupportedChannelMode)
        } else {
            None
        }
    }

    /// The code that a name stands for, if it is one of the sixteen.
    pub fn from_name(text: &str) -> (found: Option<ErrorCode>)
        ensures
            found == ErrorCode::from_name_spec(text@),
    {
        let text = String::from_str(text);
        if text == String::from_str("DISCOVERY_INVALID_SIGNATURE") {
            Some(ErrorCode::DiscoveryInvalidSignature)
        } else if text == String::from_str("DISCOVERY_NONCE_MISMATCH") {
            Some(ErrorCode::DiscoveryNonceMismatch)
        } else if text == String::from_str("DISCOVERY_UNSUPPORTED_VERSION") {
            Some(ErrorCode::DiscoveryUnsupportedVersion)
        } else if text == String::from_str("HANDSHAKE_SIGNATURE_INVALID") {
            Some(ErrorCode::HandshakeSignatureInvalid)
        } else if text == String::from_str("HANDSHAKE_KEY_DERIVATION_FAILED") {
            Some(ErrorCode::HandshakeKeyDerivationFailed)
        } else if text == String::from_str("HANDSHAKE_TIMEOUT") {
            Some(ErrorCode::HandshakeTimeout)
        } else if text == String::from_str("HANDSHAKE_REPLAY") {
            Some(ErrorCode::HandshakeReplay)
        } else if text == String::from_str("SESSION_EXPIRED") {
            Some(ErrorCode::SessionExpired)
        } else if text == String::from_str("SESSION_INVALID_TOKEN") {
            Some(ErrorCode::SessionInvalidToken)
        } else if text == String::from_str("SESSION_MAC_MISMATCH") {
            Some(ErrorCode::SessionMacMismatch)
        } else if text == String::from_str("CONTROL_UNKNOWN_OP") {
            Some(ErrorCode::ControlUnknownOp)
        } else if text == String::from_str("CONTROL_PAYLOAD_INVALID") {
            Some(ErrorCode::ControlPayloadInvalid)
        } else if text == String::from_str("CONTROL_UNAUTHORIZED") {
            Some(ErrorCode::ControlUnauthorized)
        } else if text == String::from_str("STREAM_BAD_FORMAT") {
            Some(ErrorCode::StreamBadFormat)
        } else if text == String::from_str("STREAM_TOO_LARGE") {
            Some(ErrorCode::StreamTooLarge)
        } else if text == String::from_str("STREAM_UNSUPPORTED_CHANNEL_MODE") {
            Some(ErrorCode::StreamUnsupportedChannelMode)
        } else {
            None
        }
    }
}

/// The names tell the error codes apart: reading the name of a code gives that
/// code back.
pub proof fn lemma_error_code_round_trip(value: ErrorCode)
    ensures
        ErrorCode::from_name_spec(value.name_spec()) == Some(value),
{
    reveal_strlit("DISCOVERY_INVALID_SIGNATURE");
    reveal_strlit("DISCOVERY_NONCE_MISMATCH");
    reveal_strlit("DISCOVERY_UNSUPPORTED_VERSION");
    reveal_strlit("HANDSHAKE_SIGNATURE_INVALID");
    reveal_strlit("HANDSHAKE_KEY_DERIVATION_FAILED");
    reveal_strlit("HANDSHAKE_TIMEOUT");
    reveal_strlit("HANDSHAKE_REPLAY");
    reveal_strlit("SESSION_EXPIRED");
    reveal_strlit("SESSION_INVALID_TOKEN");
    reveal_strlit("SESSION_MAC_MISMATCH");
    reveal_strlit("CONTROL_UNKNOWN_OP");
    reveal_strlit("CONTROL_PAYLOAD_INVALID");
    reveal_strlit("CONTROL_UNAUTHORIZED");
    reveal_strlit("STREAM_BAD_FORMAT");
    reveal_strlit("STREAM_TOO_LARGE");
    reveal_strlit("STREAM_UNSUPPORTED_CHANNEL_MODE");
    assert("DISCOVERY_INVALID_SIGNATURE"@.len() == 27);
    assert("DISCOVERY_NONCE_MISMATCH"@.len() == 24);
    assert("DISCOVERY_UNSUPPORTED_VERSION"@.len() == 29);
    assert("HANDSHAKE_SIGNATURE_INVALID"@.len() == 27);
    assert("HANDSHAKE_KEY_DERIVATION_FAILED"@.len() == 31);
    assert("HANDSHAKE_TIMEOUT"@.len() == 17);
    assert("HANDSHAKE_REPLAY"@.len() == 16);
    assert("SESSION_EXPIRED"@.len() == 15);
    assert("SESSION_INVALID_TOKEN"@.len() == 21);
    assert("SESSION_MAC_MISMATCH"@.len() == 20);
    assert("CONTROL_UNKNOWN_OP"@.len() == 18);
    assert("CONTROL_PAYLOAD_INVALID"@.len() == 23);
    assert("CONTROL_UNAUTHORIZED"@.len() == 20);
    assert("STREAM_BAD_FORMAT"@.len() == 17);
    assert("STREAM_TOO_LARGE"@.len() == 16);
    assert("STREAM_UNSUPPORTED_CHANNEL_MODE"@.len() == 31);
    assert("DISCOVERY_INVALID_SIGNATURE"@[0] == 'D');
    assert("HANDSHAKE_SIGNATURE_INVALID"@[0] == 'H');
    assert("HANDSHAKE_KEY_DERIVATION_FAILED"@[0] == 'H');
    assert("STREAM_UNSUPPORTED_CHANNEL_MODE"@[0] == 'S');
    assert("HANDSHAKE_TIMEOUT"@[0] == 'H');
    assert("STREAM_BAD_FORMAT"@[0] == 'S');
    assert("HANDSHAKE_REPLAY"@[0] == 'H');
    assert("STREAM_TOO_LARGE"@[0] == 'S');
    assert("SESSION_MAC_MISMATCH"@[0] == 'S');
    assert("CONTROL_UNAUTHORIZED"@[0] == 'C');
}

/// Device identity tuple exchanged during discovery and handshake.
#[derive(Debug, PartialEq, Eq)]
pub struct DeviceIdentity {
    pub device_id: String,
    pub manufacturer_id: String,
    pub model_id: String,
    pub hardware_rev: String,
    pub firmware_rev: String,
}

impl Clone for DeviceIdentity {
    fn clone(&self) -> (copy: Self)
        ensures
            copy == *self,
    {
        DeviceIdentity {
            device_id: self.device_id.clone(),
            manufacturer_id: self.manufacturer_id.clone(),
            model_id: self.model_id.clone(),
            hardware_rev: self.hardware_rev.clone(),
            firmware_rev: self.firmware_rev.clone(),
        }
    }
}

/// One vendor extension of a capability set: a key and the wire encoding of
/// its value.
#[derive(Debug, PartialEq, Eq)]
pub struct VendorExtension {
    pub key: String,
    pub value: Vec<u8>,
}

impl View for VendorExtension {
    type V = (Seq<char>, Seq<u8>);

    open spec fn view(&self) -> (Seq<char>, Seq<u8>) {
        (self.key@, self.value@)
    }
}

impl Clone for VendorExtension {
    fn clone(&self) -> (copy: Self)
        ensures
            copy@ == self@,
    {
        VendorExtension { key: self.key.clone(), value: to_vec(self.value.as_slice()) }
    }
}

/// Declared capabilities of a controller or node.
#[derive(Debug, PartialEq)]
pub struct CapabilitySet {
    pub channel_formats: Vec<ChannelFormat>,
    pub max_channels: u32,
    pub grouping_supported: bool,
    pub streaming_supported: bool,
    pub encryption_supported: bool,
    pub vendor_extensions: Option<Vec<VendorExtension>>,
}

/// The mathematical content of a [`CapabilitySet`].
pub struct Capabilities {
    pub channel_formats: Seq<ChannelFormat>,
    pub max_channels: u32,
    pub grouping_supported: bool,
    pub streaming_supported: bool,
    pub encryption_supported: bool,
    pub vendor_extensions: Option<Seq<(Seq<char>, Seq<u8>)>>,
}

impl View for CapabilitySet {
    type V = Capabilities;

    open spec fn view(&self) -> Capabilities {
        Capabilities {
            channel_formats: self.channel_formats@,
            max_channels: self.max_channels,
            grouping_supported: self.grouping_supported,
            streaming_supported: self.streaming_supported,
            encryption_supported: self.encryption_supported,
            vendor_extensions: match self.vendor_extensions {
                Some(list) => Some(list@.map_values(|e: VendorExtension| e@)),
                None => None,
            },
        }
    }
}

fn clone_formats(formats: &Vec<ChannelFormat>) -> (copy: Vec<ChannelFormat>)
    ensures
        copy@ == formats@,
{
    let mut copy: Vec<ChannelFormat> = Vec::new();
    let mut i: usize = 0;
    while i < formats.len()
        invariant
            i <= formats.len(),
            copy@ == formats@.subrange(0, i as int),
        decreases formats.len() - i,
    {
        copy.push(formats[i]);
        i += 1;
        assert(copy@ =~= formats@.subrange(0, i as int));
    }
    assert(formats@.subrange(0, formats.len() as int) =~= formats@);
    copy
}

fn clone_extensions(list: &Vec<VendorExtension>) -> (copy: Vec<VendorExtension>)
    ensures
        copy@.map_values(|e: VendorExtension| e@) == list@.map_values(|e: VendorExtension| e@),
{
    let mut copy: Vec<VendorExtension> = Vec::new();
    let mut i: usize = 0;
    while i < list.len()
        invariant
            i <= list.len(),
            copy@.len() == i,
            forall|j: int| 0 <= j < i ==> (#[trigger] copy@[j])@ == list@[j]@,
        decreases list.len() - i,
    {
        copy.push(list[i].clone());
        i += 1;
    }
    assert(copy@.map_values(|e: VendorExtension| e@) =~= list@.map_values(
        |e: VendorExtension| e@,
    ));
    copy
}

impl Clone for CapabilitySet {
    fn clone(&self) -> (copy: Self)
        ensures
            copy@ == self@,
    {
        CapabilitySet {
            channel_formats: clone_formats(&self.channel_formats),
            max_channels: self.max_channels,
            grouping_supported: self.grouping_supported,
            streaming_supported: self.streaming_supported,
            encryption_supported: self.encryption_supported,
            vendor_extensions: match &self.vendor_extensions {
                Some(list) => Some(clone_extensions(list)),
                None => None,
            },
        }
    }
}

impl Default for CapabilitySet {
    /// The capabilities of a plain node: 512 eight-bit channels, streaming
    /// and encryption, no grouping, no extensions.
    fn default() -> (caps: Self)
        ensures
            caps@.channel_formats == seq![ChannelFormat::U8],
            caps@.max_channels == 512,
            !caps@.grouping_supported,
            caps@.streaming_supported,
            caps@.encryption_supported,
            caps@.vendor_extensions is None,
    {
        let mut channel_formats: Vec<ChannelFormat> = Vec::new();
        channel_formats.push(ChannelFormat::U8);
        assert(channel_formats@ =~= seq![ChannelFormat::U8]);
        CapabilitySet {
            channel_formats,
            max_channels: 512,
            grouping_supported: false,
            streaming_supported: true,
            encryption_supported: true,
            vendor_extensions: None,
        }
    }
}

/// Discovery request broadcast by controllers.
#[derive(Debug, PartialEq)]
pub struct DiscoveryRequest {
    pub message_type: MessageType,
    pub version: String,
    pub client_nonce: Vec<u8>,
    pub requested: Vec<String>,
}

impl DiscoveryRequest {
    /// A request of the current protocol version.
    pub fn new(requested: Vec<String>, client_nonce: Vec<u8>) -> (request: Self)
        ensures
            request.message_type == MessageType::AlpineDiscover,
            request.version@ == ALPINE_VERSION@,
            request.client_nonce == client_nonce,
            request.requested == requested,
    {
        DiscoveryRequest {
            message_type: MessageType::AlpineDiscover,
            version: String::from_str(ALPINE_VERSION),
            client_nonce,
            requested,
        }
    }
}

/// Discovery reply signed by the device.
#[derive(Debug, PartialEq)]
pub struct DiscoveryReply {
    pub message_type: MessageType,
    pub alpine_version: String,
    pub device_id: String,
    pub manufacturer_id: String,
    pub model_id: String,
    pub hardware_rev: String,
    pub firmware_rev: String,
    pub mac: String,
    pub server_nonce: Vec<u8>,
    pub capabilities: CapabilitySet,
    pub signature: Vec<u8>,
}

impl DiscoveryReply {
    /// A reply of the current protocol version that declares `identity`.
    pub fn new(
        identity: &DeviceIdentity,
        mac: String,
        server_nonce: Vec<u8>,
        capabilities: CapabilitySet,
        signature: Vec<u8>,
    ) -> (reply: Self)
        ensures
            reply.message_type == MessageType::AlpineDiscoverReply,
            reply.alpine_version@ == ALPINE_VERSION@,
            reply.device_id == identity.device_id,
            reply.manufacturer_id == identity.manufacturer_id,
            reply.model_id == identity.model_id,
            reply.hardware_rev == identity.hardware_rev,
            reply.firmware_rev == identity.firmware_rev,
            reply.mac == mac,
            reply.server_nonce == server_nonce,
            reply.capabilities == capabilities,
            reply.signature == signature,
    {
        DiscoveryReply {
            message_type: MessageType::AlpineDiscoverReply,
            alpine_version: String::from_str(ALPINE_VERSION),
            device_id: identity.device_id.clone(),
            manufacturer_id: identity.manufacturer_id.clone(),
            model_id: identity.model_id.clone(),
            hardware_rev: identity.hardware_rev.clone(),
            firmware_rev: identity.firmware_rev.clone(),
            mac,
            server_nonce,
            capabilities,
            signature,
        }
    }
}

/// Handshake `session_init` payload.
#[derive(Debug, PartialEq)]
pub struct SessionInit {
    pub message_type: MessageType,
    pub controller_nonce: Vec<u8>,
    pub controller_pubkey: Vec<u8>,
    pub requested: CapabilitySet,
    pub session_id: SessionId,
}

/// Handshake `session_ack` payload.
#[derive(Debug, PartialEq)]
pub struct SessionAck {
    pub message_type: MessageType,
    pub device_nonce: Vec<u8>,
    pub device_pubkey: Vec<u8>,
    pub device_identity: DeviceIdentity,
    pub capabilities: CapabilitySet,
    pub signature: Vec<u8>,
    pub session_id: SessionId,
}

/// Controller readiness marker after keys are derived.
#[derive(Debug, PartialEq)]
pub struct SessionReady {
    pub message_type: MessageType,
    pub session_id: SessionId,
    pub mac: Vec<u8>,
}

/// Device completion acknowledgement.
#[derive(Debug, PartialEq)]
pub struct SessionComplete {
    pub message_type: MessageType,
    pub session_id: SessionId,
    pub ok: bool,
    pub error: Option<ErrorCode>,
}

/// What both ends hold once a handshake has completed.
#[derive(Debug, PartialEq)]
pub struct SessionEstablished {
    pub session_id: SessionId,
    pub controller_nonce: Vec<u8>,
    pub device_nonce: Vec<u8>,
    pub capabilities: CapabilitySet,
    pub device_identity: DeviceIdentity,
}

impl Clone for SessionEstablished {
    fn clone(&self) -> (copy: Self)
        ensures
            copy.session_id == self.session_id,
            copy.controller_nonce@ == self.controller_nonce@,
            copy.device_nonce@ == self.device_nonce@,
            copy.capabilities@ == self.capabilities@,
            copy.device_identity == self.device_identity,
    {
        SessionEstablished {
            session_id: self.session_id,
            controller_nonce: to_vec(self.controller_nonce.as_slice()),
            device_nonce: to_vec(self.device_nonce.as_slice()),
            capabilities: self.capabilities.clone(),
            device_identity: self.device_identity.clone(),
        }
    }
}

/// Standard control-plane header for replay protection and ordering.
#[derive(Debug, PartialEq)]
pub struct ControlHeader {
    pub seq: u64,
    pub nonce: Vec<u8>,
    pub timestamp_ms: u64,
}

/// Control-plane envelope with authenticated payload. The payload is held in
/// its wire encoding, which is what the tag covers.
#[derive(Debug, PartialEq)]
pub struct ControlEnvelope {
    pub message_type: MessageType,
    pub session_id: SessionId,
    pub header: ControlHeader,
    pub op: ControlOp,
    pub payload: Vec<u8>,
    pub mac: Vec<u8>,
}

/// Ack for control-plane operations.
#[derive(Debug, PartialEq)]
pub struct Acknowledge {
    pub message_type: MessageType,
    pub session_id: SessionId,
    pub header: ControlHeader,
    pub ok: bool,
    pub detail: Option<String>,
    pub payload: Option<Vec<u8>>,
    pub mac: Vec<u8>,
}

/// A named group of channel values in a frame.
#[derive(Debug, PartialEq)]
pub struct ChannelGroup {
    pub name: String,
    pub channels: Vec<u16>,
}

/// A value inside a metadata record.
#[derive(Debug, PartialEq)]
pub enum MetadataScalar {
    Flag(bool),
    Number(u64),
    Text(String),
}

/// The mathematical content of a [`MetadataScalar`].
pub enum ScalarModel {
    Flag(bool),
    Number(u64),
    Text(Seq<char>),
}

impl View for MetadataScalar {
    type V = ScalarModel;

    open spec fn view(&self) -> ScalarModel {
        match self {
            MetadataScalar::Flag(b) => ScalarModel::Flag(*b),
            MetadataScalar::Number(n) => ScalarModel::Number(*n),
            MetadataScalar::Text(s) => ScalarModel::Text(s@),
        }
    }
}

/// One field of a metadata record.
#[derive(Debug, PartialEq)]
pub struct MetadataField {
    pub name: String,
    pub value: MetadataScalar,
}

impl View for MetadataField {
    type V = (Seq<char>, ScalarModel);

    open spec fn view(&self) -> (Seq<char>, ScalarModel) {
        (self.name@, self.value@)
    }
}

/// The value of one metadata entry of a frame: a value of the caller's, in
/// its wire encoding, or a record that the streaming engine writes.
#[derive(Debug, PartialEq)]
pub enum MetadataValue {
    Encoded(Vec<u8>),
    Record(Vec<MetadataField>),
}

/// The mathematical content of a [`MetadataValue`].
pub enum ValueModel {
    Encoded(Seq<u8>),
    Record(Seq<(Seq<char>, ScalarModel)>),
}

impl View for MetadataValue {
    type V = ValueModel;

    open spec fn view(&self) -> ValueModel {
        match self {
            MetadataValue::Encoded(bytes) => ValueModel::Encoded(bytes@),
            MetadataValue::Record(fields) => ValueModel::Record(
                fields@.map_values(|f: MetadataField| f@),
            ),
        }
    }
}

/// One metadata entry of a frame.
#[derive(Debug, PartialEq)]
pub struct MetadataEntry {
    pub key: String,
    pub value: MetadataValue,
}

/// Real-time frame envelope.
#[derive(Debug, PartialEq)]
pub struct FrameEnvelope {
    pub message_type: MessageType,
    pub session_id: SessionId,
    pub timestamp_us: u64,
    pub priority: u8,
    pub channel_format: ChannelFormat,
    pub channels: Vec<u16>,
    pub groups: Option<Vec<ChannelGroup>>,
    pub metadata: Option<Vec<MetadataEntry>>,
}

/// Control-plane keepalive frame to detect dead sessions.
#[derive(Debug, Clone, Copy, PartialEq, Eq, Structural)]
pub struct Keepalive {
    pub message_type: MessageType,
    pub session_id: SessionId,
    pub tick_ms: u64,
}

} // verus!
