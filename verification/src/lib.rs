//! ALPINE: an authenticated control-and-streaming protocol between a
//! controller and lighting nodes over datagram transports.
//!
//! The crate holds the session lifecycle: the key schedule and message
//! authentication, the four-message handshake, the session state machine, the
//! reliable control channel and the real-time streaming engine. Sockets,
//! timers and the wire codec stay with the caller; every function here works
//! on plain values and carries a contract that Verus proves.
//!
//! * [`crypto`]: key agreement, key derivation, message authentication,
//!   signatures.
//! * [`messages`], [`session_id`], [`alnp`]: the message model.
//! * [`handshake`]: the two roles of the handshake, the reliable control
//!   channel, the keepalive schedule.
//! * [`session`]: the session and its state machine.
//! * [`control`]: authenticated envelopes and acks.
//! * [`stream`], [`sacn`], [`profile`]: the streaming engines.
//! * [`discovery`], [`device`], [`client`]: what surrounds a session.

pub mod alnp;
pub mod bytes;
pub mod client;
pub mod control;
pub mod crypto;
pub mod device;
pub mod discovery;
pub mod handshake;
pub mod messages;
pub mod profile;
pub mod sacn;
pub mod session;
pub mod session_id;
pub mod stream;
