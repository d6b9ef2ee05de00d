//! The keepalive schedule.
//!
//! At a fixed interval a session emits a keepalive on the control
//! transport, so that the peer knows it alive. The schedule says when the
//! next keepalive is due and what it carries; it goes on whether or not a
//! keepalive could be sent, and it stops for good once it is cancelled.
//! Instants and durations are in milliseconds.

use crate::handshake::HandshakeMessage;
use crate::messages::{Keepalive, MessageType};
use crate::session_id::SessionId;
use vstd::prelude::*;

verus! {

/// The interval between keepalives where none is configured.
pub const DEFAULT_KEEPALIVE_INTERVAL_MS: u64 = 5_000;

/// The keepalive of a session at a given interval.
pub open spec fn keepalive_spec(session_id: SessionId, interval_ms: u64) -> Keepalive {
    Keepalive { message_type: MessageType::Keepalive, session_id, tick_ms: interval_ms }
}

/// The message that a keepalive task sends: always the same one, with the
/// interval as its tick.
pub fn keepalive_message(session_id: SessionId, interval_ms: u64) -> (message: HandshakeMessage)
    ensures
        message == HandshakeMessage::Keepalive(keepalive_spec(session_id, interval_ms)),
{
    HandshakeMessage::Keepalive(
        Keepalive { message_type: MessageType::Keepalive, session_id, tick_ms: interval_ms },
    )
}

/// When keepalives are due.
#[derive(Debug, Clone, Copy, PartialEq, Eq, Structural)]
pub struct KeepaliveSchedule {
    pub session_id: SessionId,
    pub interval_ms: u64,
    /// The instant of the next keepalive.
    pub next_due_ms: u64,
    pub cancelled: bool,
}

/// What a keepalive task does next.
#[derive(Debug, Clone, Copy, PartialEq, Eq, Structural)]
pub enum KeepaliveAction {
    /// Sleep until this instant, then ask again.
    SleepUntil { deadline_ms: u64 },
    /// Send this keepalive, whatever becomes of it, then ask again.
    Emit(Keepalive),
    /// The session is closed: end the task.
    Stop,
}

/// The sum of an instant and a duration, held at the largest instant.
pub open spec fn later(instant: u64, duration: u64) -> u64 {
    if instant + duration > u64::MAX {
        u64::MAX
    } else {
        (instant + duration) as u64
    }
}

impl KeepaliveSchedule {
    /// A schedule that starts at `now`: the first keepalive is due one
    /// interval later.
    pub fn new(session_id: SessionId, interval_ms: u64, now_ms: u64) -> (schedule: Self)
        ensures
            schedule == (KeepaliveSchedule {
                session_id,
                interval_ms,
                next_due_ms: later(now_ms, interval_ms),
                cancelled: false,
            }),
    {
        KeepaliveSchedule {
            session_id,
            interval_ms,
            next_due_ms: now_ms.saturating_add(interval_ms),
            cancelled: false,
        }
    }

    /// Ends the schedule. It stays ended.
    pub fn cancel(&mut self)
        ensures
            *final(self) == (KeepaliveSchedule { cancelled: true, ..*old(self) }),
    {
        self.cancelled = true;
    }

    /// What to do at `now`: nothing more once cancelled; else emit the
    /// keepalive if it is due, and move the due instant one interval past
    /// `now`; else sleep until it is due.
    pub fn poll(&mut self, now_ms: u64) -> (action: KeepaliveAction)
        ensures
            if old(self).cancelled {
                action == KeepaliveAction::Stop && *final(self) == *old(self)
            } else if now_ms >= old(self).next_due_ms {
                &&& action == KeepaliveAction::Emit(
                    keepalive_spec(old(self).session_id, old(self).interval_ms),
                )
                &&& *final(self) == (KeepaliveSchedule {
                    next_due_ms: later(now_ms, old(self).interval_ms),
                    ..*old(self)
                })
            } else {
                &&& action == (KeepaliveAction::SleepUntil { deadline_ms: old(self).next_due_ms })
                &&& *final(self) == *old(self)
            },
    {
        if self.cancelled {
            KeepaliveAction::Stop
        } else if now_ms >= self.next_due_ms {
            self.next_due_ms = now_ms.saturating_add(self.interval_ms);
            KeepaliveAction::Emit(
                Keepalive {
                    message_type: MessageType::Keepalive,
                    session_id: self.session_id,
                    tick_ms: self.interval_ms,
                },
            )
        } else {
            KeepaliveAction::SleepUntil { deadline_ms: self.next_due_ms }
        }
    }
}

} // verus!
