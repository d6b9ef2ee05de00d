//! The reliable control channel, and two small transports.
//!
//! The channel turns a datagram transport into a reliable, ordered and
//! replay-protected pipe for control envelopes. It owns the sequence
//! counter, the nonces of the acks that it accepted last, and the
//! retransmit budget; it decides, for each thing that happens while an envelope is
//! pending, what to do next. Sending, receiving and waiting are done by
//! whoever owns the transport. All durations are in milliseconds.

use crate::bytes::to_vec;
use crate::control::ControlCrypto;
use crate::crypto::mac_spec;
use crate::crypto::primitives::random_bytes;
use crate::handshake::replay::{
    newest, no_duplicates, remembered, ReplayWindow, DEFAULT_REPLAY_WINDOW,
};
use crate::handshake::{Failure, HandshakeError, HandshakeMessage, HandshakeTransport};
use crate::messages::{Acknowledge, ControlEnvelope, ControlHeader, ControlOp, MessageType};
use crate::session_id::SessionId;
use vstd::array::array_as_slice;
use vstd::prelude::*;

verus! {

/// Wrapper that carries the timeout to enforce on each receive.
#[derive(Debug)]
pub struct TimeoutTransport<T> {
    inner: T,
    recv_timeout: u64,
}

impl<T> TimeoutTransport<T> {
    /// The wrapped transport.
    pub closed spec fn inner_spec(&self) -> T {
        self.inner
    }

    /// The time to wait for one message.
    pub closed spec fn recv_timeout_spec(&self) -> u64 {
        self.recv_timeout
    }

    pub fn new(inner: T, recv_timeout: u64) -> (transport: Self)
        ensures
            transport.inner_spec() == inner,
            transport.recv_timeout_spec() == recv_timeout,
    {
        TimeoutTransport { inner, recv_timeout }
    }

    pub fn recv_timeout(&self) -> (timeout: u64)
        ensures
            timeout == self.recv_timeout_spec(),
    {
        self.recv_timeout
    }

    pub fn inner(&self) -> (inner: &T)
        ensures
            *inner == self.inner_spec(),
    {
        &self.inner
    }

    /// The wrapped transport, to send and receive on.
    pub fn inner_mut(&mut self) -> (inner: &mut T)
        ensures
            *inner == old(self).inner_spec(),
            final(self).inner_spec() == *final(inner),
            final(self).recv_timeout_spec() == old(self).recv_timeout_spec(),
    {
        &mut self.inner
    }

    pub fn into_inner(self) -> (inner: T)
        ensures
            inner == self.inner_spec(),
    {
        self.inner
    }
}

/// Simplified in-memory transport: a queue of messages, first in, first out.
#[derive(Debug)]
pub struct LoopbackTransport {
    inbox: Vec<HandshakeMessage>,
}

impl View for LoopbackTransport {
    type V = Seq<HandshakeMessage>;

    closed spec fn view(&self) -> Seq<HandshakeMessage> {
        self.inbox@
    }
}

impl LoopbackTransport {
    pub fn new() -> (transport: Self)
        ensures
            transport@ == Seq::<HandshakeMessage>::empty(),
    {
        LoopbackTransport { inbox: Vec::new() }
    }
}

impl HandshakeTransport for LoopbackTransport {
    /// Queues a message. This never fails.
    fn send(&mut self, message: HandshakeMessage) -> (sent: Result<(), HandshakeError>)
        ensures
            sent is Ok,
            final(self)@ == old(self)@.push(message),
    {
        self.inbox.push(message);
        Ok(())
    }

    /// Takes the oldest message, or reports an empty queue as a transport
    /// error.
    fn recv(&mut self) -> (received: Result<HandshakeMessage, HandshakeError>)
        ensures
            match received {
                Ok(message) => old(self)@.len() > 0 && message == old(self)@[0] && final(self)@
                    == old(self)@.drop_first(),
                Err(e) => old(self)@.len() == 0 && final(self)@ == old(self)@ && e@
                    == Failure::Transport("loopback queue empty"@),
            },
    {
        if self.inbox.len() == 0 {
            return Err(HandshakeError::transport("loopback queue empty"));
        }
        let message = self.inbox.remove(0);
        assert(self.inbox@ =~= old(self)@.drop_first());
        Ok(message)
    }
}

/// The sequence number after `seq`: one more, and 0 after the largest.
pub open spec fn next_seq_spec(seq: u64) -> u64 {
    if seq == u64::MAX {
        0
    } else {
        (seq + 1) as u64
    }
}

/// The sequence number `steps` sends after `start`.
pub open spec fn seq_after(start: u64, steps: nat) -> u64
    recommends
        steps <= u64::MAX,
{
    if start + steps <= u64::MAX {
        (start + steps) as u64
    } else {
        (start + steps - u64::MAX - 1) as u64
    }
}

/// Each send takes the sequence number that follows the one before it.
pub proof fn lemma_seq_after_steps_by_one(start: u64, steps: nat)
    requires
        steps < u64::MAX,
    ensures
        seq_after(start, 0) == start,
        seq_after(start, steps + 1) == next_seq_spec(seq_after(start, steps)),
{
}

/// Sequence numbers grow strictly until they wrap around: among 2^64
/// successive sends no two carry the same number, and a number is smaller
/// than an earlier one only after the wrap from the largest to 0.
pub proof fn lemma_seq_values_distinct_until_wrap(start: u64, earlier: nat, later: nat)
    requires
        earlier < later <= u64::MAX,
    ensures
        seq_after(start, earlier) != seq_after(start, later),
        seq_after(start, earlier) < seq_after(start, later) || start + later > u64::MAX,
{
}

/// The wait after transmission number `attempt`: the base timeout, doubled
/// with every further attempt, and capped at four times the base.
pub open spec fn backoff_spec(base: u64, attempt: u8) -> int {
    if attempt <= 1 {
        base as int
    } else if attempt == 2 {
        base * 2
    } else {
        base * 4
    }
}

/// [`backoff_spec`], held to what 64 bits can express.
pub open spec fn backoff_ms(base: u64, attempt: u8) -> u64 {
    if backoff_spec(base, attempt) > u64::MAX {
        u64::MAX
    } else {
        backoff_spec(base, attempt) as u64
    }
}

/// What can happen while an envelope is pending.
#[derive(Debug)]
pub enum ControlEvent {
    /// A message arrived on the control transport.
    Message(HandshakeMessage),
    /// The retransmit timer ran out.
    TimerExpired,
}

/// What to do next with a pending envelope.
#[derive(Debug)]
pub enum ControlAction {
    /// Transmit the envelope, again, and wait this long for its ack.
    Transmit { timeout_ms: u64 },
    /// Go on waiting, with the timer started afresh at this duration.
    RestartTimer { timeout_ms: u64 },
    /// Go on waiting on the timer that runs.
    Wait,
    /// The exchange is over: this is the ack. Whether the peer carried the
    /// operation out is in its `ok`.
    Delivered(Acknowledge),
    /// The exchange is over, without an ack.
    Failed(HandshakeError),
}

/// An envelope that was handed to the channel and waits for its ack.
#[derive(Debug)]
pub struct PendingSend {
    pub envelope: ControlEnvelope,
    /// How many transmissions count against the budget so far.
    pub attempt: u8,
}

/// Minimal reliability layer for control envelopes with retransmissions and
/// replay protection.
#[derive(Debug)]
pub struct ReliableControlChannel<T> {
    transport: T,
    seq: u64,
    seen: ReplayWindow,
    max_attempts: u8,
    base_timeout: u64,
    drop_threshold: u8,
}

/// The mathematical content of a [`ReliableControlChannel`], but for its
/// transport.
pub struct ChannelModel {
    pub seq: u64,
    /// The nonces of the acks that were accepted, oldest first.
    pub seen: Seq<Seq<u8>>,
    /// How many nonces are remembered at most.
    pub replay_window: usize,
    pub max_attempts: u8,
    pub base_timeout: u64,
    pub drop_threshold: u8,
}

impl<T> View for ReliableControlChannel<T> {
    type V = ChannelModel;

    closed spec fn view(&self) -> ChannelModel {
        ChannelModel {
            seq: self.seq,
            seen: self.seen@,
            replay_window: self.seen.window_spec(),
            max_attempts: self.max_attempts,
            base_timeout: self.base_timeout,
            drop_threshold: self.drop_threshold,
        }
    }
}

/// Whether transmission number `attempt` is one too many.
pub open spec fn budget_spent(model: ChannelModel, attempt: u8) -> bool {
    attempt >= model.max_attempts || attempt >= model.drop_threshold
}

/// The count of attempts after one more, held at the largest count.
pub open spec fn one_more(attempt: u8) -> u8 {
    if attempt == u8::MAX {
        u8::MAX
    } else {
        (attempt + 1) as u8
    }
}

impl<T> ReliableControlChannel<T> {
    /// The transport that the channel was made for.
    pub closed spec fn transport_spec(&self) -> T {
        self.transport
    }

    /// A channel that has sent nothing and seen nothing, with the default
    /// budget: five attempts, a base timeout of 200 ms, and a drop
    /// threshold of five. It remembers the nonces of the last 1024 acks.
    pub fn new(transport: T) -> (channel: Self)
        ensures
            channel.transport_spec() == transport,
            channel@ == (ChannelModel {
                seq: 0,
                seen: Seq::empty(),
                replay_window: DEFAULT_REPLAY_WINDOW,
                max_attempts: 5,
                base_timeout: 200,
                drop_threshold: 5,
            }),
    {
        let channel = ReliableControlChannel {
            transport,
            seq: 0,
            seen: ReplayWindow::new(DEFAULT_REPLAY_WINDOW),
            max_attempts: 5,
            base_timeout: 200,
            drop_threshold: 5,
        };
        channel
    }

    /// A channel that takes up a sequence where it was left: the next
    /// envelope carries the number after `seq`. The rest is as in
    /// [`ReliableControlChannel::new`].
    pub fn resume_after(transport: T, seq: u64) -> (channel: Self)
        ensures
            channel.transport_spec() == transport,
            channel@ == (ChannelModel {
                seq,
                seen: Seq::empty(),
                replay_window: DEFAULT_REPLAY_WINDOW,
                max_attempts: 5,
                base_timeout: 200,
                drop_threshold: 5,
            }),
    {
        let channel = ReliableControlChannel {
            transport,
            seq,
            seen: ReplayWindow::new(DEFAULT_REPLAY_WINDOW),
            max_attempts: 5,
            base_timeout: 200,
            drop_threshold: 5,
        };
        channel
    }

    /// Tunes the retransmit budget.
    pub fn set_budget(&mut self, max_attempts: u8, base_timeout: u64, drop_threshold: u8)
        ensures
            final(self).transport_spec() == old(self).transport_spec(),
            final(self)@ == (ChannelModel { max_attempts, base_timeout, drop_threshold, ..old(self)@ }),
    {
        self.max_attempts = max_attempts;
        self.base_timeout = base_timeout;
        self.drop_threshold = drop_threshold;
    }

    /// Sets how many nonces the channel remembers. Where it remembers
    /// more, the oldest are forgotten.
    pub fn set_replay_window(&mut self, window: usize)
        ensures
            final(self).transport_spec() == old(self).transport_spec(),
            final(self)@ == (ChannelModel {
                seen: newest(old(self)@.seen, window),
                replay_window: window,
                ..old(self)@
            }),
    {
        self.seen.resize(window);
    }

    /// How many nonces the channel remembers at most. There are never
    /// more in its memory, and none of them twice.
    pub fn replay_window(&self) -> (window: usize)
        ensures
            window == self@.replay_window,
            self@.seen.len() <= window,
            no_duplicates(self@.seen),
    {
        self.seen.window()
    }

    pub fn transport(&self) -> (transport: &T)
        ensures
            *transport == self.transport_spec(),
    {
        &self.transport
    }

    /// The transport, to send and receive on. The channel's own state is
    /// out of its reach.
    pub fn transport_mut(&mut self) -> (transport: &mut T)
        ensures
            *transport == old(self).transport_spec(),
            final(self).transport_spec() == *final(transport),
            final(self)@ == old(self)@,
    {
        &mut self.transport
    }

    /// Advances the sequence counter and returns its new value: one more
    /// than before, and 0 after the largest.
    pub fn next_seq(&mut self) -> (seq: u64)
        ensures
            seq == next_seq_spec(old(self)@.seq),
            final(self).transport_spec() == old(self).transport_spec(),
            final(self)@ == (ChannelModel { seq, ..old(self)@ }),
    {
        self.seq = self.seq.wrapping_add(1);
        self.seq
    }

    /// Whether an ack with this nonce was accepted and is remembered.
    pub fn has_seen(&self, nonce: &[u8]) -> (seen: bool)
        ensures
            seen == self@.seen.contains(nonce@),
    {
        self.seen.contains(nonce)
    }

    fn record(&mut self, nonce: &[u8])
        ensures
            final(self).transport_spec() == old(self).transport_spec(),
            final(self)@ == (ChannelModel {
                seen: remembered(old(self)@.seen, nonce@, old(self)@.replay_window),
                ..old(self)@
            }),
    {
        self.seen.remember(nonce);
    }

    fn backoff(&self, attempt: u8) -> (timeout_ms: u64)
        ensures
            timeout_ms == backoff_ms(self@.base_timeout, attempt),
    {
        let factor: u64 = if attempt <= 1 {
            1
        } else if attempt == 2 {
            2
        } else {
            4
        };
        match self.base_timeout.checked_mul(factor) {
            Some(timeout_ms) => timeout_ms,
            None => u64::MAX,
        }
    }

    /// Hands an envelope to the channel, with a given nonce.
    ///
    /// The channel takes the next sequence number, writes the header with
    /// it, the nonce and the time, and has the tag computed over the
    /// payload under that sequence number. The envelope is to be
    /// transmitted, and its ack awaited for the base timeout.
    pub fn begin_send(
        &mut self,
        crypto: &ControlCrypto,
        session_id: SessionId,
        op: ControlOp,
        payload: Vec<u8>,
        nonce: Vec<u8>,
        now_ms: u64,
    ) -> (begun: Result<(PendingSend, ControlAction), HandshakeError>)
        ensures
            final(self).transport_spec() == old(self).transport_spec(),
            final(self)@ == (ChannelModel { seq: next_seq_spec(old(self)@.seq), ..old(self)@ }),
            begun matches Ok((pending, action)) && {
                &&& pending.attempt == 1
                &&& pending.envelope.message_type == MessageType::AlpineControl
                &&& pending.envelope.session_id == session_id
                &&& pending.envelope.header.seq == next_seq_spec(old(self)@.seq)
                &&& pending.envelope.header.nonce == nonce
                &&& pending.envelope.header.timestamp_ms == now_ms
                &&& pending.envelope.op == op
                &&& pending.envelope.payload == payload
                &&& pending.envelope.mac@.len() == 16
                &&& pending.envelope.mac@ == mac_spec(
                    crypto.control_key(),
                    next_seq_spec(old(self)@.seq),
                    payload@,
                    session_id.bytes_spec(),
                )
                &&& action == (ControlAction::Transmit {
                    timeout_ms: backoff_ms(old(self)@.base_timeout, 1),
                })
            },
    {
        let seq = self.next_seq();
        let mac = match crypto.mac_for_payload(seq, &session_id, payload.as_slice()) {
            Ok(mac) => mac,
            Err(e) => {
                return Err(e);
            },
        };
        let envelope = ControlEnvelope {
            message_type: MessageType::AlpineControl,
            session_id,
            header: ControlHeader { seq, nonce, timestamp_ms: now_ms },
            op,
            payload,
            mac,
        };
        let timeout_ms = self.backoff(1);
        Ok((PendingSend { envelope, attempt: 1 }, ControlAction::Transmit { timeout_ms }))
    }

    /// Hands an envelope to the channel, with a fresh random nonce of 16
    /// bytes; the rest is as in [`ReliableControlChannel::begin_send`].
    pub fn send_reliable(
        &mut self,
        crypto: &ControlCrypto,
        session_id: SessionId,
        op: ControlOp,
        payload: Vec<u8>,
        now_ms: u64,
    ) -> (begun: Result<(PendingSend, ControlAction), HandshakeError>)
        ensures
            final(self).transport_spec() == old(self).transport_spec(),
            final(self)@ == (ChannelModel { seq: next_seq_spec(old(self)@.seq), ..old(self)@ }),
            begun matches Ok((pending, action)) && {
                &&& pending.attempt == 1
                &&& pending.envelope.message_type == MessageType::AlpineControl
                &&& pending.envelope.session_id == session_id
                &&& pending.envelope.header.seq == next_seq_spec(old(self)@.seq)
                &&& pending.envelope.header.nonce@.len() == 16
                &&& pending.envelope.header.timestamp_ms == now_ms
                &&& pending.envelope.op == op
                &&& pending.envelope.payload == payload
                &&& pending.envelope.mac@.len() == 16
                &&& pending.envelope.mac@ == mac_spec(
                    crypto.control_key(),
                    next_seq_spec(old(self)@.seq),
                    payload@,
                    session_id.bytes_spec(),
                )
                &&& action == (ControlAction::Transmit {
                    timeout_ms: backoff_ms(old(self)@.base_timeout, 1),
                })
            },
    {
        let nonce = random_bytes::<16>();
        self.begin_send(crypto, session_id, op, payload, to_vec(array_as_slice(&nonce)), now_ms)
    }

    /// The same as [`ReliableControlChannel::send_reliable`].
    pub fn send_signed(
        &mut self,
        crypto: &ControlCrypto,
        session_id: SessionId,
        op: ControlOp,
        payload: Vec<u8>,
        now_ms: u64,
    ) -> (begun: Result<(PendingSend, ControlAction), HandshakeError>)
        ensures
            final(self).transport_spec() == old(self).transport_spec(),
            final(self)@ == (ChannelModel { seq: next_seq_spec(old(self)@.seq), ..old(self)@ }),
            begun matches Ok((pending, action)) && {
                &&& pending.attempt == 1
                &&& pending.envelope.session_id == session_id
                &&& pending.envelope.header.seq == next_seq_spec(old(self)@.seq)
                &&& pending.envelope.op == op
                &&& pending.envelope.payload == payload
                &&& pending.envelope.mac@.len() == 16
                &&& pending.envelope.mac@ == mac_spec(
                    crypto.control_key(),
                    next_seq_spec(old(self)@.seq),
                    payload@,
                    session_id.bytes_spec(),
                )
            },
    {
        self.send_reliable(crypto, session_id, op, payload, now_ms)
    }

    /// Decides what follows from one event while `pending` waits for its
    /// ack.
    ///
    /// * An ack with the pending sequence number ends the exchange; if it
    ///   says `ok`, its nonce is remembered, as [`remembered`] says.
    /// * An ack with another sequence number and a remembered nonce is a
    ///   replay, which ends the exchange with a protocol error.
    /// * A keepalive shows that the peer lives: the attempts are forgiven
    ///   and the timer starts afresh.
    /// * When the timer runs out, one more attempt is counted; if that
    ///   spends the budget the exchange fails with a transport error, else
    ///   the envelope is transmitted again with a longer wait.
    /// * Anything else is ignored.
    pub fn on_event(&mut self, pending: &mut PendingSend, event: ControlEvent) -> (action:
        ControlAction)
        ensures
            final(self).transport_spec() == old(self).transport_spec(),
            final(pending).envelope == old(pending).envelope,
            match event {
                ControlEvent::Message(HandshakeMessage::Ack(ack)) => {
                    &&& final(pending).attempt == old(pending).attempt
                    &&& if ack.header.seq == old(pending).envelope.header.seq {
                        &&& action == ControlAction::Delivered(ack)
                        &&& final(self)@ == (ChannelModel {
                            seen: if ack.ok {
                                remembered(
                                    old(self)@.seen,
                                    ack.header.nonce@,
                                    old(self)@.replay_window,
                                )
                            } else {
                                old(self)@.seen
                            },
                            ..old(self)@
                        })
                    } else {
                        &&& final(self)@ == old(self)@
                        &&& if old(self)@.seen.contains(ack.header.nonce@) {
                            action matches ControlAction::Failed(e) && e@ == Failure::Protocol(
                                "replay detected"@,
                            )
                        } else {
                            action is Wait
                        }
                    }
                },
                ControlEvent::Message(HandshakeMessage::Keepalive(_)) => {
                    &&& final(self)@ == old(self)@
                    &&& final(pending).attempt == 0
                    &&& action == (ControlAction::RestartTimer {
                        timeout_ms: backoff_ms(old(self)@.base_timeout, 0),
                    })
                },
                ControlEvent::Message(_) => {
                    &&& final(self)@ == old(self)@
                    &&& final(pending).attempt == old(pending).attempt
                    &&& action is Wait
                },
                ControlEvent::TimerExpired => {
                    let counted = one_more(old(pending).attempt);
                    &&& final(self)@ == old(self)@
                    &&& if budget_spent(old(self)@, counted) {
                        &&& final(pending).attempt == old(pending).attempt
                        &&& action matches ControlAction::Failed(e) && e@ == Failure::Transport(
                            "retransmit limit exceeded"@,
                        )
                    } else {
                        &&& final(pending).attempt == counted
                        &&& action == (ControlAction::Transmit {
                            timeout_ms: backoff_ms(old(self)@.base_timeout, counted),
                        })
                    }
                },
            },
    {
        match event {
            ControlEvent::Message(HandshakeMessage::Ack(ack)) => {
                if ack.header.seq == pending.envelope.header.seq {
                    if ack.ok {
                        self.record(ack.header.nonce.as_slice());
                    }
                    ControlAction::Delivered(ack)
                } else if self.has_seen(ack.header.nonce.as_slice()) {
                    ControlAction::Failed(HandshakeError::protocol("replay detected"))
                } else {
                    ControlAction::Wait
                }
            },
            ControlEvent::Message(HandshakeMessage::Keepalive(_)) => {
                pending.attempt = 0;
                ControlAction::RestartTimer { timeout_ms: self.backoff(0) }
            },
            ControlEvent::Message(_) => ControlAction::Wait,
            ControlEvent::TimerExpired => {
                let counted: u8 = if pending.attempt == u8::MAX {
                    u8::MAX
                } else {
                    pending.attempt + 1
                };
                if counted >= self.max_attempts || counted >= self.drop_threshold {
                    ControlAction::Failed(HandshakeError::transport("retransmit limit exceeded"))
                } else {
                    pending.attempt = counted;
                    ControlAction::Transmit { timeout_ms: self.backoff(counted) }
                }
            },
        }
    }
}

} // verus!
