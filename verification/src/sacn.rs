//! Streaming of whole universes through an sACN sender.
//!
//! Besides enveloped frames, a session can carry raw universe payloads to
//! an existing sACN stack. The engine keeps, for each universe, whether it
//! is enabled, an 8-bit sequence number that wraps around, and the last
//! payload that went out, which the jitter strategy of the session falls
//! back on. A universe that was never mentioned is enabled, at sequence
//! number 0, without a last payload.

use crate::bytes::to_vec;
use crate::messages::OperatingMode;
use crate::session::state::SessionState;
use crate::session::{readiness_refusal, AlnpSession, JitterStrategy};
use std::collections::HashMap;
use vstd::prelude::*;
use vstd::string::StringExecFns;

verus! {

broadcast use vstd::std_specs::hash::group_hash_axioms;

/// Minimal adapter that wraps the existing sACN transport layer.
pub trait SacnStreamAdapter {
    fn send_universe(&self, universe: u16, payload: &[u8]) -> Result<(), String>;

    fn subscribe_universe(&self, universe: u16) -> Result<(), String>;

    fn unsubscribe_universe(&self, universe: u16) -> Result<(), String>;
}

/// Errors of the universe stream.
#[derive(Debug)]
pub enum StreamError {
    NotAuthenticated,
    Transport(String),
    StreamingDisabled,
}

impl StreamError {
    /// The reason as one line of text.
    pub open spec fn message_spec(self) -> Seq<char> {
        match self {
            StreamError::NotAuthenticated => "sender not authenticated"@,
            StreamError::Transport(detail) => "sACN transport error: "@ + detail@,
            StreamError::StreamingDisabled => "streaming disabled"@,
        }
    }

    /// The reason as one line of text.
    pub fn message(&self) -> (text: String)
        ensures
            text@ == self.message_spec(),
    {
        match self {
            StreamError::NotAuthenticated => String::from_str("sender not authenticated"),
            StreamError::Transport(detail) => String::from_str("sACN transport error: ").concat(
                detail.as_str(),
            ),
            StreamError::StreamingDisabled => String::from_str("streaming disabled"),
        }
    }
}

/// The value of `previous` at `i`, and 0 behind its end.
pub open spec fn previous_level(previous: Seq<u8>, i: int) -> u8 {
    if 0 <= i < previous.len() {
        previous[i]
    } else {
        0
    }
}

/// The payload that goes out for the payload that came in: as for the
/// channels of a frame, `HoldLast` repeats the last payload where none came
/// in, `Drop` sends what came in, and `Lerp` sends the mean of each level
/// and the last one, rounded down; without a last payload all three send
/// what came in.
pub open spec fn jitter_levels(
    strategy: JitterStrategy,
    previous: Option<Seq<u8>>,
    payload: Seq<u8>,
) -> Seq<u8> {
    match (strategy, previous) {
        (JitterStrategy::HoldLast, Some(last)) => if payload.len() == 0 {
            last
        } else {
            payload
        },
        (JitterStrategy::Lerp, Some(last)) => Seq::new(
            payload.len(),
            |i: int| ((previous_level(last, i) + payload[i]) / 2) as u8,
        ),
        _ => payload,
    }
}

/// Applies a jitter strategy to a universe payload.
pub fn apply_jitter(strategy: JitterStrategy, previous: Option<&Vec<u8>>, payload: &[u8]) -> (
adjusted: Vec<u8>)
    ensures
        adjusted@ == jitter_levels(
            strategy,
            match previous {
                Some(last) => Some(last@),
                None => None,
            },
            payload@,
        ),
{
    match (strategy, previous) {
        (JitterStrategy::HoldLast, Some(last)) => {
            if payload.len() == 0 {
                to_vec(last.as_slice())
            } else {
                to_vec(payload)
            }
        },
        (JitterStrategy::Lerp, Some(last)) => {
            let mut blended: Vec<u8> = Vec::new();
            let mut i: usize = 0;
            while i < payload.len()
                invariant
                    i <= payload.len(),
                    blended@.len() == i,
                    forall|j: int|
                        0 <= j < i ==> blended@[j] == ((previous_level(last@, j) + payload@[j])
                            / 2) as u8,
                decreases payload.len() - i,
            {
                let before: u8 = if i < last.len() {
                    last[i]
                } else {
                    0
                };
                let mean: u16 = (before as u16 + payload[i] as u16) / 2;
                blended.push(mean as u8);
                i += 1;
            }
            assert(blended@ =~= jitter_levels(strategy, Some(last@), payload@));
            blended
        },
        _ => to_vec(payload),
    }
}

/// Universe streaming bound to an sACN adapter.
#[derive(Debug)]
pub struct AlnpStream<T: SacnStreamAdapter> {
    sacn: T,
    last_frames: HashMap<u16, Vec<u8>>,
    sequence_numbers: HashMap<u16, u8>,
    enabled_universes: HashMap<u16, bool>,
    current_mode: OperatingMode,
}

/// The mathematical content of an [`AlnpStream`], but for its adapter.
pub struct UniverseModel {
    /// The last payload that went out on each universe.
    pub frames: Map<u16, Seq<u8>>,
    /// The sequence number of each universe that has one.
    pub sequences: Map<u16, u8>,
    /// The universes that were enabled or disabled by name.
    pub enabled: Map<u16, bool>,
    pub mode: OperatingMode,
}

impl UniverseModel {
    /// The last payload of a universe.
    pub open spec fn last_frame(self, universe: u16) -> Option<Seq<u8>> {
        if self.frames.contains_key(universe) {
            Some(self.frames[universe])
        } else {
            None
        }
    }

    /// The sequence number of a universe: 0 before its first payload.
    pub open spec fn sequence(self, universe: u16) -> u8 {
        if self.sequences.contains_key(universe) {
            self.sequences[universe]
        } else {
            0
        }
    }

    /// Whether a universe is enabled: it is, unless it was disabled.
    pub open spec fn is_enabled(self, universe: u16) -> bool {
        self.enabled.contains_key(universe) ==> self.enabled[universe]
    }
}

/// The sequence number after `sequence`: one more, and 0 after 255.
pub open spec fn next_sequence(sequence: u8) -> u8 {
    if sequence == u8::MAX {
        0
    } else {
        (sequence + 1) as u8
    }
}

/// The state of a session after `mark_streaming` at `now`.
pub open spec fn marked_streaming(state: SessionState, now: u64) -> SessionState {
    if state is Ready {
        SessionState::Streaming { since: now }
    } else {
        state
    }
}

impl<T: SacnStreamAdapter> View for AlnpStream<T> {
    type V = UniverseModel;

    closed spec fn view(&self) -> UniverseModel {
        UniverseModel {
            frames: Map::new(
                |u: u16| self.last_frames@.contains_key(u),
                |u: u16| self.last_frames@[u]@,
            ),
            sequences: self.sequence_numbers@,
            enabled: self.enabled_universes@,
            mode: self.current_mode,
        }
    }
}

impl<T: SacnStreamAdapter> AlnpStream<T> {
    /// The adapter that payloads go out on.
    pub closed spec fn adapter_spec(&self) -> T {
        self.sacn
    }

    /// A stream in normal mode that has sent nothing.
    pub fn new(sacn: T) -> (stream: Self)
        ensures
            stream.adapter_spec() == sacn,
            stream@ == (UniverseModel {
                frames: Map::empty(),
                sequences: Map::empty(),
                enabled: Map::empty(),
                mode: OperatingMode::Normal,
            }),
    {
        let stream = AlnpStream {
            sacn,
            last_frames: HashMap::new(),
            sequence_numbers: HashMap::new(),
            enabled_universes: HashMap::new(),
            current_mode: OperatingMode::Normal,
        };
        assert(stream@.frames =~= Map::<u16, Seq<u8>>::empty());
        stream
    }

    /// The adapter that payloads go out on.
    pub fn adapter(&self) -> (adapter: &T)
        ensures
            *adapter == self.adapter_spec(),
    {
        &self.sacn
    }

    /// Changes the operating mode. Any mode but the normal one switches the
    /// session's streaming off; the normal mode switches it on.
    pub fn set_mode(&mut self, session: &mut AlnpSession, mode: OperatingMode)
        ensures
            final(self).adapter_spec() == old(self).adapter_spec(),
            final(self)@ == (UniverseModel { mode, ..old(self)@ }),
            final(session).streaming_enabled_spec() == (mode == OperatingMode::Normal),
            final(session).state_spec() == old(session).state_spec(),
            final(session).role_spec() == old(session).role_spec(),
            final(session).jitter_spec() == old(session).jitter_spec(),
            final(session).last_keepalive_spec() == old(session).last_keepalive_spec(),
            final(session).timeout_spec() == old(session).timeout_spec(),
            final(session).established_spec() == old(session).established_spec(),
            final(session).keys_spec() == old(session).keys_spec(),
    {
        self.current_mode = mode;
        let allow = match mode {
            OperatingMode::Normal => true,
            _ => false,
        };
        session.set_streaming_enabled(allow);
    }

    /// Enables a universe.
    pub fn enable_universe(&mut self, universe: u16)
        ensures
            final(self).adapter_spec() == old(self).adapter_spec(),
            final(self)@ == (UniverseModel {
                enabled: old(self)@.enabled.insert(universe, true),
                ..old(self)@
            }),
    {
        self.enabled_universes.insert(universe, true);
    }

    /// Disables a universe and tells the adapter to unsubscribe from it;
    /// what the adapter answers is of no concern.
    pub fn disable_universe(&mut self, universe: u16)
        ensures
            final(self).adapter_spec() == old(self).adapter_spec(),
            final(self)@ == (UniverseModel {
                enabled: old(self)@.enabled.insert(universe, false),
                ..old(self)@
            }),
    {
        self.enabled_universes.insert(universe, false);
        let _ = self.sacn.unsubscribe_universe(universe);
    }

    fn is_enabled(&self, universe: u16) -> (enabled: bool)
        ensures
            enabled == self@.is_enabled(universe),
    {
        match self.enabled_universes.get(&universe) {
            Some(flag) => *flag,
            None => true,
        }
    }

    fn advance_sequence(&mut self, universe: u16) -> (sequence: u8)
        ensures
            sequence == next_sequence(old(self)@.sequence(universe)),
            final(self).adapter_spec() == old(self).adapter_spec(),
            final(self)@ == (UniverseModel {
                sequences: old(self)@.sequences.insert(universe, sequence),
                ..old(self)@
            }),
    {
        let current: u8 = match self.sequence_numbers.get(&universe) {
            Some(sequence) => *sequence,
            None => 0,
        };
        let sequence = current.wrapping_add(1);
        self.sequence_numbers.insert(universe, sequence);
        sequence
    }

    fn last_frame(&self, universe: u16) -> (frame: Option<&Vec<u8>>)
        ensures
            match frame {
                Some(payload) => self@.last_frame(universe) == Some(payload@),
                None => self@.last_frame(universe) is None,
            },
    {
        self.last_frames.get(&universe)
    }

    fn forget_frame(&mut self, universe: u16)
        ensures
            final(self).adapter_spec() == old(self).adapter_spec(),
            final(self)@ == (UniverseModel {
                frames: old(self)@.frames.remove(universe),
                ..old(self)@
            }),
    {
        self.last_frames.remove(&universe);
        assert(self@.frames =~= old(self)@.frames.remove(universe));
    }

    fn remember_frame(&mut self, universe: u16, payload: Vec<u8>)
        ensures
            final(self).adapter_spec() == old(self).adapter_spec(),
            final(self)@ == (UniverseModel {
                frames: old(self)@.frames.insert(universe, payload@),
                ..old(self)@
            }),
    {
        self.last_frames.insert(universe, payload);
        assert(self@.frames =~= old(self)@.frames.insert(universe, payload@));
    }

    /// Sends one payload on a universe.
    ///
    /// A session that is not ready to stream is refused as
    /// `NotAuthenticated`; if the session's streaming is switched off, or
    /// the universe disabled, the payload is refused as
    /// `StreamingDisabled`; either way nothing changes. Otherwise the
    /// universe's sequence number advances; when it wraps around to 0, the
    /// last payload is forgotten. The payload goes to the adapter as the
    /// session's jitter strategy adjusts it, and [`AlnpStream::settle`]
    /// takes the adapter's answer in. If the adapter takes the payload, it
    /// becomes the universe's last payload, and a ready session counts as
    /// streaming from `now` on. If not, the adapter's reason comes back as
    /// a transport error. No error changes the session.
    pub fn send(&mut self, session: &mut AlnpSession, universe: u16, payload: &[u8], now: u64) -> (
    sent: Result<(), StreamError>)
        ensures
            final(self).adapter_spec() == old(self).adapter_spec(),
            final(session).same_but_state(old(session)),
            final(session).state_spec() == (if sent is Ok {
                marked_streaming(old(session).state_spec(), now)
            } else {
                old(session).state_spec()
            }),
            if readiness_refusal(
                old(session).state_spec(),
                old(session).established_spec() is Some,
            ) is Some {
                &&& sent matches Err(e) && e is NotAuthenticated
                &&& final(self)@ == old(self)@
            } else if !old(session).streaming_enabled_spec() || !old(self)@.is_enabled(universe) {
                &&& sent matches Err(e) && e is StreamingDisabled
                &&& final(self)@ == old(self)@
            } else {
                let sequence = next_sequence(old(self)@.sequence(universe));
                let previous = if sequence == 0 {
                    None
                } else {
                    old(self)@.last_frame(universe)
                };
                let adjusted = jitter_levels(old(session).jitter_spec(), previous, payload@);
                &&& final(self)@.mode == old(self)@.mode
                &&& final(self)@.enabled == old(self)@.enabled
                &&& final(self)@.sequences == old(self)@.sequences.insert(universe, sequence)
                &&& forall|other: u16|
                    other != universe ==> final(self)@.last_frame(other) == old(
                        self,
                    )@.last_frame(other)
                &&& match sent {
                    Ok(_) => final(self)@.last_frame(universe) == Some(adjusted),
                    Err(e) => e is Transport && final(self)@.last_frame(universe) == previous,
                }
            },
    {
        match session.ensure_streaming_ready() {
            Ok(_) => {},
            Err(_) => {
                return Err(StreamError::NotAuthenticated);
            },
        }
        if !session.streaming_enabled() {
            return Err(StreamError::StreamingDisabled);
        }
        if !self.is_enabled(universe) {
            return Err(StreamError::StreamingDisabled);
        }
        let sequence = self.advance_sequence(universe);
        if sequence == 0 {
            self.forget_frame(universe);
        }
        let ghost cleared = self@;
        assert(forall|other: u16|
            other != universe ==> cleared.last_frame(other) == old(self)@.last_frame(other));
        let adjusted = apply_jitter(session.jitter_strategy(), self.last_frame(universe), payload);
        let answer = self.sacn.send_universe(universe, adjusted.as_slice());
        let sent = self.settle(session, universe, adjusted, answer, now);
        assert(forall|other: u16|
            other != universe ==> self@.last_frame(other) == cleared.last_frame(other));
        sent
    }

    /// Takes in what the adapter answered to a payload on a universe: a
    /// payload that it took is the universe's last payload from now on,
    /// and a ready session counts as streaming from `now` on; a payload
    /// that it refused changes nothing, and its reason comes back as a
    /// transport error.
    pub fn settle(
        &mut self,
        session: &mut AlnpSession,
        universe: u16,
        payload: Vec<u8>,
        answer: Result<(), String>,
        now: u64,
    ) -> (sent: Result<(), StreamError>)
        ensures
            final(self).adapter_spec() == old(self).adapter_spec(),
            final(session).same_but_state(old(session)),
            match answer {
                Ok(_) => {
                    &&& sent is Ok
                    &&& final(self)@ == (UniverseModel {
                        frames: old(self)@.frames.insert(universe, payload@),
                        ..old(self)@
                    })
                    &&& final(session).state_spec() == marked_streaming(
                        old(session).state_spec(),
                        now,
                    )
                },
                Err(reason) => {
                    &&& sent == Err::<(), StreamError>(StreamError::Transport(reason))
                    &&& final(self)@ == old(self)@
                    &&& final(session).state_spec() == old(session).state_spec()
                },
            },
    {
        match answer {
            Ok(_) => {
                self.remember_frame(universe, payload);
                session.mark_streaming(now);
                Ok(())
            },
            Err(reason) => Err(StreamError::Transport(reason)),
        }
    }

    /// Subscribes to a universe and enables it. A session that is not
    /// ready to stream is refused as `NotAuthenticated`; a refusal of the
    /// adapter comes back as a transport error. Either way the universe is
    /// left as it was.
    pub fn subscribe(&mut self, session: &AlnpSession, universe: u16) -> (subscribed: Result<
        (),
        StreamError,
    >)
        ensures
            final(self).adapter_spec() == old(self).adapter_spec(),
            match subscribed {
                Ok(_) => readiness_refusal(
                    session.state_spec(),
                    session.established_spec() is Some,
                ) is None && final(self)@ == (UniverseModel {
                    enabled: old(self)@.enabled.insert(universe, true),
                    ..old(self)@
                }),
                Err(e) => final(self)@ == old(self)@ && (readiness_refusal(
                    session.state_spec(),
                    session.established_spec() is Some,
                ) is Some ==> e is NotAuthenticated) && (readiness_refusal(
                    session.state_spec(),
                    session.established_spec() is Some,
                ) is None ==> e is Transport),
            },
    {
        match session.ensure_streaming_ready() {
            Ok(_) => {},
            Err(_) => {
                return Err(StreamError::NotAuthenticated);
            },
        }
        let answer = self.sacn.subscribe_universe(universe);
        self.settle_subscription(universe, answer)
    }

    /// Takes in what the adapter answered to a subscription: a universe
    /// that it subscribed to is enabled; a refusal changes nothing, and
    /// its reason comes back as a transport error.
    pub fn settle_subscription(&mut self, universe: u16, answer: Result<(), String>) -> (
    subscribed: Result<(), StreamError>)
        ensures
            final(self).adapter_spec() == old(self).adapter_spec(),
            match answer {
                Ok(_) => subscribed is Ok && final(self)@ == (UniverseModel {
                    enabled: old(self)@.enabled.insert(universe, true),
                    ..old(self)@
                }),
                Err(reason) => subscribed == Err::<(), StreamError>(StreamError::Transport(reason))
                    && final(self)@ == old(self)@,
            },
    {
        match answer {
            Ok(_) => {
                self.enable_universe(universe);
                Ok(())
            },
            Err(reason) => Err(StreamError::Transport(reason)),
        }
    }

    /// Fails the session with a reason, unless it has failed or closed
    /// before, and closes every universe that was
    /// ever enabled or disabled by name: each is disabled afterwards, and
    /// the adapter is told to unsubscribe from those that were enabled.
    pub fn fail_closed(&mut self, session: &mut AlnpSession, reason: &str)
        ensures
            final(self).adapter_spec() == old(self).adapter_spec(),
            final(session).same_but_state(old(session)),
            if old(session).state_spec().is_terminal() {
                final(session).state_spec() == old(session).state_spec()
            } else {
                final(session).state_spec() matches SessionState::Failed(text) && text@ == reason@
            },
            final(self)@.mode == old(self)@.mode,
            final(self)@.frames == old(self)@.frames,
            final(self)@.sequences == old(self)@.sequences,
            final(self)@.enabled.dom() == old(self)@.enabled.dom(),
            forall|universe: u16| #[trigger]
                final(self)@.enabled.contains_key(universe) ==> !final(self)@.enabled[universe],
    {
        session.fail(String::from_str(reason));
        let mut universe: u16 = 0;
        loop
            invariant
                self.adapter_spec() == old(self).adapter_spec(),
                self@.mode == old(self)@.mode,
                self@.frames == old(self)@.frames,
                self@.sequences == old(self)@.sequences,
                self@.enabled.dom() == old(self)@.enabled.dom(),
                forall|u: u16|
                    u < universe && #[trigger] self@.enabled.contains_key(u) ==> !self@.enabled[u],
            ensures
                self.adapter_spec() == old(self).adapter_spec(),
                self@.mode == old(self)@.mode,
                self@.frames == old(self)@.frames,
                self@.sequences == old(self)@.sequences,
                self@.enabled.dom() == old(self)@.enabled.dom(),
                forall|u: u16| #[trigger] self@.enabled.contains_key(u) ==> !self@.enabled[u],
            decreases u16::MAX - universe,
        {
            let known = match self.enabled_universes.get(&universe) {
                Some(flag) => Some(*flag),
                None => None,
            };
            match known {
                Some(flag) => {
                    if flag {
                        let _ = self.sacn.unsubscribe_universe(universe);
                    }
                    let ghost before = self@.enabled;
                    self.enabled_universes.insert(universe, false);
                    assert(self@.enabled.dom() =~= before.dom());
                },
                None => {},
            }
            if universe == u16::MAX {
                break;
            }
            universe = universe + 1;
        }
    }
}

} // verus!
