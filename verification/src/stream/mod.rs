//! The real-time streaming engine.
//!
//! The engine turns channel values into frame envelopes of the established
//! session. It keeps the last frame that went out, for the jitter strategy
//! to fall back on; the adaptation state, which schedules keyframes; and the
//! recovery monitor. It holds no more than that one frame.
//!
//! A frame is prepared here, encoded by the caller's codec, and handed to the
//! caller's transport; only a frame that went out becomes the last frame.

use crate::messages::{
    ChannelFormat, ChannelGroup, FrameEnvelope, MessageType, MetadataEntry, MetadataField,
    MetadataScalar, MetadataValue, ScalarModel, ValueModel,
};
use crate::profile::{CompiledStreamProfile, StreamIntent};
use crate::session::{readiness_refusal, AlnpSession, JitterStrategy};
use crate::stream::adaptive::{
    decide_next_state, decide_spec, event_name, event_name_spec, AdaptationState,
};
use crate::stream::network::NetworkConditions;
use crate::stream::recovery::{
    event_on, reason_after, RecoveryEvent, RecoveryMonitor, RecoveryReason,
};
use vstd::prelude::*;
use vstd::string::StringExecFns;

pub mod adaptive;
pub mod network;
pub mod recovery;

verus! {

/// Minimal transport for sending serialized frames; the datagram socket is
/// the caller's.
pub trait FrameTransport {
    /// Sends the provided serialized frame.
    fn send_frame(&self, bytes: &[u8]) -> Result<(), String>;
}

/// The wire codec for frames, which is the caller's: it turns a frame into
/// the one blob that goes out, or says why it cannot.
pub trait FrameCodec {
    fn encode(&self, frame: &FrameEnvelope) -> Result<Vec<u8>, String>;
}

/// Placeholder QUIC transport: it refuses every frame.
#[derive(Debug)]
pub struct QuicFrameTransport;

impl FrameTransport for QuicFrameTransport {
    fn send_frame(&self, bytes: &[u8]) -> (sent: Result<(), String>)
        ensures
            sent matches Err(reason) && reason@ == "QUIC transport is not implemented yet"@,
    {
        Err(String::from_str("QUIC transport is not implemented yet"))
    }
}

/// Errors emitted from the streaming helper.
#[derive(Debug)]
pub enum StreamError {
    NotAuthenticated,
    Transport(String),
    StreamingDisabled,
    MissingSession,
}

impl StreamError {
    /// The reason as one line of text.
    pub open spec fn message_spec(self) -> Seq<char> {
        match self {
            StreamError::NotAuthenticated => "sender not authenticated"@,
            StreamError::Transport(detail) => "transport error: "@ + detail@,
            StreamError::StreamingDisabled => "streaming disabled"@,
            StreamError::MissingSession => "no session available"@,
        }
    }

    /// The reason as one line of text.
    pub fn message(&self) -> (text: String)
        ensures
            text@ == self.message_spec(),
    {
        match self {
            StreamError::NotAuthenticated => String::from_str("sender not authenticated"),
            StreamError::Transport(detail) => String::from_str("transport error: ").concat(
                detail.as_str(),
            ),
            StreamError::StreamingDisabled => String::from_str("streaming disabled"),
            StreamError::MissingSession => String::from_str("no session available"),
        }
    }
}

/// Why a session gets no frame out: it is not ready to stream, which is
/// reported as `NotAuthenticated`, or its streaming is switched off.
pub open spec fn stream_refusal(session: &AlnpSession) -> Option<StreamError> {
    if readiness_refusal(session.state_spec(), session.established_spec() is Some) is Some {
        Some(StreamError::NotAuthenticated)
    } else if !session.streaming_enabled_spec() {
        Some(StreamError::StreamingDisabled)
    } else {
        None
    }
}

/// The strategy that a profile selects: `HoldLast` for a stream that
/// favours latency, `Lerp` for one that favours resilience.
pub open spec fn strategy_for(intent: StreamIntent) -> JitterStrategy {
    if intent.favors_latency_spec() {
        JitterStrategy::HoldLast
    } else {
        JitterStrategy::Lerp
    }
}

/// The value of `previous` at `i`, and 0 behind its end.
pub open spec fn previous_at(previous: Seq<u16>, i: int) -> u16 {
    if 0 <= i < previous.len() {
        previous[i]
    } else {
        0
    }
}

/// The channels that go out for the channels that came in.
///
/// * `HoldLast` repeats the last frame's channels where none came in.
/// * `Drop` sends what came in, be it nothing.
/// * `Lerp` sends, for each channel that came in, the mean of it and of
///   the last frame's value for that channel, rounded down, with 0 for a
///   channel that the last frame did not have.
///
/// Without a last frame all three send what came in.
pub open spec fn jitter_spec(
    strategy: JitterStrategy,
    previous: Option<Seq<u16>>,
    channels: Seq<u16>,
) -> Seq<u16> {
    match (strategy, previous) {
        (JitterStrategy::HoldLast, Some(last)) => if channels.len() == 0 {
            last
        } else {
            channels
        },
        (JitterStrategy::Lerp, Some(last)) => Seq::new(
            channels.len(),
            |i: int| ((previous_at(last, i) + channels[i]) / 2) as u16,
        ),
        _ => channels,
    }
}

fn copy_channels(channels: &Vec<u16>) -> (copy: Vec<u16>)
    ensures
        copy@ == channels@,
{
    let mut copy: Vec<u16> = Vec::new();
    let mut i: usize = 0;
    while i < channels.len()
        invariant
            i <= channels.len(),
            copy@ == channels@.subrange(0, i as int),
        decreases channels.len() - i,
    {
        copy.push(channels[i]);
        i += 1;
        assert(copy@ =~= channels@.subrange(0, i as int));
    }
    assert(channels@.subrange(0, channels.len() as int) =~= channels@);
    copy
}

/// Applies a jitter strategy to the channels of a frame, given the channels
/// of the frame before it.
pub fn apply_jitter(strategy: JitterStrategy, previous: Option<&Vec<u16>>, channels: Vec<u16>) -> (
adjusted: Vec<u16>)
    ensures
        adjusted@ == jitter_spec(
            strategy,
            match previous {
                Some(last) => Some(last@),
                None => None,
            },
            channels@,
        ),
{
    match (strategy, previous) {
        (JitterStrategy::HoldLast, Some(last)) => {
            if channels.len() == 0 {
                copy_channels(last)
            } else {
                channels
            }
        },
        (JitterStrategy::Lerp, Some(last)) => {
            let mut blended: Vec<u16> = Vec::new();
            let mut i: usize = 0;
            while i < channels.len()
                invariant
                    i <= channels.len(),
                    blended@.len() == i,
                    forall|j: int|
                        0 <= j < i ==> blended@[j] == ((previous_at(last@, j) + channels@[j])
                            / 2) as u16,
                decreases channels.len() - i,
            {
                let before: u16 = if i < last.len() {
                    last[i]
                } else {
                    0
                };
                let mean: u32 = (before as u32 + channels[i] as u32) / 2;
                blended.push(mean as u16);
                i += 1;
            }
            assert(blended@ =~= jitter_spec(strategy, Some(last@), channels@));
            blended
        },
        _ => channels,
    }
}

/// The metadata of a frame as a map from keys to values: an entry that
/// stands later in the list replaces one with the same key before it.
pub open spec fn entries_map(entries: Seq<MetadataEntry>) -> Map<Seq<char>, ValueModel>
    decreases entries.len(),
{
    if entries.len() == 0 {
        Map::empty()
    } else {
        entries_map(entries.drop_last()).insert(entries.last().key@, entries.last().value@)
    }
}

/// The metadata that a caller hands in, as a map.
pub open spec fn given_metadata(metadata: Option<Vec<MetadataEntry>>) -> Map<
    Seq<char>,
    ValueModel,
> {
    match metadata {
        Some(entries) => entries_map(entries@),
        None => Map::empty(),
    }
}

/// The record under `alpine_recovery`.
pub open spec fn recovery_note(reason: RecoveryReason) -> ValueModel {
    ValueModel::Record(
        seq![
            ("phase"@, ScalarModel::Text("recovery"@)),
            ("reason"@, ScalarModel::Text(reason.text_spec())),
        ],
    )
}

/// The record under `alpine_adaptation`.
pub open spec fn adaptation_note(state: AdaptationState, force_keyframe: bool) -> ValueModel {
    ValueModel::Record(
        seq![
            ("keyframe_interval"@, ScalarModel::Number(state.keyframe_interval as u64)),
            ("delta_depth"@, ScalarModel::Number(state.delta_depth as u64)),
            ("deadline_offset_ms"@, ScalarModel::Number(state.deadline_offset_ms as u64)),
            ("degraded_safe"@, ScalarModel::Flag(state.degraded_safe)),
            ("frames_since_keyframe"@, ScalarModel::Number(state.frames_since_keyframe as u64)),
            ("force_keyframe"@, ScalarModel::Flag(force_keyframe)),
            ("event"@, ScalarModel::Text(event_name_spec(state.last_event))),
        ],
    )
}

/// The metadata that goes out: what the caller gave, with
/// `alpine_recovery` present exactly in a recovery episode, and
/// `alpine_adaptation` always.
pub open spec fn annotated_spec(
    given: Map<Seq<char>, ValueModel>,
    recovery: Option<RecoveryReason>,
    force_keyframe: bool,
    state: AdaptationState,
) -> Map<Seq<char>, ValueModel> {
    (match recovery {
        Some(reason) => given.insert("alpine_recovery"@, recovery_note(reason)),
        None => given.remove("alpine_recovery"@),
    }).insert("alpine_adaptation"@, adaptation_note(state, force_keyframe))
}

/// The test that lets through every entry but those under `key`.
spec fn all_but(key: Seq<char>) -> spec_fn(MetadataEntry) -> bool {
    |e: MetadataEntry| e.key@ != key
}

proof fn lemma_dropping_a_key(entries: Seq<MetadataEntry>, key: Seq<char>)
    ensures
        entries_map(entries.filter(all_but(key))) == entries_map(entries).remove(key),
    decreases entries.len(),
{
    reveal(Seq::filter);
    let keep = all_but(key);
    if entries.len() == 0 {
        assert(entries_map(entries).remove(key) =~= Map::<Seq<char>, ValueModel>::empty());
    } else {
        lemma_dropping_a_key(entries.drop_last(), key);
        let rest = entries.drop_last();
        let last = entries.last();
        if last.key@ == key {
            assert(entries.filter(keep) == rest.filter(keep));
            assert(entries_map(rest).insert(key, last.value@).remove(key) =~= entries_map(
                rest,
            ).remove(key));
        } else {
            assert(entries.filter(keep) == rest.filter(keep).push(last));
            assert(rest.filter(keep).push(last).drop_last() =~= rest.filter(keep));
            assert(entries_map(rest).remove(key).insert(last.key@, last.value@) =~= entries_map(
                rest,
            ).insert(last.key@, last.value@).remove(key));
        }
    }
}

fn without_key(entries: Vec<MetadataEntry>, key: &str) -> (kept: Vec<MetadataEntry>)
    ensures
        entries_map(kept@) == entries_map(entries@).remove(key@),
{
    let ghost given = entries@;
    let ghost keep = all_but(key@);
    let wanted = String::from_str(key);
    let mut rest = entries;
    let mut kept: Vec<MetadataEntry> = Vec::new();
    let ghost mut done: int = 0;
    proof {
        reveal(Seq::filter);
        assert(given.take(0) =~= Seq::<MetadataEntry>::empty());
        assert(given.skip(0) =~= given);
    }
    while rest.len() > 0
        invariant
            0 <= done <= given.len(),
            rest@ == given.skip(done),
            kept@ == given.take(done).filter(keep),
            wanted@ == key@,
            keep == all_but(key@),
        decreases rest.len(),
    {
        let entry = rest.remove(0);
        proof {
            reveal(Seq::filter);
            assert(entry == given[done]);
            assert(rest@ =~= given.skip(done + 1));
            assert(given.take(done + 1).drop_last() =~= given.take(done));
            assert(given.take(done + 1).last() == given[done]);
        }
        if !(entry.key == wanted) {
            kept.push(entry);
        }
        proof {
            done = done + 1;
        }
    }
    proof {
        assert(given.take(done) =~= given);
        lemma_dropping_a_key(given, key@);
    }
    kept
}

fn text_field(name: &str, value: &str) -> (field: MetadataField)
    ensures
        field@ == (name@, ScalarModel::Text(value@)),
{
    MetadataField {
        name: String::from_str(name),
        value: MetadataScalar::Text(String::from_str(value)),
    }
}

fn number_field(name: &str, value: u32) -> (field: MetadataField)
    ensures
        field@ == (name@, ScalarModel::Number(value as u64)),
{
    MetadataField { name: String::from_str(name), value: MetadataScalar::Number(value as u64) }
}

fn flag_field(name: &str, value: bool) -> (field: MetadataField)
    ensures
        field@ == (name@, ScalarModel::Flag(value)),
{
    MetadataField { name: String::from_str(name), value: MetadataScalar::Flag(value) }
}

fn recovery_entry(reason: RecoveryReason) -> (entry: MetadataEntry)
    ensures
        entry.key@ == "alpine_recovery"@,
        entry.value@ == recovery_note(reason),
{
    let mut fields: Vec<MetadataField> = Vec::new();
    fields.push(text_field("phase", "recovery"));
    fields.push(text_field("reason", reason.as_str()));
    assert(fields@.map_values(|f: MetadataField| f@) =~= seq![
        ("phase"@, ScalarModel::Text("recovery"@)),
        ("reason"@, ScalarModel::Text(reason.text_spec())),
    ]);
    MetadataEntry {
        key: String::from_str("alpine_recovery"),
        value: MetadataValue::Record(fields),
    }
}

fn adaptation_entry(state: &AdaptationState, force_keyframe: bool) -> (entry: MetadataEntry)
    ensures
        entry.key@ == "alpine_adaptation"@,
        entry.value@ == adaptation_note(*state, force_keyframe),
{
    let mut fields: Vec<MetadataField> = Vec::new();
    fields.push(number_field("keyframe_interval", state.keyframe_interval));
    fields.push(number_field("delta_depth", state.delta_depth));
    fields.push(number_field("deadline_offset_ms", state.deadline_offset_ms));
    fields.push(flag_field("degraded_safe", state.degraded_safe));
    fields.push(number_field("frames_since_keyframe", state.frames_since_keyframe));
    fields.push(flag_field("force_keyframe", force_keyframe));
    fields.push(text_field("event", event_name(state.last_event)));
    assert(fields@.map_values(|f: MetadataField| f@) =~= seq![
        ("keyframe_interval"@, ScalarModel::Number(state.keyframe_interval as u64)),
        ("delta_depth"@, ScalarModel::Number(state.delta_depth as u64)),
        ("deadline_offset_ms"@, ScalarModel::Number(state.deadline_offset_ms as u64)),
        ("degraded_safe"@, ScalarModel::Flag(state.degraded_safe)),
        ("frames_since_keyframe"@, ScalarModel::Number(state.frames_since_keyframe as u64)),
        ("force_keyframe"@, ScalarModel::Flag(force_keyframe)),
        ("event"@, ScalarModel::Text(event_name_spec(state.last_event))),
    ]);
    MetadataEntry {
        key: String::from_str("alpine_adaptation"),
        value: MetadataValue::Record(fields),
    }
}

/// Writes the engine's two records into the metadata of a frame.
pub fn annotate_metadata(
    metadata: Option<Vec<MetadataEntry>>,
    recovery: Option<RecoveryReason>,
    force_keyframe: bool,
    state: &AdaptationState,
) -> (annotated: Option<Vec<MetadataEntry>>)
    ensures
        annotated matches Some(entries) && entries_map(entries@) == annotated_spec(
            given_metadata(metadata),
            recovery,
            force_keyframe,
            *state,
        ),
{
    let given = match metadata {
        Some(entries) => entries,
        None => Vec::new(),
    };
    let mut entries = without_key(given, "alpine_recovery");
    let ghost cleared = entries@;
    match recovery {
        Some(reason) => {
            entries.push(recovery_entry(reason));
            assert(entries@.drop_last() =~= cleared);
            assert(entries_map(cleared).insert("alpine_recovery"@, recovery_note(reason))
                =~= given_metadata(metadata).insert("alpine_recovery"@, recovery_note(reason)));
        },
        None => {},
    }
    let mut entries = without_key(entries, "alpine_adaptation");
    let ghost marked = entries@;
    entries.push(adaptation_entry(state, force_keyframe));
    assert(entries@.drop_last() =~= marked);
    assert(entries_map(entries@) =~= annotated_spec(
        given_metadata(metadata),
        recovery,
        force_keyframe,
        *state,
    ));
    Some(entries)
}

/// Stream state machine used by higher-level clients.
#[derive(Debug)]
pub struct AlnpStream<T: FrameTransport> {
    transport: T,
    last_frame: Option<FrameEnvelope>,
    profile: CompiledStreamProfile,
    recovery: RecoveryMonitor,
    adaptation: AdaptationState,
}

/// The channels of the last frame, if there is one.
pub open spec fn last_channels(last_frame: Option<FrameEnvelope>) -> Option<Seq<u16>> {
    match last_frame {
        Some(frame) => Some(frame.channels@),
        None => None,
    }
}

impl<T: FrameTransport> AlnpStream<T> {
    #[verifier::type_invariant]
    spec fn consistent(self) -> bool {
        self.adaptation.well_formed()
    }

    /// The transport that frames go out on.
    pub closed spec fn transport_spec(&self) -> T {
        self.transport
    }

    /// The last frame that went out.
    pub closed spec fn last_frame_spec(&self) -> Option<FrameEnvelope> {
        self.last_frame
    }

    /// What the stream favours.
    pub closed spec fn intent_spec(&self) -> StreamIntent {
        self.profile.intent_spec()
    }

    /// The recovery monitor.
    pub closed spec fn recovery_spec(&self) -> RecoveryMonitor {
        self.recovery
    }

    /// The scheduler's state.
    pub closed spec fn adaptation_spec(&self) -> AdaptationState {
        self.adaptation
    }

    /// Everything but the last frame and the scheduler's state is as it
    /// was in `before`.
    pub open spec fn same_setup(&self, before: &Self) -> bool {
        &&& self.transport_spec() == before.transport_spec()
        &&& self.intent_spec() == before.intent_spec()
        &&& self.recovery_spec() == before.recovery_spec()
    }

    /// Whether `frame` is the frame that this engine builds for a session
    /// from the given channel data at the given time: it carries the
    /// established session's identifier, the time, priority, format and
    /// groups as given, the channels as the jitter strategy adjusts them
    /// against the last frame, and the metadata with the engine's records
    /// for one more frame counted.
    pub open spec fn frames(
        &self,
        session: &AlnpSession,
        channel_format: ChannelFormat,
        channels: Seq<u16>,
        priority: u8,
        groups: Option<Vec<ChannelGroup>>,
        metadata: Option<Vec<MetadataEntry>>,
        now_us: u64,
        frame: FrameEnvelope,
    ) -> bool {
        &&& frame.message_type == MessageType::AlpineFrame
        &&& session.established_spec() matches Some(established) && frame.session_id
            == established.session_id
        &&& frame.timestamp_us == now_us
        &&& frame.priority == priority
        &&& frame.channel_format == channel_format
        &&& frame.channels@ == jitter_spec(
            strategy_for(self.intent_spec()),
            last_channels(self.last_frame_spec()),
            channels,
        )
        &&& frame.groups == groups
        &&& frame.metadata matches Some(entries) && entries_map(entries@) == annotated_spec(
            given_metadata(metadata),
            self.recovery_spec().active,
            self.adaptation_spec().keyframe_due(),
            self.adaptation_spec().after_frame(),
        )
    }

    /// Builds a new streaming helper bound to a compiled profile.
    pub fn new(transport: T, profile: CompiledStreamProfile) -> (stream: Self)
        ensures
            stream.transport_spec() == transport,
            stream.intent_spec() == profile.intent_spec(),
            stream.last_frame_spec() is None,
            stream.recovery_spec().active is None,
            stream.adaptation_spec() == adaptive::baseline_spec(profile.intent_spec()),
    {
        let adaptation = AdaptationState::baseline(profile.intent());
        AlnpStream {
            transport,
            last_frame: None,
            profile,
            recovery: RecoveryMonitor::new(),
            adaptation,
        }
    }

    /// The transport that frames go out on.
    pub fn transport(&self) -> (transport: &T)
        ensures
            *transport == self.transport_spec(),
    {
        &self.transport
    }

    /// The jitter strategy that the profile selects.
    pub fn jitter_strategy_from_profile(&self) -> (strategy: JitterStrategy)
        ensures
            strategy == strategy_for(self.intent_spec()),
    {
        if self.profile.latency_weight() >= self.profile.resilience_weight() {
            JitterStrategy::HoldLast
        } else {
            JitterStrategy::Lerp
        }
    }

    /// The reason of the recovery episode in force, if one is.
    pub fn recovery_reason(&self) -> (reason: Option<RecoveryReason>)
        ensures
            reason == self.recovery_spec().active,
    {
        self.recovery.active_reason()
    }

    /// The scheduler's state. The count of frames since the last keyframe
    /// is below the keyframe interval.
    pub fn adaptation(&self) -> (state: AdaptationState)
        ensures
            state == self.adaptation_spec(),
            state.well_formed(),
    {
        proof {
            use_type_invariant(self);
        }
        self.adaptation
    }

    /// Builds the next frame of the session from raw channel data.
    ///
    /// A session that is not ready to stream is refused as
    /// `NotAuthenticated`, and one whose streaming is switched off as
    /// `StreamingDisabled`; neither changes the engine. Otherwise the frame
    /// carries the established session's identifier, the given time,
    /// priority, format and groups, the channels as the jitter strategy
    /// adjusts them, and the metadata with the engine's records; and the
    /// scheduler has counted one more frame.
    pub fn prepare(
        &mut self,
        session: &AlnpSession,
        channel_format: ChannelFormat,
        channels: Vec<u16>,
        priority: u8,
        groups: Option<Vec<ChannelGroup>>,
        metadata: Option<Vec<MetadataEntry>>,
        now_us: u64,
    ) -> (prepared: Result<FrameEnvelope, StreamError>)
        ensures
            final(self).same_setup(old(self)),
            final(self).last_frame_spec() == old(self).last_frame_spec(),
            final(self).adaptation_spec().well_formed(),
            match prepared {
                Ok(frame) => {
                    &&& stream_refusal(session) is None
                    &&& final(self).adaptation_spec() == old(self).adaptation_spec().after_frame()
                    &&& old(self).frames(
                        session,
                        channel_format,
                        channels@,
                        priority,
                        groups,
                        metadata,
                        now_us,
                        frame,
                    )
                },
                Err(e) => {
                    &&& final(self).adaptation_spec() == old(self).adaptation_spec()
                    &&& stream_refusal(session) == Some(e)
                },
            },
    {
        proof {
            use_type_invariant(&*self);
        }
        let established = match session.ensure_streaming_ready() {
            Ok(established) => established,
            Err(_) => {
                return Err(StreamError::NotAuthenticated);
            },
        };
        if !session.streaming_enabled() {
            return Err(StreamError::StreamingDisabled);
        }
        let strategy = self.jitter_strategy_from_profile();
        let adjusted = match &self.last_frame {
            Some(last) => apply_jitter(strategy, Some(&last.channels), channels),
            None => apply_jitter(strategy, None, channels),
        };
        let mut adaptation = self.adaptation;
        let force_keyframe = adaptation.should_emit_keyframe();
        self.adaptation = adaptation;
        let annotated = annotate_metadata(
            metadata,
            self.recovery.active_reason(),
            force_keyframe,
            &adaptation,
        );
        Ok(
            FrameEnvelope {
                message_type: MessageType::AlpineFrame,
                session_id: established.session_id,
                timestamp_us: now_us,
                priority,
                channel_format,
                channels: adjusted,
                groups,
                metadata: annotated,
            },
        )
    }

    /// Hands a prepared frame to the transport, in the encoding that the
    /// caller's codec gave for it.
    ///
    /// A frame that could not be encoded is a transport error that says
    /// so. Otherwise the transport decides, and [`AlnpStream::settle`]
    /// takes its answer in: a frame that went out becomes the last frame;
    /// a refusal is a transport error with the transport's reason, and the
    /// last frame stays.
    pub fn transmit(&mut self, frame: FrameEnvelope, encoded: Result<Vec<u8>, String>) -> (sent:
        Result<(), StreamError>)
        ensures
            final(self).same_setup(old(self)),
            final(self).adaptation_spec() == old(self).adaptation_spec(),
            match sent {
                Ok(_) => encoded is Ok && final(self).last_frame_spec() == Some(frame),
                Err(e) => {
                    &&& final(self).last_frame_spec() == old(self).last_frame_spec()
                    &&& e is Transport
                    &&& encoded matches Err(reason) ==> e->Transport_0@ == "encode: "@ + reason@
                },
            },
    {
        proof {
            use_type_invariant(&*self);
        }
        let bytes = match encoded {
            Ok(bytes) => bytes,
            Err(reason) => {
                return Err(
                    StreamError::Transport(String::from_str("encode: ").concat(reason.as_str())),
                );
            },
        };
        let answer = self.transport.send_frame(bytes.as_slice());
        self.settle(frame, answer)
    }

    /// Takes in what the transport answered to a frame: a frame that it
    /// took is the last frame from now on; a frame that it refused leaves
    /// the last frame as it was, and its reason comes back as a transport
    /// error.
    pub fn settle(&mut self, frame: FrameEnvelope, answer: Result<(), String>) -> (sent: Result<
        (),
        StreamError,
    >)
        ensures
            final(self).same_setup(old(self)),
            final(self).adaptation_spec() == old(self).adaptation_spec(),
            match answer {
                Ok(_) => sent is Ok && final(self).last_frame_spec() == Some(frame),
                Err(reason) => sent == Err::<(), StreamError>(StreamError::Transport(reason))
                    && final(self).last_frame_spec() == old(self).last_frame_spec(),
            },
    {
        proof {
            use_type_invariant(&*self);
        }
        match answer {
            Ok(_) => {
                self.last_frame = Some(frame);
                Ok(())
            },
            Err(reason) => Err(StreamError::Transport(reason)),
        }
    }

    /// Sends a streaming frame built from raw channel data: the frame is
    /// prepared, encoded by the caller's codec, and handed to the
    /// transport.
    ///
    /// A session that is not ready or whose streaming is switched off is
    /// refused, and nothing changes. Otherwise the scheduler has counted
    /// one more frame, whatever becomes of it. A frame that the codec and
    /// the transport let through is the last frame afterwards; where
    /// either refuses it, the refusal comes back as a transport error, and
    /// the last frame stays.
    pub fn send<C: FrameCodec>(
        &mut self,
        session: &AlnpSession,
        codec: &C,
        channel_format: ChannelFormat,
        channels: Vec<u16>,
        priority: u8,
        groups: Option<Vec<ChannelGroup>>,
        metadata: Option<Vec<MetadataEntry>>,
        now_us: u64,
    ) -> (sent: Result<(), StreamError>)
        ensures
            final(self).same_setup(old(self)),
            final(self).adaptation_spec().well_formed(),
            match stream_refusal(session) {
                Some(refusal) => {
                    &&& sent == Err::<(), StreamError>(refusal)
                    &&& final(self).adaptation_spec() == old(self).adaptation_spec()
                    &&& final(self).last_frame_spec() == old(self).last_frame_spec()
                },
                None => {
                    &&& final(self).adaptation_spec() == old(self).adaptation_spec().after_frame()
                    &&& match sent {
                        Ok(_) => final(self).last_frame_spec() matches Some(frame) && old(
                            self,
                        ).frames(
                            session,
                            channel_format,
                            channels@,
                            priority,
                            groups,
                            metadata,
                            now_us,
                            frame,
                        ),
                        Err(e) => e is Transport && final(self).last_frame_spec() == old(
                            self,
                        ).last_frame_spec(),
                    }
                },
            },
    {
        let frame = match self.prepare(
            session,
            channel_format,
            channels,
            priority,
            groups,
            metadata,
            now_us,
        ) {
            Ok(frame) => frame,
            Err(e) => {
                return Err(e);
            },
        };
        let encoded = codec.encode(&frame);
        self.transmit(frame, encoded)
    }

    /// Updates recovery state based on observed network conditions, and
    /// lets the scheduler decide anew. Returns what the monitor reports.
    pub fn observe_network_conditions(&mut self, conditions: &NetworkConditions) -> (event: Option<
        RecoveryEvent,
    >)
        ensures
            final(self).transport_spec() == old(self).transport_spec(),
            final(self).intent_spec() == old(self).intent_spec(),
            final(self).last_frame_spec() == old(self).last_frame_spec(),
            event == event_on(
                old(self).recovery_spec().thresholds,
                old(self).recovery_spec().active,
                *conditions,
            ),
            final(self).recovery_spec().thresholds == old(self).recovery_spec().thresholds,
            final(self).recovery_spec().active == reason_after(
                old(self).recovery_spec().thresholds,
                old(self).recovery_spec().active,
                *conditions,
            ),
            final(self).recovery_spec().last_observation == Some(*conditions),
            final(self).adaptation_spec() == decide_spec(
                old(self).adaptation_spec(),
                final(self).recovery_spec().active,
                old(self).intent_spec(),
            ).state,
            final(self).adaptation_spec().well_formed(),
    {
        proof {
            use_type_invariant(&*self);
        }
        let mut monitor = self.recovery;
        let event = monitor.feed(conditions);
        let reason = monitor.active_reason();
        let decision = decide_next_state(&self.adaptation, reason, self.profile.intent());
        self.recovery = monitor;
        self.adaptation = decision.state;
        event
    }
}

} // verus!
