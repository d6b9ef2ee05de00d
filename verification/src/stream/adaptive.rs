//! The adaptive keyframe and delta scheduler.
//!
//! The scheduler counts frames and forces a keyframe whenever the count
//! reaches the keyframe interval. On every observation of the network it
//! decides anew: in recovery it degrades, which raises the keyframe interval
//! to a floor and halves the delta depth; on a quiet network, for a stream
//! that favours latency, it recovers, which shrinks the interval and grows
//! the depth again; otherwise it holds steady.

use crate::profile::StreamIntent;
use crate::stream::recovery::RecoveryReason;
use vstd::prelude::*;

verus! {

/// The keyframe interval is raised to at least this many frames in recovery.
pub const RECOVERY_KEYFRAME_FLOOR: u32 = 60;

/// A quiet network shrinks the keyframe interval by this many frames.
pub const KEYFRAME_INTERVAL_STEP: u32 = 5;

/// A quiet network does not shrink the keyframe interval below this.
pub const MIN_KEYFRAME_INTERVAL: u32 = 10;

/// Recovery does not reduce the delta depth below this.
pub const MIN_DELTA_DEPTH: u32 = 1;

/// A quiet network does not grow the delta depth beyond this.
pub const MAX_DELTA_DEPTH: u32 = 8;

/// What the scheduler last did.
#[derive(Debug, Clone, Copy, PartialEq, Eq, Structural)]
pub enum AdaptationEvent {
    Degrade,
    Recover,
}

impl AdaptationEvent {
    /// The event as it is written into frame metadata.
    pub open spec fn text_spec(self) -> Seq<char> {
        match self {
            AdaptationEvent::Degrade => "degrade"@,
            AdaptationEvent::Recover => "recover"@,
        }
    }

    /// The event as it is written into frame metadata.
    pub fn as_str(&self) -> (text: &'static str)
        ensures
            text@ == self.text_spec(),
    {
        match self {
            AdaptationEvent::Degrade => "degrade",
            AdaptationEvent::Recover => "recover",
        }
    }
}

/// The name of the last event in frame metadata: `steady` where there is
/// none.
pub open spec fn event_name_spec(event: Option<AdaptationEvent>) -> Seq<char> {
    match event {
        Some(e) => e.text_spec(),
        None => "steady"@,
    }
}

/// The name of the last event in frame metadata.
pub fn event_name(event: Option<AdaptationEvent>) -> (name: &'static str)
    ensures
        name@ == event_name_spec(event),
{
    match event {
        Some(e) => e.as_str(),
        None => "steady",
    }
}

/// The scheduler's state.
#[derive(Debug, Clone, Copy, PartialEq, Eq, Structural)]
pub struct AdaptationState {
    pub keyframe_interval: u32,
    pub delta_depth: u32,
    pub deadline_offset_ms: u32,
    pub degraded_safe: bool,
    pub frames_since_keyframe: u32,
    pub last_event: Option<AdaptationEvent>,
}

/// What the scheduler decided on an observation.
#[derive(Debug, Clone, Copy, PartialEq, Eq, Structural)]
pub struct AdaptationDecision {
    pub state: AdaptationState,
    pub event: Option<AdaptationEvent>,
}

/// The state that a stream starts with: a stream that favours latency
/// begins with a keyframe every 30 frames, deltas four deep and no deadline
/// offset; one that favours resilience with a keyframe every 15 frames,
/// deltas two deep and 5 ms of offset.
pub open spec fn baseline_spec(intent: StreamIntent) -> AdaptationState {
    if intent.favors_latency_spec() {
        AdaptationState {
            keyframe_interval: 30,
            delta_depth: 4,
            deadline_offset_ms: 0,
            degraded_safe: false,
            frames_since_keyframe: 0,
            last_event: None,
        }
    } else {
        AdaptationState {
            keyframe_interval: 15,
            delta_depth: 2,
            deadline_offset_ms: 5,
            degraded_safe: false,
            frames_since_keyframe: 0,
            last_event: None,
        }
    }
}

/// The keyframe interval after the scheduler degrades.
pub open spec fn raised_interval(interval: u32) -> u32 {
    if interval < RECOVERY_KEYFRAME_FLOOR {
        RECOVERY_KEYFRAME_FLOOR
    } else {
        interval
    }
}

/// The delta depth after the scheduler degrades.
pub open spec fn reduced_depth(depth: u32) -> u32 {
    if depth <= MIN_DELTA_DEPTH {
        depth
    } else if depth / 2 < MIN_DELTA_DEPTH {
        MIN_DELTA_DEPTH
    } else {
        depth / 2
    }
}

/// The keyframe interval after the scheduler recovers.
pub open spec fn shrunk_interval(interval: u32) -> u32 {
    if interval <= MIN_KEYFRAME_INTERVAL {
        interval
    } else if interval - KEYFRAME_INTERVAL_STEP < MIN_KEYFRAME_INTERVAL {
        MIN_KEYFRAME_INTERVAL
    } else {
        (interval - KEYFRAME_INTERVAL_STEP) as u32
    }
}

/// The delta depth after the scheduler recovers.
pub open spec fn grown_depth(depth: u32) -> u32 {
    if depth >= MAX_DELTA_DEPTH {
        depth
    } else {
        (depth + 1) as u32
    }
}

/// The frame count, held below a keyframe interval, so that the frame
/// after a shrunk interval is a keyframe.
pub open spec fn held_count(frames: u32, interval: u32) -> u32 {
    if interval >= 1 && frames >= interval {
        (interval - 1) as u32
    } else {
        frames
    }
}

/// What the scheduler decides: in recovery it degrades; outside recovery,
/// for a stream that favours latency, it recovers; otherwise it holds
/// steady.
pub open spec fn decide_spec(
    state: AdaptationState,
    recovery: Option<RecoveryReason>,
    intent: StreamIntent,
) -> AdaptationDecision {
    if recovery is Some {
        AdaptationDecision {
            state: AdaptationState {
                keyframe_interval: raised_interval(state.keyframe_interval),
                delta_depth: reduced_depth(state.delta_depth),
                degraded_safe: true,
                last_event: Some(AdaptationEvent::Degrade),
                ..state
            },
            event: Some(AdaptationEvent::Degrade),
        }
    } else if intent.favors_latency_spec() {
        AdaptationDecision {
            state: AdaptationState {
                keyframe_interval: shrunk_interval(state.keyframe_interval),
                delta_depth: grown_depth(state.delta_depth),
                degraded_safe: false,
                frames_since_keyframe: held_count(
                    state.frames_since_keyframe,
                    shrunk_interval(state.keyframe_interval),
                ),
                last_event: Some(AdaptationEvent::Recover),
                ..state
            },
            event: Some(AdaptationEvent::Recover),
        }
    } else {
        AdaptationDecision { state: AdaptationState { last_event: None, ..state }, event: None }
    }
}

impl AdaptationState {
    /// The count of frames since the last keyframe stays below the
    /// keyframe interval.
    pub open spec fn well_formed(self) -> bool {
        self.frames_since_keyframe < self.keyframe_interval
    }

    /// The next frame is a keyframe: with it the count reaches the
    /// interval.
    pub open spec fn keyframe_due(self) -> bool {
        self.frames_since_keyframe + 1 >= self.keyframe_interval
    }

    /// The state after one more frame: the count goes up by one, and back
    /// to 0 on a keyframe.
    pub open spec fn after_frame(self) -> AdaptationState {
        AdaptationState {
            frames_since_keyframe: if self.keyframe_due() {
                0
            } else {
                (self.frames_since_keyframe + 1) as u32
            },
            ..self
        }
    }

    /// The state that a stream starts with.
    pub fn baseline(intent: StreamIntent) -> (state: Self)
        ensures
            state == baseline_spec(intent),
            state.well_formed(),
    {
        if intent.favors_latency() {
            AdaptationState {
                keyframe_interval: 30,
                delta_depth: 4,
                deadline_offset_ms: 0,
                degraded_safe: false,
                frames_since_keyframe: 0,
                last_event: None,
            }
        } else {
            AdaptationState {
                keyframe_interval: 15,
                delta_depth: 2,
                deadline_offset_ms: 5,
                degraded_safe: false,
                frames_since_keyframe: 0,
                last_event: None,
            }
        }
    }

    /// Counts one more frame and says whether it has to be a keyframe.
    /// With a keyframe interval of at least one frame, the count is below
    /// the interval afterwards.
    pub fn should_emit_keyframe(&mut self) -> (force: bool)
        ensures
            force == old(self).keyframe_due(),
            *final(self) == old(self).after_frame(),
            old(self).keyframe_interval >= 1 ==> final(self).well_formed(),
    {
        if self.keyframe_interval == 0 || self.frames_since_keyframe >= self.keyframe_interval
            - 1 {
            self.frames_since_keyframe = 0;
            true
        } else {
            self.frames_since_keyframe = self.frames_since_keyframe + 1;
            false
        }
    }
}

/// Decides the scheduler's next state on an observation, given the recovery
/// episode in force and what the stream favours.
pub fn decide_next_state(
    state: &AdaptationState,
    recovery: Option<RecoveryReason>,
    intent: StreamIntent,
) -> (decision: AdaptationDecision)
    ensures
        decision == decide_spec(*state, recovery, intent),
        state.well_formed() ==> decision.state.well_formed(),
{
    if recovery.is_some() {
        let keyframe_interval = if state.keyframe_interval < RECOVERY_KEYFRAME_FLOOR {
            RECOVERY_KEYFRAME_FLOOR
        } else {
            state.keyframe_interval
        };
        let delta_depth = if state.delta_depth <= MIN_DELTA_DEPTH {
            state.delta_depth
        } else if state.delta_depth / 2 < MIN_DELTA_DEPTH {
            MIN_DELTA_DEPTH
        } else {
            state.delta_depth / 2
        };
        AdaptationDecision {
            state: AdaptationState {
                keyframe_interval,
                delta_depth,
                deadline_offset_ms: state.deadline_offset_ms,
                degraded_safe: true,
                frames_since_keyframe: state.frames_since_keyframe,
                last_event: Some(AdaptationEvent::Degrade),
            },
            event: Some(AdaptationEvent::Degrade),
        }
    } else if intent.favors_latency() {
        let keyframe_interval = if state.keyframe_interval <= MIN_KEYFRAME_INTERVAL {
            state.keyframe_interval
        } else if state.keyframe_interval - KEYFRAME_INTERVAL_STEP < MIN_KEYFRAME_INTERVAL {
            MIN_KEYFRAME_INTERVAL
        } else {
            state.keyframe_interval - KEYFRAME_INTERVAL_STEP
        };
        let delta_depth = if state.delta_depth >= MAX_DELTA_DEPTH {
            state.delta_depth
        } else {
            state.delta_depth + 1
        };
        let frames_since_keyframe = if keyframe_interval >= 1 && state.frames_since_keyframe
            >= keyframe_interval {
            keyframe_interval - 1
        } else {
            state.frames_since_keyframe
        };
        AdaptationDecision {
            state: AdaptationState {
                keyframe_interval,
                delta_depth,
                deadline_offset_ms: state.deadline_offset_ms,
                degraded_safe: false,
                frames_since_keyframe,
                last_event: Some(AdaptationEvent::Recover),
            },
            event: Some(AdaptationEvent::Recover),
        }
    } else {
        AdaptationDecision {
            state: AdaptationState {
                keyframe_interval: state.keyframe_interval,
                delta_depth: state.delta_depth,
                deadline_offset_ms: state.deadline_offset_ms,
                degraded_safe: state.degraded_safe,
                frames_since_keyframe: state.frames_since_keyframe,
                last_event: None,
            },
            event: None,
        }
    }
}

} // verus!
