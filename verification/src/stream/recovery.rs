//! The recovery monitor.
//!
//! The monitor watches the observations of the network. When one first
//! crosses a threshold, a recovery episode starts, and the monitor says why;
//! the episode lasts, under the reason it started with, until an observation
//! crosses no threshold, and then the monitor says that it is over.

use crate::stream::network::NetworkConditions;
use vstd::prelude::*;

verus! {

/// Why the engine is in recovery.
#[derive(Debug, Clone, Copy, PartialEq, Eq, Structural)]
pub enum RecoveryReason {
    HighLoss,
    HighJitter,
    HighLatency,
    LowThroughput,
}

impl RecoveryReason {
    /// The reason as it is written into frame metadata.
    pub open spec fn text_spec(self) -> Seq<char> {
        match self {
            RecoveryReason::HighLoss => "high_loss"@,
            RecoveryReason::HighJitter => "high_jitter"@,
            RecoveryReason::HighLatency => "high_latency"@,
            RecoveryReason::LowThroughput => "low_throughput"@,
        }
    }

    /// The reason as it is written into frame metadata.
    pub fn as_str(&self) -> (text: &'static str)
        ensures
            text@ == self.text_spec(),
    {
        match self {
            RecoveryReason::HighLoss => "high_loss",
            RecoveryReason::HighJitter => "high_jitter",
            RecoveryReason::HighLatency => "high_latency",
            RecoveryReason::LowThroughput => "low_throughput",
        }
    }
}

/// What the monitor reports.
#[derive(Debug, Clone, Copy, PartialEq, Eq, Structural)]
pub enum RecoveryEvent {
    RecoveryStarted(RecoveryReason),
    RecoveryComplete(RecoveryReason),
}

/// The limits beyond which the network counts as degraded.
#[derive(Debug, Clone, Copy, PartialEq, Eq, Structural)]
pub struct RecoveryThresholds {
    /// Loss above this many datagrams per thousand is high.
    pub max_loss_permille: u32,
    /// Jitter above this many milliseconds is high.
    pub max_jitter_ms: u32,
    /// A round trip above this many milliseconds is high latency.
    pub max_rtt_ms: u32,
    /// Throughput below this many kilobits per second is low.
    pub min_throughput_kbps: u32,
}

/// The threshold that an observation crosses, if any. Where it crosses
/// several, loss goes before jitter, jitter before latency, and latency
/// before throughput.
pub open spec fn breach(thresholds: RecoveryThresholds, seen: NetworkConditions) -> Option<
    RecoveryReason,
> {
    if seen.loss_permille > thresholds.max_loss_permille {
        Some(RecoveryReason::HighLoss)
    } else if seen.jitter_ms > thresholds.max_jitter_ms {
        Some(RecoveryReason::HighJitter)
    } else if seen.rtt_ms > thresholds.max_rtt_ms {
        Some(RecoveryReason::HighLatency)
    } else if seen.throughput_kbps < thresholds.min_throughput_kbps {
        Some(RecoveryReason::LowThroughput)
    } else {
        None
    }
}

/// The reason in force after an observation.
pub open spec fn reason_after(
    thresholds: RecoveryThresholds,
    active: Option<RecoveryReason>,
    seen: NetworkConditions,
) -> Option<RecoveryReason> {
    match (active, breach(thresholds, seen)) {
        (None, crossed) => crossed,
        (Some(reason), Some(_)) => Some(reason),
        (Some(_), None) => None,
    }
}

/// What the monitor reports on an observation: the start of an episode when
/// none was running and a threshold is crossed, the end of the running
/// episode when none is crossed, and nothing otherwise.
pub open spec fn event_on(
    thresholds: RecoveryThresholds,
    active: Option<RecoveryReason>,
    seen: NetworkConditions,
) -> Option<RecoveryEvent> {
    match (active, breach(thresholds, seen)) {
        (None, Some(reason)) => Some(RecoveryEvent::RecoveryStarted(reason)),
        (Some(reason), None) => Some(RecoveryEvent::RecoveryComplete(reason)),
        _ => None,
    }
}

/// Tracks the most recent observations of the network and the recovery
/// episode in force.
#[derive(Debug, Clone, Copy, PartialEq, Eq, Structural)]
pub struct RecoveryMonitor {
    pub thresholds: RecoveryThresholds,
    pub active: Option<RecoveryReason>,
    pub last_observation: Option<NetworkConditions>,
}

/// The default limits: 5 % loss, 30 ms jitter, 200 ms round trip, and
/// 500 kbit/s.
pub open spec fn default_thresholds() -> RecoveryThresholds {
    RecoveryThresholds {
        max_loss_permille: 50,
        max_jitter_ms: 30,
        max_rtt_ms: 200,
        min_throughput_kbps: 500,
    }
}

impl RecoveryMonitor {
    /// A monitor with the default limits, outside any episode.
    pub fn new() -> (monitor: Self)
        ensures
            monitor.thresholds == default_thresholds(),
            monitor.active is None,
            monitor.last_observation is None,
    {
        RecoveryMonitor {
            thresholds: RecoveryThresholds {
                max_loss_permille: 50,
                max_jitter_ms: 30,
                max_rtt_ms: 200,
                min_throughput_kbps: 500,
            },
            active: None,
            last_observation: None,
        }
    }

    /// A monitor with given limits, outside any episode.
    pub fn with_thresholds(thresholds: RecoveryThresholds) -> (monitor: Self)
        ensures
            monitor.thresholds == thresholds,
            monitor.active is None,
            monitor.last_observation is None,
    {
        RecoveryMonitor { thresholds, active: None, last_observation: None }
    }

    fn crossed(&self, seen: &NetworkConditions) -> (reason: Option<RecoveryReason>)
        ensures
            reason == breach(self.thresholds, *seen),
    {
        if seen.loss_permille > self.thresholds.max_loss_permille {
            Some(RecoveryReason::HighLoss)
        } else if seen.jitter_ms > self.thresholds.max_jitter_ms {
            Some(RecoveryReason::HighJitter)
        } else if seen.rtt_ms > self.thresholds.max_rtt_ms {
            Some(RecoveryReason::HighLatency)
        } else if seen.throughput_kbps < self.thresholds.min_throughput_kbps {
            Some(RecoveryReason::LowThroughput)
        } else {
            None
        }
    }

    /// Takes in one observation and reports the start or the end of an
    /// episode, if the observation is one.
    pub fn feed(&mut self, seen: &NetworkConditions) -> (event: Option<RecoveryEvent>)
        ensures
            event == event_on(old(self).thresholds, old(self).active, *seen),
            final(self).active == reason_after(old(self).thresholds, old(self).active, *seen),
            final(self).thresholds == old(self).thresholds,
            final(self).last_observation == Some(*seen),
    {
        let crossed = self.crossed(seen);
        self.last_observation = Some(*seen);
        match (self.active, crossed) {
            (None, Some(reason)) => {
                self.active = Some(reason);
                Some(RecoveryEvent::RecoveryStarted(reason))
            },
            (Some(reason), None) => {
                self.active = None;
                Some(RecoveryEvent::RecoveryComplete(reason))
            },
            _ => None,
        }
    }

    /// The reason of the episode in force, if one is.
    pub fn active_reason(&self) -> (reason: Option<RecoveryReason>)
        ensures
            reason == self.active,
    {
        self.active
    }
}

/// The reason in force after a monitor that started with `active` has taken
/// in all of `observations`.
pub open spec fn reason_after_all(
    thresholds: RecoveryThresholds,
    active: Option<RecoveryReason>,
    observations: Seq<NetworkConditions>,
) -> Option<RecoveryReason>
    decreases observations.len(),
{
    if observations.len() == 0 {
        active
    } else {
        reason_after(
            thresholds,
            reason_after_all(thresholds, active, observations.drop_last()),
            observations.last(),
        )
    }
}

/// What such a monitor has reported, in order.
pub open spec fn reported(
    thresholds: RecoveryThresholds,
    active: Option<RecoveryReason>,
    observations: Seq<NetworkConditions>,
) -> Seq<RecoveryEvent>
    decreases observations.len(),
{
    if observations.len() == 0 {
        Seq::empty()
    } else {
        let before = reported(thresholds, active, observations.drop_last());
        match event_on(
            thresholds,
            reason_after_all(thresholds, active, observations.drop_last()),
            observations.last(),
        ) {
            Some(event) => before.push(event),
            None => before,
        }
    }
}

/// Starts and ends take turns: the reports at even positions are starts,
/// and each report at an odd position is the end of the episode whose start
/// stands just before it, with the same reason.
#[verifier::opaque]
pub open spec fn episodes_alternate(events: Seq<RecoveryEvent>) -> bool {
    forall|k: int|
        0 <= k < events.len() ==> if k % 2 == 0 {
            (#[trigger] events[k]) is RecoveryStarted
        } else {
            events[k] is RecoveryComplete && events[k - 1] == RecoveryEvent::RecoveryStarted(
                events[k]->RecoveryComplete_0,
            )
        }
}

proof fn lemma_next_report_keeps_turns(events: Seq<RecoveryEvent>, next: RecoveryEvent)
    requires
        episodes_alternate(events),
        events.len() % 2 == 0 ==> next is RecoveryStarted,
        events.len() % 2 == 1 ==> next is RecoveryComplete && events.last()
            == RecoveryEvent::RecoveryStarted(next->RecoveryComplete_0),
    ensures
        episodes_alternate(events.push(next)),
{
    reveal(episodes_alternate);
    let after = events.push(next);
    assert forall|k: int| 0 <= k < after.len() implies if k % 2 == 0 {
        (#[trigger] after[k]) is RecoveryStarted
    } else {
        after[k] is RecoveryComplete && after[k - 1] == RecoveryEvent::RecoveryStarted(
            after[k]->RecoveryComplete_0,
        )
    } by {
        if k < events.len() {
            assert(after[k] == events[k]);
            if k > 0 {
                assert(after[k - 1] == events[k - 1]);
            }
        } else {
            assert(after[k] == next);
            if k > 0 {
                assert(after[k - 1] == events.last());
            }
        }
    }
}

proof fn lemma_reports_follow_episodes(
    thresholds: RecoveryThresholds,
    observations: Seq<NetworkConditions>,
)
    ensures
        episodes_alternate(reported(thresholds, None, observations)),
        match reason_after_all(thresholds, None, observations) {
            None => reported(thresholds, None, observations).len() % 2 == 0,
            Some(reason) => reported(thresholds, None, observations).len() % 2 == 1 && reported(
                thresholds,
                None,
                observations,
            ).last() == RecoveryEvent::RecoveryStarted(reason),
        },
    decreases observations.len(),
{
    if observations.len() == 0 {
        assert(episodes_alternate(Seq::<RecoveryEvent>::empty())) by {
            reveal(episodes_alternate);
        }
    } else {
        lemma_reports_follow_episodes(thresholds, observations.drop_last());
        let before = reported(thresholds, None, observations.drop_last());
        let active = reason_after_all(thresholds, None, observations.drop_last());
        match event_on(thresholds, active, observations.last()) {
            Some(event) => {
                lemma_next_report_keeps_turns(before, event);
                assert(reported(thresholds, None, observations) == before.push(event));
                assert(before.push(event).last() == event);
            },
            None => {
                assert(reported(thresholds, None, observations) == before);
            },
        }
    }
}

/// For every stream of observations, a monitor that starts outside any
/// episode reports starts and ends in turns, beginning with a start: every
/// end follows the start of its own episode, carries that start's reason,
/// and no episode is started or ended twice.
pub proof fn lemma_recovery_episodes_are_reported_once(
    thresholds: RecoveryThresholds,
    observations: Seq<NetworkConditions>,
)
    ensures
        episodes_alternate(reported(thresholds, None, observations)),
{
    lemma_reports_follow_episodes(thresholds, observations);
}

} // verus!
