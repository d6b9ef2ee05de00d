//! Observations of the network, in whole units.

use vstd::prelude::*;

verus! {

/// One observation of the path between controller and node.
#[derive(Debug, Clone, Copy, PartialEq, Eq, Structural)]
pub struct NetworkConditions {
    /// Lost datagrams per thousand sent.
    pub loss_permille: u32,
    /// Variation of the one-way delay, in milliseconds.
    pub jitter_ms: u32,
    /// Round-trip time, in milliseconds.
    pub rtt_ms: u32,
    /// Delivered payload, in kilobits per second.
    pub throughput_kbps: u32,
}

} // verus!
