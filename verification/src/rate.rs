//! The one derived, stateful metric: network throughput.
//!
//! The probes report cumulative byte counters; the collector keeps the
//! previous tick's counters and divides the growth by the elapsed wall
//! time. When no time has measurably passed, the previous rates are
//! retained unchanged, so no division by zero can reach a snapshot.

use vstd::prelude::*;

use crate::stats::Network;

verus! {

/// The previous tick's cumulative network counters and the rates
/// computed at that tick; owned by the collector, never exposed.
#[derive(Clone, Copy, Debug, PartialEq, Eq, Structural)]
pub struct RateState {
    /// Cumulative bytes received over all interfaces, as of the
    /// previous tick.
    pub total_rx: u64,
    /// Cumulative bytes transmitted over all interfaces, as of the
    /// previous tick.
    pub total_tx: u64,
    /// The rates computed at the previous tick.
    pub last: Network,
}

impl RateState {
    /// The state before any tick: zero counters, zero rates.
    pub fn initial() -> (r: RateState)
        ensures
            r == (RateState { total_rx: 0, total_tx: 0, last: Network { down: 0, up: 0 } }),
    {
        RateState { total_rx: 0, total_tx: 0, last: Network { down: 0, up: 0 } }
    }
}

/// The rate in bytes per second for a counter that grew from `prev` to
/// `cur` over `elapsed_ms` milliseconds (for `elapsed_ms > 0`): the
/// growth scaled to one second, clamped into a `u64`. A counter that
/// shrank (an interface that disappeared) counts as no growth.
pub open spec fn spec_rate(prev: u64, cur: u64, elapsed_ms: u64) -> u64 {
    let delta: int = if cur >= prev {
        cur - prev
    } else {
        0
    };
    let r = delta * 1000 / elapsed_ms as int;
    if r > u64::MAX {
        u64::MAX
    } else {
        r as u64
    }
}

/// Computes one counter's rate.
fn rate_of(prev: u64, cur: u64, elapsed_ms: u64) -> (r: u64)
    requires
        elapsed_ms > 0,
    ensures
        r == spec_rate(prev, cur, elapsed_ms),
{
    let delta: u64 = if cur >= prev {
        cur - prev
    } else {
        0
    };
    let wide: u128 = (delta as u128) * 1000 / (elapsed_ms as u128);
    if wide > u64::MAX as u128 {
        u64::MAX
    } else {
        wide as u64
    }
}

/// One tick of the derived network metric: given the current cumulative
/// counters and the elapsed wall time, returns the rates to publish and
/// the state for the next tick.
///
/// With a measurable elapsed time the rates are the counter growth per
/// second; with zero elapsed time the previous rates are retained
/// unchanged, so the result is always finite and non-negative.
pub fn advance_rate(prev: RateState, cur_rx: u64, cur_tx: u64, elapsed_ms: u64) -> (r: (
    Network,
    RateState,
))
    ensures
        r.1.total_rx == cur_rx,
        r.1.total_tx == cur_tx,
        r.1.last == r.0,
        elapsed_ms == 0 ==> r.0 == prev.last,
        elapsed_ms > 0 ==> r.0 == (Network {
            down: spec_rate(prev.total_rx, cur_rx, elapsed_ms),
            up: spec_rate(prev.total_tx, cur_tx, elapsed_ms),
        }),
{
    let net = if elapsed_ms == 0 {
        prev.last
    } else {
        Network {
            down: rate_of(prev.total_rx, cur_rx, elapsed_ms),
            up: rate_of(prev.total_tx, cur_tx, elapsed_ms),
        }
    };
    (net, RateState { total_rx: cur_rx, total_tx: cur_tx, last: net })
}

} // verus!
