//! Sampling and time-series aggregation engine for a desktop resource
//! monitor.
//!
//! The crate turns hardware and OS counters into immutable snapshots,
//! keeps a bounded chronological history of them, and answers windowed
//! queries by decimating that history to a caller-chosen point budget.
//! Probing the hardware is delegated to outside crates behind thin
//! trusted wrappers; everything that computes on the readings is
//! verified.

pub mod fmt;
pub mod history;
pub mod monitor;
mod probes;
pub mod rate;
pub mod state;
pub mod stats;
pub mod sums;
pub mod window;
