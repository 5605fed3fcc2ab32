//! Live power-consumption monitoring core: classification of raw energy
//! counter records, unit conversion to instantaneous power, per-tick
//! aggregation, a bounded rolling history with windowed read accessors,
//! and the sampler state machine that drives the tick cadence.

pub mod command;
pub mod convert;
pub mod power;
pub mod record;
pub mod sampler;
pub mod store;
pub mod strutil;

use vstd::prelude::*;

verus! {

/// The fatal conditions of the monitor: each one terminates the process,
/// there is no retry.
#[derive(Clone, Copy, PartialEq, Eq, Structural, Debug)]
pub enum FatalError {
    /// The platform telemetry interface yielded no subscription handle.
    SubscriptionFailed,
    /// A channel record carried a unit tag outside the supported set,
    /// which indicates a platform contract violation.
    UnsupportedUnit,
    /// The consumer end of the snapshot channel has disconnected.
    ConsumerDisconnected,
}

} // verus!
