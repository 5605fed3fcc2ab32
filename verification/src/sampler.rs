//! The sampler state machine.
//!
//! The sampler owns the tick cadence: it opens one subscription over the
//! platform telemetry interface, then loops forever taking a delta sample
//! per interval, aggregating it, and emitting the snapshot to the
//! consumer. All outside work (the subscription, the blocking delta
//! sample, the channel send) is performed by a driver; this machine takes
//! each outcome as an event and decides the next state and action. Every
//! failure is fatal: failing to subscribe, an unrecognized unit, and a
//! disconnected consumer each terminate the machine, with no retry and no
//! graceful shutdown path.

use vstd::prelude::*;

use crate::power::{aggregate, all_units_ok, spec_aggregate, Power};
use crate::record::IOReportChannel;
use crate::FatalError;

verus! {

/// The phases of the sampler's life: it subscribes once, then samples
/// until a fatal error terminates it.
#[derive(Clone, Copy, PartialEq, Eq, Structural, Debug)]
pub enum SamplerState {
    Uninitialized,
    Subscribed,
    Sampling,
    Terminated,
}

/// The outcome of the outside work the sampler last asked for.
pub enum SamplerEvent {
    /// The subscription handle was obtained.
    SubscriptionReady,
    /// The platform yielded no subscription handle.
    SubscriptionFailed,
    /// One tick's delta sample, taken over the configured interval.
    DeltaSample(Vec<IOReportChannel>),
    /// The consumer accepted the emitted snapshot.
    SendAccepted,
    /// The consumer end of the channel has disconnected.
    SendRejected,
}

/// The outside work the driver must perform next.
pub enum SamplerAction {
    /// Open the subscription over the fixed group set.
    OpenSubscription,
    /// Take one delta sample over the configured interval.
    TakeSample,
    /// Send this snapshot to the consumer.
    Emit(Power),
    /// Terminate the process with this fatal condition.
    Halt(FatalError),
}

/// Which events can answer which state: a subscription outcome only an
/// uninitialized sampler, a delta sample only a subscribed or sampling
/// one, and a send outcome only a sampling one.
pub open spec fn event_fits(state: SamplerState, event: SamplerEvent) -> bool {
    match event {
        SamplerEvent::SubscriptionReady => state == SamplerState::Uninitialized,
        SamplerEvent::SubscriptionFailed => state == SamplerState::Uninitialized,
        SamplerEvent::DeltaSample(_) => state == SamplerState::Subscribed || state
            == SamplerState::Sampling,
        SamplerEvent::SendAccepted => state == SamplerState::Sampling,
        SamplerEvent::SendRejected => state == SamplerState::Sampling,
    }
}

/// The sampler: its phase and the configured tick interval.
pub struct Sampler {
    pub state: SamplerState,
    pub interval_ms: u64,
}

impl Sampler {
    /// A well-formed sampler has a positive interval.
    pub open spec fn wf(&self) -> bool {
        1 <= self.interval_ms
    }

    /// A fresh, not yet subscribed sampler for the given tick interval.
    pub fn new(interval_ms: u64) -> (r: Sampler)
        requires
            1 <= interval_ms,
        ensures
            r.wf(),
            r.state == SamplerState::Uninitialized,
            r.interval_ms == interval_ms,
    {
        Sampler { state: SamplerState::Uninitialized, interval_ms }
    }

    /// The first action of a fresh sampler: open the subscription.
    pub fn start(&self) -> (a: SamplerAction)
        requires
            self.state == SamplerState::Uninitialized,
        ensures
            a == SamplerAction::OpenSubscription,
    {
        SamplerAction::OpenSubscription
    }

    /// Advance the machine by one event and decide the next action:
    /// subscribing moves to sampling; a delta sample aggregates into a
    /// snapshot to emit, or halts on an unrecognized unit; an accepted
    /// send starts the next tick; a failed subscription or a rejected
    /// send halts.
    pub fn step(&mut self, event: SamplerEvent) -> (a: SamplerAction)
        requires
            old(self).wf(),
            event_fits(old(self).state, event),
        ensures
            final(self).wf(),
            final(self).interval_ms == old(self).interval_ms,
            event matches SamplerEvent::SubscriptionReady ==> final(self).state
                == SamplerState::Subscribed && a == SamplerAction::TakeSample,
            event matches SamplerEvent::SubscriptionFailed ==> final(self).state
                == SamplerState::Terminated && a == SamplerAction::Halt(
                FatalError::SubscriptionFailed,
            ),
            event matches SamplerEvent::DeltaSample(records) ==> if all_units_ok(records@) {
                final(self).state == SamplerState::Sampling && a == SamplerAction::Emit(
                    spec_aggregate(records@, old(self).interval_ms as int),
                )
            } else {
                final(self).state == SamplerState::Terminated && a == SamplerAction::Halt(
                    FatalError::UnsupportedUnit,
                )
            },
            event matches SamplerEvent::SendAccepted ==> final(self).state
                == SamplerState::Sampling && a == SamplerAction::TakeSample,
            event matches SamplerEvent::SendRejected ==> final(self).state
                == SamplerState::Terminated && a == SamplerAction::Halt(
                FatalError::ConsumerDisconnected,
            ),
    {
        match event {
            SamplerEvent::SubscriptionReady => {
                self.state = SamplerState::Subscribed;
                SamplerAction::TakeSample
            },
            SamplerEvent::SubscriptionFailed => {
                self.state = SamplerState::Terminated;
                SamplerAction::Halt(FatalError::SubscriptionFailed)
            },
            SamplerEvent::DeltaSample(records) => {
                match aggregate(&records, self.interval_ms) {
                    Ok(p) => {
                        self.state = SamplerState::Sampling;
                        SamplerAction::Emit(p)
                    },
                    Err(_) => {
                        self.state = SamplerState::Terminated;
                        SamplerAction::Halt(FatalError::UnsupportedUnit)
                    },
                }
            },
            SamplerEvent::SendAccepted => {
                self.state = SamplerState::Sampling;
                SamplerAction::TakeSample
            },
            SamplerEvent::SendRejected => {
                self.state = SamplerState::Terminated;
                SamplerAction::Halt(FatalError::ConsumerDisconnected)
            },
        }
    }
}

} // verus!
