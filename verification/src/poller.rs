//! The poller's per-cycle decision: what to do with one fetch outcome.
//!
//! A poller runs fetch → transform → publish on a fixed cadence. The fetch
//! and the channel send are the shell's work; what the poller decides from
//! their outcomes is fixed here: transport errors and empty projects are
//! retried next cadence without publishing, and a closed channel — the
//! render loop dropped its receiver — ends the poller quietly, never with a
//! panic.

use vstd::prelude::*;

verus! {

/// What one fetch of remote state came to.
pub enum PollOutcome<T> {
    /// The request failed in transport; nothing was fetched.
    TransportError,
    /// The forge answered, but with no project (not indexed, or no access).
    NoProject,
    /// A project was fetched.
    Fetched(T),
}

/// What the poller does next.
#[derive(Clone, Copy, Debug, PartialEq, Eq, Structural)]
pub enum PollerStep {
    /// Publish the fetched record, then sleep one cadence.
    Publish,
    /// Publish nothing; sleep one cadence and fetch again.
    Retry,
    /// Terminate: the receiver is gone.
    Stop,
}

/// The poller's decision for one cycle: publish only a fetched record into
/// a live channel; retry on errors and empty projects; stop when the
/// receiver is gone.
pub open spec fn spec_poller_step<T>(outcome: PollOutcome<T>, receiver_alive: bool) -> PollerStep {
    match outcome {
        PollOutcome::TransportError => PollerStep::Retry,
        PollOutcome::NoProject => PollerStep::Retry,
        PollOutcome::Fetched(_) => if receiver_alive {
            PollerStep::Publish
        } else {
            PollerStep::Stop
        },
    }
}

/// Decide one poll cycle.
pub fn poller_step<T>(outcome: &PollOutcome<T>, receiver_alive: bool) -> (s: PollerStep)
    ensures
        s == spec_poller_step(*outcome, receiver_alive),
{
    match outcome {
        PollOutcome::TransportError => PollerStep::Retry,
        PollOutcome::NoProject => PollerStep::Retry,
        PollOutcome::Fetched(_) => if receiver_alive {
            PollerStep::Publish
        } else {
            PollerStep::Stop
        },
    }
}

/// A poller whose receiver is dropped terminates: once the channel is
/// closed, no outcome is ever published, and the first fetched record ends
/// the poller. Being a total verified function, the decision also cannot
/// panic.
pub proof fn lemma_poller_stops_when_receiver_dropped<T>(outcome: PollOutcome<T>)
    ensures
        spec_poller_step(outcome, false) != PollerStep::Publish,
        outcome is Fetched ==> spec_poller_step(outcome, false) == PollerStep::Stop,
{
}

} // verus!
