//! The loop that follows consensus, one turn at a time.
//!
//! The service reads the stream of consensus events and hands each event to
//! the handler for its kind. When the stream ends it connects again, waiting
//! longer after each failure. The loop itself, with its reads, sleeps and
//! connections, belongs to the caller; what to do on each turn is decided
//! here.

use vstd::prelude::*;
use crate::error::BuildError;
use crate::events::{handle_view_finished, BID_VIEWS_AHEAD};

verus! {

/// What a consensus event is about, with what the service reads of it.
pub enum ConsensusEvent {
    /// Consensus reports an error of its own.
    Error,
    /// Transactions that consensus heard of.
    Transactions,
    /// A decide; `leaf_views` are the views of the decided leaves, newest
    /// first.
    Decide { leaf_views: Vec<u64> },
    /// A data-availability proposal.
    DaProposal,
    /// A quorum proposal.
    QuorumProposal,
    /// A view has ended.
    ViewFinished { view_number: u64 },
    /// Anything else.
    Other,
}

/// What the service is told on a turn.
pub enum ServiceInput {
    /// The stream delivered an event.
    Event { event: ConsensusEvent },
    /// The stream delivered an error.
    StreamError,
    /// The stream has ended.
    StreamEnded,
    /// The connection to the events service stands again.
    Reconnected,
    /// The attempt to connect to the events service failed.
    ReconnectFailed,
}

/// Where the service stands.
#[derive(Clone, Copy, Debug, PartialEq, Eq, Structural)]
pub enum ServiceState {
    /// Reading events.
    Running,
    /// Connecting again after the stream ended; `failures` attempts have
    /// failed in a row.
    Reconnecting { failures: u32 },
    /// The service has given up.
    Stopped,
}

/// What the service asks for on a turn.
#[derive(Clone, Copy, Debug, PartialEq, Eq, Structural)]
pub enum ServiceAction {
    /// Nothing to do but to note the event and read on.
    Continue,
    /// Take in the transactions of the event.
    HandleTransactions,
    /// Tell the builder states that `view` was decided, and collect the
    /// states that the decide leaves behind.
    Decide { view: u64 },
    /// Check the data-availability proposal and pass it on.
    HandleDaProposal,
    /// Check the quorum proposal and pass it on.
    HandleQuorumProposal,
    /// Submit a bid for `view`.
    SubmitBid { view: u64 },
    /// Connect to the events service again after `delay` nanoseconds.
    Reconnect { delay: u64 },
    /// End the service with `error`.
    Stop { error: BuildError },
}

/// How the service connects again when the stream of events ends.
#[derive(Clone, Copy, Debug)]
pub struct ReconnectPolicy {
    /// After this many failed attempts in a row the service stops; `None`
    /// if it never stops trying.
    pub max_attempts: Option<u32>,
    /// The wait before the second attempt, in nanoseconds. The wait doubles
    /// with each further attempt.
    pub base_delay: u64,
    /// The longest wait before any attempt, in nanoseconds.
    pub max_delay: u64,
}

/// `base` doubled `times` times.
pub open spec fn doubled(base: nat, times: nat) -> nat
    decreases times,
{
    if times == 0 {
        base
    } else {
        2 * doubled(base, (times - 1) as nat)
    }
}

impl ReconnectPolicy {
    /// The wait before the next attempt after `failures` failed attempts
    /// in a row: none before the first attempt, then the base delay doubled
    /// with each failure after the first, but never more than the longest
    /// wait.
    pub open spec fn delay_after(self, failures: u32) -> u64 {
        if failures == 0 {
            0
        } else if doubled(self.base_delay as nat, (failures - 1) as nat) <= self.max_delay {
            doubled(self.base_delay as nat, (failures - 1) as nat) as u64
        } else {
            self.max_delay
        }
    }

    /// Whether the service gives up after `failures` failed attempts in a
    /// row.
    pub open spec fn gives_up(self, failures: nat) -> bool {
        match self.max_attempts {
            Some(max) => failures >= max,
            None => false,
        }
    }

    /// The wait before the next attempt after `failures` failed attempts in
    /// a row, in nanoseconds.
    pub fn delay(&self, failures: u32) -> (nanos: u64)
        ensures
            nanos == self.delay_after(failures),
    {
        if failures == 0 {
            return 0;
        }
        let mut nanos: u64 = self.base_delay;
        let mut done: u32 = 1;
        while done < failures
            invariant
                1 <= done <= failures,
                nanos == doubled(self.base_delay as nat, (done - 1) as nat),
                nanos <= self.max_delay || done == 1,
            decreases failures - done,
        {
            if nanos > self.max_delay / 2 {
                proof {
                    // From here on every further doubling stays above the cap.
                    lemma_doubled_from(
                        self.base_delay as nat,
                        (done - 1) as nat,
                        (failures - 1) as nat,
                    );
                }
                return self.max_delay;
            }
            nanos = nanos * 2;
            done += 1;
        }
        if nanos > self.max_delay {
            self.max_delay
        } else {
            nanos
        }
    }
}

/// Doubling is monotone in the number of times.
pub proof fn lemma_doubled_from(base: nat, from: nat, to: nat)
    requires
        from <= to,
    ensures
        doubled(base, to) >= doubled(base, from),
        from < to ==> doubled(base, to) >= 2 * doubled(base, from),
    decreases to - from,
{
    if from < to {
        lemma_doubled_from(base, from, (to - 1) as nat);
    }
}

/// The view that a decide names: the view of the newest decided leaf.
pub open spec fn decided_view(leaf_views: Seq<u64>) -> Option<u64> {
    if leaf_views.len() > 0 {
        Some(leaf_views[0])
    } else {
        None
    }
}

/// What the service asks for when it reads `event`.
pub open spec fn on_event(event: ConsensusEvent) -> ServiceAction {
    match event {
        ConsensusEvent::Error => ServiceAction::Continue,
        ConsensusEvent::Transactions => ServiceAction::HandleTransactions,
        ConsensusEvent::Decide { leaf_views } => match decided_view(leaf_views@) {
            Some(view) => ServiceAction::Decide { view },
            None => ServiceAction::Continue,
        },
        ConsensusEvent::DaProposal => ServiceAction::HandleDaProposal,
        ConsensusEvent::QuorumProposal => ServiceAction::HandleQuorumProposal,
        ConsensusEvent::ViewFinished { view_number } => if view_number + BID_VIEWS_AHEAD
            <= u64::MAX {
            ServiceAction::SubmitBid { view: (view_number + BID_VIEWS_AHEAD) as u64 }
        } else {
            ServiceAction::Continue
        },
        ConsensusEvent::Other => ServiceAction::Continue,
    }
}

/// One turn of the service. With `reconnects` the service takes up a stream
/// that has ended; without it the end of the stream is only noted.
pub open spec fn turn(
    policy: ReconnectPolicy,
    reconnects: bool,
    state: ServiceState,
    input: ServiceInput,
) -> (ServiceState, ServiceAction) {
    match (state, input) {
        (ServiceState::Running, ServiceInput::Event { event }) => (state, on_event(event)),
        (ServiceState::Running, ServiceInput::StreamError) => (state, ServiceAction::Continue),
        (ServiceState::Running, ServiceInput::StreamEnded) => if reconnects {
            (
                ServiceState::Reconnecting { failures: 0 },
                ServiceAction::Reconnect { delay: policy.delay_after(0) },
            )
        } else {
            (state, ServiceAction::Continue)
        },
        (ServiceState::Reconnecting { failures }, ServiceInput::Reconnected) => (
            ServiceState::Running,
            ServiceAction::Continue,
        ),
        (ServiceState::Reconnecting { failures }, ServiceInput::ReconnectFailed) => {
            if policy.gives_up((failures + 1) as nat) || failures == u32::MAX {
                (ServiceState::Stopped, ServiceAction::Stop { error: BuildError::EventStreamLost })
            } else {
                (
                    ServiceState::Reconnecting { failures: (failures + 1) as u32 },
                    ServiceAction::Reconnect { delay: policy.delay_after((failures + 1) as u32) },
                )
            }
        },
        _ => (state, ServiceAction::Continue),
    }
}

/// What the service asks for when it reads `event`.
pub fn dispatch(event: &ConsensusEvent) -> (action: ServiceAction)
    ensures
        action == on_event(*event),
{
    match event {
        ConsensusEvent::Error => ServiceAction::Continue,
        ConsensusEvent::Transactions => ServiceAction::HandleTransactions,
        ConsensusEvent::Decide { leaf_views } => {
            if leaf_views.len() > 0 {
                ServiceAction::Decide { view: leaf_views[0] }
            } else {
                ServiceAction::Continue
            }
        },
        ConsensusEvent::DaProposal => ServiceAction::HandleDaProposal,
        ConsensusEvent::QuorumProposal => ServiceAction::HandleQuorumProposal,
        ConsensusEvent::ViewFinished { view_number } => {
            if *view_number <= u64::MAX - BID_VIEWS_AHEAD {
                ServiceAction::SubmitBid { view: handle_view_finished(*view_number) }
            } else {
                ServiceAction::Continue
            }
        },
        ConsensusEvent::Other => ServiceAction::Continue,
    }
}

/// One turn of a service, shared by both kinds of service.
fn take_turn(
    policy: &ReconnectPolicy,
    reconnects: bool,
    state: &mut ServiceState,
    input: ServiceInput,
) -> (action: ServiceAction)
    ensures
        (*final(state), action) == turn(*policy, reconnects, *old(state), input),
{
    match (*state, input) {
        (ServiceState::Running, ServiceInput::Event { event }) => dispatch(&event),
        (ServiceState::Running, ServiceInput::StreamEnded) => {
            if reconnects {
                *state = ServiceState::Reconnecting { failures: 0 };
                ServiceAction::Reconnect { delay: policy.delay(0) }
            } else {
                ServiceAction::Continue
            }
        },
        (ServiceState::Reconnecting { failures }, ServiceInput::Reconnected) => {
            *state = ServiceState::Running;
            ServiceAction::Continue
        },
        (ServiceState::Reconnecting { failures }, ServiceInput::ReconnectFailed) => {
            let give_up = failures == u32::MAX || match policy.max_attempts {
                Some(max) => failures + 1 >= max,
                None => false,
            };
            if give_up {
                *state = ServiceState::Stopped;
                ServiceAction::Stop { error: BuildError::EventStreamLost }
            } else {
                *state = ServiceState::Reconnecting { failures: failures + 1 };
                ServiceAction::Reconnect { delay: policy.delay(failures + 1) }
            }
        },
        _ => ServiceAction::Continue,
    }
}

/// One turn of the service that follows consensus over a connection to its
/// events service. Each event goes to the handler for its kind. When the
/// stream ends the service connects again as `policy` says, and stops with
/// an error once the policy gives up.
pub fn run_non_permissioned_standalone_builder_service(
    policy: &ReconnectPolicy,
    state: &mut ServiceState,
    input: ServiceInput,
) -> (action: ServiceAction)
    ensures
        (*final(state), action) == turn(*policy, true, *old(state), input),
{
    take_turn(policy, true, state, input)
}

/// One turn of the service that follows consensus from inside a consensus
/// node. Each event goes to the handler for its kind; the stream of a node
/// does not end, so a read without an event is only noted.
pub fn run_permissioned_standalone_builder_service(
    state: &mut ServiceState,
    input: ServiceInput,
) -> (action: ServiceAction)
    ensures
        (*final(state), action) == turn(
            ReconnectPolicy { max_attempts: None, base_delay: 0, max_delay: 0 },
            false,
            *old(state),
            input,
        ),
{
    let policy = ReconnectPolicy { max_attempts: None, base_delay: 0, max_delay: 0 };
    take_turn(&policy, false, state, input)
}

} // verus!
