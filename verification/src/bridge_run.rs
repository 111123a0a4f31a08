//! Whole runs of a bridge: what holds of every sequence of events.
//!
//! The parts of a bridge proceed in no fixed order, so a run of a bridge is
//! any interleaving of the ends of their operations. Each entry of a run
//! pairs an event with the sample that the injector draws, were the event the
//! end of its pause.

use vstd::prelude::*;
use crate::bridge::{launch_fails, BridgeEvent, BridgeState, BridgeStep, Direction};
use crate::error::TransferOutcome;
use crate::injector::SAMPLE_SPACE;
use crate::relay::{RelayEvent, RelayRequest, RelayStep};

verus! {

/// What a bridge has done so far.
pub struct BridgeRun<E> {
    /// The bridge's state.
    pub state: BridgeState,
    /// The bridge's outcome, once it is resolved.
    pub outcome: Option<TransferOutcome<E>>,
}

impl<E> BridgeRun<E> {
    /// The run after one more event. An event that gets no answer leaves the
    /// run as it is.
    pub open spec fn extend(self, event: BridgeEvent<E>, sample: u32) -> Self {
        match self.state.respond(event, sample) {
            None => self,
            Some(BridgeStep::Continue(_)) => BridgeRun {
                state: self.state.after(event, sample),
                ..self
            },
            Some(BridgeStep::Resolved(outcome)) => BridgeRun {
                state: self.state.after(event, sample),
                outcome: Some(outcome),
            },
        }
    }

    /// The run of a bridge after the given events, from the given state.
    pub open spec fn of(start: BridgeState, events: Seq<(BridgeEvent<E>, u32)>) -> Self
        decreases events.len(),
    {
        if events.len() == 0 {
            BridgeRun { state: start, outcome: None }
        } else {
            Self::of(start, events.drop_last()).extend(events.last().0, events.last().1)
        }
    }

    /// While the bridge is unresolved all its parts are under way: each relay
    /// awaits an operation, and there is no outcome. Once it is resolved
    /// there is one.
    pub open spec fn consistent(self) -> bool {
        &&& self.state.well_formed()
        &&& self.state.resolved <==> self.outcome is Some
        &&& !self.state.resolved ==> self.state.a_to_b.pending is Some
            && self.state.b_to_a.pending is Some
    }
}

/// First completion wins: the end of either relay resolves an unresolved
/// bridge to that relay's result, whatever the other relay and the injector
/// await, and the resolved bridge answers no further event.
pub proof fn lemma_first_completion_wins<E>(
    state: BridgeState,
    direction: Direction,
    event: RelayEvent<E>,
    result: Result<(), E>,
    sample: u32,
    later: BridgeEvent<E>,
    later_sample: u32,
)
    requires
        !state.resolved,
        state.relay(direction).respond(event) == Some(RelayStep::Finished(result)),
    ensures
        state.respond(BridgeEvent::Relay(direction, event), sample) == Some(
            BridgeStep::Resolved(TransferOutcome::of_relay(result)),
        ),
        state.after(BridgeEvent::Relay(direction, event), sample).resolved,
        state.after(BridgeEvent::Relay(direction, event), sample).pending(Direction::AToB) is None,
        state.after(BridgeEvent::Relay(direction, event), sample).pending(Direction::BToA) is None,
        !state.after(BridgeEvent::Relay(direction, event), sample).injector_pending(),
        state.after(BridgeEvent::Relay(direction, event), sample).respond(later, later_sample)
            is None,
{
}

/// One direction reaches the end of its data while the other is under way:
/// the relay of that direction asks for a flush, and when the flush succeeds
/// the bridge resolves to success. Nothing is asked of the other direction in
/// between, and nothing waits for it.
pub proof fn lemma_end_of_data_resolves_the_bridge<E>(
    state: BridgeState,
    direction: Direction,
    sample: u32,
)
    requires
        !state.resolved,
        state.relay(direction).pending is Some,
        state.relay(direction).pending->0 is Read,
    ensures
        ({
            let end_of_data = BridgeEvent::<E>::Relay(direction, RelayEvent::ReadDone(Ok(0)));
            let flushed = BridgeEvent::<E>::Relay(direction, RelayEvent::FlushDone(Ok(())));
            let other = match direction {
                Direction::AToB => Direction::BToA,
                Direction::BToA => Direction::AToB,
            };
            let flushing = state.after(end_of_data, sample);
            &&& state.respond(end_of_data, sample) == Some(
                BridgeStep::<E>::Continue(
                    crate::bridge::BridgeRequest::Relay(direction, RelayRequest::Flush),
                ),
            )
            &&& flushing.relay(other) == state.relay(other)
            &&& flushing.respond(flushed, sample) == Some(
                BridgeStep::<E>::Resolved(TransferOutcome::Success),
            )
            &&& flushing.after(flushed, sample).resolved
            &&& flushing.after(flushed, sample).relay(other) == state.relay(other)
        }),
{
}

/// With probability one the injector resolves the bridge to the synthetic
/// failure the first time it is heard: at the launch, before any relay has
/// been asked for an operation, and at the end of any pause.
pub proof fn lemma_certain_fault_resolves_at_once<E>(state: BridgeState, sample: u32)
    ensures
        launch_fails(Some(SAMPLE_SPACE), sample),
        !state.resolved && state.injector == Some(SAMPLE_SPACE) ==> state.respond(
            BridgeEvent::<E>::InjectorSlept,
            sample,
        ) == Some(BridgeStep::<E>::Resolved(TransferOutcome::SyntheticFailure)),
{
}

/// With probability zero, or without an injector, no bridge resolves to the
/// synthetic failure.
pub proof fn lemma_no_fault_without_probability<E>(
    state: BridgeState,
    event: BridgeEvent<E>,
    sample: u32,
)
    requires
        state.injector is None || state.injector == Some(0u64),
    ensures
        !launch_fails(state.injector, sample),
        state.respond(event, sample) != Some(
            BridgeStep::<E>::Resolved(TransferOutcome::SyntheticFailure),
        ),
{
}

/// The cause that an event carries: that of a relay's read, write or flush
/// that failed.
pub open spec fn cause_of<E>(event: BridgeEvent<E>) -> Option<E> {
    match event {
        BridgeEvent::Relay(_, RelayEvent::ReadDone(Err(cause))) => Some(cause),
        BridgeEvent::Relay(_, RelayEvent::WriteDone(Err(cause))) => Some(cause),
        BridgeEvent::Relay(_, RelayEvent::FlushDone(Err(cause))) => Some(cause),
        _ => None,
    }
}

/// The two kinds of failure stay apart. A bridge resolves to the synthetic
/// failure only at the end of a pause of its injector, and then exactly on a
/// sample under the threshold; it resolves to a transport failure only at the
/// end of a relay's operation that failed, and with that operation's cause;
/// it resolves to success only at the end of a relay's flush that succeeded.
pub proof fn lemma_outcomes_keep_their_tag<E>(
    state: BridgeState,
    event: BridgeEvent<E>,
    sample: u32,
)
    ensures
        (state.respond(event, sample) == Some(
            BridgeStep::<E>::Resolved(TransferOutcome::SyntheticFailure),
        )) <==> (!state.resolved && event is InjectorSlept && state.injector is Some && (
        sample as u64) < state.injector->0),
        state.respond(event, sample) matches Some(
            BridgeStep::Resolved(TransferOutcome::IoFailure(cause)),
        ) ==> cause_of(event) == Some(cause),
        state.respond(event, sample) == Some(BridgeStep::<E>::Resolved(TransferOutcome::Success))
            ==> (event is Relay && event->Relay_1 == RelayEvent::<E>::FlushDone(Ok(()))
            && state.relay(event->Relay_0).pending == Some(RelayRequest::Flush)),
{
    if let BridgeEvent::Relay(_, RelayEvent::FlushDone(Ok(done))) = event {
        assert(done == ());
    }
}

/// One event keeps a run consistent.
proof fn lemma_extend_consistent<E>(run: BridgeRun<E>, event: BridgeEvent<E>, sample: u32)
    requires
        run.consistent(),
    ensures
        run.extend(event, sample).consistent(),
{
}

/// Every run of a launched bridge is consistent: while the bridge is
/// unresolved each relay awaits an operation, and the bridge has an outcome
/// exactly when it is resolved.
pub proof fn lemma_run_consistent<E>(
    chunk_size: usize,
    injector: Option<u64>,
    events: Seq<(BridgeEvent<E>, u32)>,
)
    requires
        chunk_size >= 1,
    ensures
        BridgeRun::of(BridgeState::launched(chunk_size, injector), events).consistent(),
    decreases events.len(),
{
    if events.len() > 0 {
        lemma_run_consistent(chunk_size, injector, events.drop_last());
        lemma_extend_consistent(
            BridgeRun::of(BridgeState::launched(chunk_size, injector), events.drop_last()),
            events.last().0,
            events.last().1,
        );
    }
}

/// A bridge resolves once: after its resolution no event changes its state
/// or its outcome.
pub proof fn lemma_resolution_is_final<E>(
    start: BridgeState,
    events: Seq<(BridgeEvent<E>, u32)>,
    more: Seq<(BridgeEvent<E>, u32)>,
)
    requires
        BridgeRun::of(start, events).state.resolved,
    ensures
        BridgeRun::of(start, events + more) == BridgeRun::of(start, events),
    decreases more.len(),
{
    if more.len() == 0 {
        assert(events + more =~= events);
    } else {
        lemma_resolution_is_final(start, events, more.drop_last());
        assert((events + more).drop_last() =~= events + more.drop_last());
        assert((events + more).last() == more.last());
    }
}

} // verus!
