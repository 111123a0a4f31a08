//! Whole runs of a relay: what holds of every sequence of events.
//!
//! A run is what a relay has done after a sequence of events, from its start.
//! Besides the relay's state it keeps count of the bytes written, of the
//! cycles completed and of the time spent in pauses. The counts exist to state
//! the laws of this file; a relay does not carry them.

use vstd::prelude::*;
use crate::relay::{RelayEvent, RelayRequest, RelayState, RelayStep};
use crate::throttle::{chunk_size_for, TICK_INTERVAL_MILLIS};

verus! {

/// What a relay has done so far.
pub struct RelayRun<E> {
    /// The relay's state.
    pub state: RelayState,
    /// The relay's result, once it is over.
    pub outcome: Option<Result<(), E>>,
    /// Bytes of completed writes.
    pub bytes_written: nat,
    /// Completed read/write/pause cycles.
    pub cycles: nat,
    /// Milliseconds of completed pauses.
    pub millis_slept: nat,
    /// Whether a flush of the destination has succeeded.
    pub flushed: bool,
}

impl<E> RelayRun<E> {
    /// The run of a relay that has seen no event.
    pub open spec fn start(chunk_size: usize) -> Self {
        RelayRun {
            state: RelayState::initial(chunk_size),
            outcome: None,
            bytes_written: 0,
            cycles: 0,
            millis_slept: 0,
            flushed: false,
        }
    }

    /// The run after one more event. An event that gets no answer leaves the
    /// run as it is; a completed write adds its bytes, a completed pause its
    /// length and one cycle.
    pub open spec fn extend(self, event: RelayEvent<E>) -> Self {
        match self.state.respond(event) {
            None => self,
            Some(step) => RelayRun {
                state: self.state.after(event),
                outcome: match step {
                    RelayStep::Finished(result) => Some(result),
                    RelayStep::Continue(_) => None,
                },
                bytes_written: self.bytes_written + (match (self.state.pending, step) {
                    (Some(RelayRequest::Write { len }), RelayStep::Continue(_)) => len as nat,
                    _ => 0,
                }),
                cycles: self.cycles + (match self.state.pending {
                    Some(RelayRequest::Sleep { .. }) => 1nat,
                    _ => 0,
                }),
                millis_slept: self.millis_slept + (match self.state.pending {
                    Some(RelayRequest::Sleep { millis }) => millis as nat,
                    _ => 0,
                }),
                flushed: self.flushed || step == RelayStep::<E>::Finished(Ok(())),
            },
        }
    }

    /// The run of a relay with the given chunk size after the given events.
    pub open spec fn of(chunk_size: usize, events: Seq<RelayEvent<E>>) -> Self
        decreases events.len(),
    {
        if events.len() == 0 {
            Self::start(chunk_size)
        } else {
            Self::of(chunk_size, events.drop_last()).extend(events.last())
        }
    }

    /// Whether the relay is over.
    pub open spec fn finished(self) -> bool {
        self.state.pending is None
    }

    /// The counts agree with the state: the relay has a result exactly when it
    /// is over, every pause lasted one tick, and the bytes written stay within
    /// one chunk per cycle, the cycle under way included.
    pub open spec fn within_budget(self) -> bool {
        &&& self.state.well_formed()
        &&& self.finished() <==> self.outcome is Some
        &&& self.outcome == Some(Ok::<(), E>(())) ==> self.flushed
        &&& self.millis_slept == TICK_INTERVAL_MILLIS * self.cycles
        &&& match self.state.pending {
            Some(RelayRequest::Sleep { .. }) => self.bytes_written <= self.state.chunk_size * (
            self.cycles + 1),
            _ => self.bytes_written <= self.state.chunk_size * self.cycles,
        }
    }
}

/// One event keeps a run within its budget.
proof fn lemma_extend_within_budget<E>(run: RelayRun<E>, event: RelayEvent<E>)
    requires
        run.within_budget(),
    ensures
        run.extend(event).within_budget(),
        run.extend(event).state.chunk_size == run.state.chunk_size,
{
    let chunk = run.state.chunk_size as nat;
    let cycles = run.cycles;
    assert(chunk * (cycles + 1) == chunk * cycles + chunk) by (nonlinear_arith);
    assert(TICK_INTERVAL_MILLIS * (cycles + 1) == TICK_INTERVAL_MILLIS * cycles
        + TICK_INTERVAL_MILLIS) by (nonlinear_arith);
}

/// Every run stays within its budget: at no moment has a relay written more
/// than one chunk per pause that it has completed, plus the chunk of the cycle
/// under way; and it has succeeded only after flushing its destination.
pub proof fn lemma_run_within_budget<E>(chunk_size: usize, events: Seq<RelayEvent<E>>)
    requires
        chunk_size >= 1,
    ensures
        RelayRun::of(chunk_size, events).within_budget(),
        RelayRun::of(chunk_size, events).state.chunk_size == chunk_size,
    decreases events.len(),
{
    if events.len() > 0 {
        lemma_run_within_budget(chunk_size, events.drop_last());
        lemma_extend_within_budget(RelayRun::of(chunk_size, events.drop_last()), events.last());
    }
}

/// The throttle's lower bound: under a cap of at least ten bytes per second,
/// a relay that is over, or between two cycles, has paused for no less than
/// the time that the cap allows for the bytes it has written. With `N` bytes
/// written under a cap of `R` bytes per second, the pauses add up to at least
/// `N / R` seconds. In the middle of a cycle the relay is at most one tick
/// ahead of that.
///
/// A cap under ten bytes per second is left out: the chunk size is then one
/// byte, which is more than a tenth of the cap.
pub proof fn lemma_throttle_lower_bound<E>(max_bytes_per_sec: usize, events: Seq<RelayEvent<E>>)
    requires
        max_bytes_per_sec >= 10,
    ensures
        ({
            let run = RelayRun::of(chunk_size_for(max_bytes_per_sec as nat) as usize, events);
            &&& run.finished() ==> 1000 * run.bytes_written <= max_bytes_per_sec * run.millis_slept
            &&& !(run.state.pending is Some && run.state.pending->0 is Sleep) ==> 1000
                * run.bytes_written <= max_bytes_per_sec * run.millis_slept
            &&& 1000 * run.bytes_written <= max_bytes_per_sec * (run.millis_slept
                + TICK_INTERVAL_MILLIS)
        }),
{
    let chunk = chunk_size_for(max_bytes_per_sec as nat);
    let run = RelayRun::of(chunk as usize, events);
    lemma_run_within_budget(chunk as usize, events);
    let rate = max_bytes_per_sec as nat;
    let bytes = run.bytes_written;
    let cycles = run.cycles;
    let millis = run.millis_slept;
    assert(millis == 100 * cycles);
    assert(10 * chunk <= rate);
    assert(run.state.chunk_size == chunk);
    assert(chunk * (cycles + 1) == chunk * cycles + chunk) by (nonlinear_arith);
    assert(1000 * bytes <= rate * (millis + 100)) by (nonlinear_arith)
        requires
            bytes <= chunk * (cycles + 1),
            10 * chunk <= rate,
            millis == 100 * cycles,
    ;
    if !(run.state.pending is Some && run.state.pending->0 is Sleep) {
        assert(bytes <= chunk * cycles);
        assert(1000 * bytes <= rate * millis) by (nonlinear_arith)
            requires
                bytes <= chunk * cycles,
                10 * chunk <= rate,
                millis == 100 * cycles,
        ;
    }
}

/// A source without data: the relay asks for a flush in answer to the empty
/// read, and succeeds when the flush does, having asked for no write and no
/// pause.
pub proof fn lemma_empty_source_succeeds<E>(chunk_size: usize)
    ensures
        RelayState::initial(chunk_size).respond(RelayEvent::<E>::ReadDone(Ok(0))) == Some(
            RelayStep::<E>::Continue(RelayRequest::Flush),
        ),
        ({
            let run = RelayRun::<E>::of(
                chunk_size,
                seq![RelayEvent::ReadDone(Ok(0)), RelayEvent::FlushDone(Ok(()))],
            );
            &&& run.outcome == Some(Ok::<(), E>(()))
            &&& run.finished()
            &&& run.flushed
            &&& run.bytes_written == 0
            &&& run.cycles == 0
            &&& run.millis_slept == 0
        }),
{
    let events = seq![RelayEvent::<E>::ReadDone(Ok(0)), RelayEvent::<E>::FlushDone(Ok(()))];
    let first = events.drop_last();
    assert(first.drop_last().len() == 0);
    assert(RelayRun::<E>::of(chunk_size, first.drop_last()) == RelayRun::<E>::start(chunk_size));
    assert(first.last() == RelayEvent::<E>::ReadDone(Ok(0)));
    assert(RelayRun::<E>::of(chunk_size, first) == RelayRun::<E>::start(chunk_size).extend(
        RelayEvent::<E>::ReadDone(Ok(0)),
    ));
    assert(events.last() == RelayEvent::<E>::FlushDone(Ok(())));
}

/// A relay that is over stays as it is: it answers no further event, so it
/// asks for no further read, write, flush or pause.
pub proof fn lemma_nothing_after_the_end<E>(
    chunk_size: usize,
    events: Seq<RelayEvent<E>>,
    more: Seq<RelayEvent<E>>,
)
    requires
        RelayRun::of(chunk_size, events).finished(),
    ensures
        RelayRun::of(chunk_size, events + more) == RelayRun::of(chunk_size, events),
    decreases more.len(),
{
    if more.len() == 0 {
        assert(events + more =~= events);
    } else {
        lemma_nothing_after_the_end(chunk_size, events, more.drop_last());
        assert((events + more).drop_last() =~= events + more.drop_last());
        assert((events + more).last() == more.last());
    }
}

/// A failed read ends the relay at once with the failure's cause, and nothing
/// that happens afterwards makes it pause or write again.
pub proof fn lemma_failed_read_ends_the_run<E>(
    chunk_size: usize,
    events: Seq<RelayEvent<E>>,
    cause: E,
    more: Seq<RelayEvent<E>>,
)
    requires
        ({
            let before = RelayRun::of(chunk_size, events);
            before.state.pending is Some && before.state.pending->0 is Read
        }),
    ensures
        ({
            let before = RelayRun::of(chunk_size, events);
            let failed = RelayRun::of(chunk_size, events.push(RelayEvent::ReadDone(Err(cause))));
            let later = RelayRun::of(
                chunk_size,
                events.push(RelayEvent::ReadDone(Err(cause))) + more,
            );
            &&& before.state.respond(RelayEvent::ReadDone(Err(cause))) == Some(
                RelayStep::Finished(Err(cause)),
            )
            &&& failed.outcome == Some(Err::<(), E>(cause))
            &&& failed.finished()
            &&& later == failed
            &&& later.millis_slept == before.millis_slept
            &&& later.cycles == before.cycles
            &&& later.bytes_written == before.bytes_written
        }),
{
    let failure = RelayEvent::ReadDone(Err(cause));
    let extended = events.push(failure);
    assert(extended.drop_last() =~= events);
    assert(extended.last() == failure);
    lemma_nothing_after_the_end(chunk_size, extended, more);
}

} // verus!
