//! One direction of a tunnel: a copy loop under a rate cap.
//!
//! A relay reads a chunk from its source, writes all of it to its destination,
//! pauses for one tick, and reads again. The end of the source's data makes it
//! flush the destination and finish with success; any failed read, write or
//! flush makes it finish at once with the failure's cause.
//!
//! The relay performs none of these operations. It names the next one as a
//! [`RelayRequest`], and learns how it ended from a [`RelayEvent`].

use vstd::prelude::*;
use crate::throttle::{chunk_size_for, ThrottleConfig, TICK_INTERVAL_MILLIS};

verus! {

/// An operation that a relay asks its driver to perform.
#[derive(Debug, Clone, Copy, PartialEq, Eq, Structural)]
pub enum RelayRequest {
    /// Read at most `max_len` bytes from the source into the start of the buffer.
    Read { max_len: usize },
    /// Write the first `len` bytes of the buffer to the destination, all of them.
    Write { len: usize },
    /// Pause for `millis` milliseconds.
    Sleep { millis: u64 },
    /// Flush what the destination has buffered.
    Flush,
}

/// How an operation ended, with the cause `E` where it failed.
#[derive(Debug, PartialEq, Eq)]
pub enum RelayEvent<E> {
    /// A read ended: with the number of bytes read, zero at the end of the
    /// data, or with a failure.
    ReadDone(Result<usize, E>),
    /// A write ended: every byte was written, or the write failed.
    WriteDone(Result<(), E>),
    /// A pause is over.
    SleepDone,
    /// A flush ended.
    FlushDone(Result<(), E>),
}

/// What a relay does in answer to an event.
#[derive(Debug, PartialEq, Eq)]
pub enum RelayStep<E> {
    /// The relay goes on, and asks for this operation next.
    Continue(RelayRequest),
    /// The relay is over: with success, or with the cause of a failure.
    Finished(Result<(), E>),
}

/// The state of a relay: its chunk size, and the operation whose end it
/// awaits. A relay that awaits nothing is over.
pub struct RelayState {
    pub chunk_size: usize,
    pub pending: Option<RelayRequest>,
}

impl RelayState {
    /// A relay at its start: it awaits the first read.
    pub open spec fn initial(chunk_size: usize) -> RelayState {
        RelayState { chunk_size, pending: Some(RelayRequest::Read { max_len: chunk_size }) }
    }

    /// Every request stays within the chunk size, a write moves at least one
    /// byte, and a pause lasts one tick.
    pub open spec fn well_formed(self) -> bool {
        &&& self.chunk_size >= 1
        &&& match self.pending {
            Some(RelayRequest::Read { max_len }) => max_len == self.chunk_size,
            Some(RelayRequest::Write { len }) => 1 <= len <= self.chunk_size,
            Some(RelayRequest::Sleep { millis }) => millis == TICK_INTERVAL_MILLIS,
            Some(RelayRequest::Flush) => true,
            None => true,
        }
    }

    /// The relay's answer to an event, or `None` where the event is not the
    /// end of the operation that the relay awaits.
    pub open spec fn respond<E>(self, event: RelayEvent<E>) -> Option<RelayStep<E>> {
        match (self.pending, event) {
            (Some(RelayRequest::Read { max_len }), RelayEvent::ReadDone(Ok(n))) => {
                if n == 0 {
                    Some(RelayStep::Continue(RelayRequest::Flush))
                } else if n <= max_len {
                    Some(RelayStep::Continue(RelayRequest::Write { len: n }))
                } else {
                    None
                }
            },
            (Some(RelayRequest::Read { .. }), RelayEvent::ReadDone(Err(cause))) => Some(
                RelayStep::Finished(Err(cause)),
            ),
            (Some(RelayRequest::Write { .. }), RelayEvent::WriteDone(Ok(_))) => Some(
                RelayStep::Continue(RelayRequest::Sleep { millis: TICK_INTERVAL_MILLIS }),
            ),
            (Some(RelayRequest::Write { .. }), RelayEvent::WriteDone(Err(cause))) => Some(
                RelayStep::Finished(Err(cause)),
            ),
            (Some(RelayRequest::Sleep { .. }), RelayEvent::SleepDone) => Some(
                RelayStep::Continue(RelayRequest::Read { max_len: self.chunk_size }),
            ),
            (Some(RelayRequest::Flush), RelayEvent::FlushDone(result)) => Some(
                RelayStep::Finished(result),
            ),
            _ => None,
        }
    }

    /// The state after an event: an event that gets no answer changes nothing.
    pub open spec fn after<E>(self, event: RelayEvent<E>) -> RelayState {
        match self.respond(event) {
            Some(RelayStep::Continue(request)) => RelayState { pending: Some(request), ..self },
            Some(RelayStep::Finished(_)) => RelayState { pending: None, ..self },
            None => self,
        }
    }
}

/// One direction of a tunnel.
#[derive(Debug, PartialEq, Eq)]
pub struct Relay {
    chunk_size: usize,
    pending: Option<RelayRequest>,
}

impl View for Relay {
    type V = RelayState;

    closed spec fn view(&self) -> RelayState {
        RelayState { chunk_size: self.chunk_size, pending: self.pending }
    }
}

impl Relay {
    #[verifier::type_invariant]
    spec fn well_formed(self) -> bool {
        self@.well_formed()
    }

    /// A relay under the given cap, about to read for the first time.
    pub fn new(config: &ThrottleConfig) -> (relay: Relay)
        ensures
            relay@ == RelayState::initial(chunk_size_for(config.rate()) as usize),
            relay@.well_formed(),
    {
        let chunk_size = config.chunk_size();
        Relay { chunk_size, pending: Some(RelayRequest::Read { max_len: chunk_size }) }
    }

    /// The most bytes that one read asks for: the length of the buffer that
    /// the driver needs.
    pub fn chunk_size(&self) -> (chunk_size: usize)
        ensures
            chunk_size == self@.chunk_size,
            chunk_size >= 1,
    {
        proof {
            use_type_invariant(self);
        }
        self.chunk_size
    }

    /// The operation whose end the relay awaits, or `None` once it is over.
    pub fn pending(&self) -> (pending: Option<RelayRequest>)
        ensures
            pending == self@.pending,
            self@.well_formed(),
    {
        proof {
            use_type_invariant(self);
        }
        self.pending
    }

    /// Whether the relay is over.
    pub fn is_finished(&self) -> (finished: bool)
        ensures
            finished == (self@.pending is None),
    {
        self.pending.is_none()
    }

    /// Tells the relay how an operation ended, and returns its answer.
    ///
    /// An event that is not the end of the awaited operation, such as a read
    /// of more bytes than were asked for, gets `None` and changes nothing. So
    /// does every event once the relay is over.
    pub fn step<E>(&mut self, event: RelayEvent<E>) -> (step: Option<RelayStep<E>>)
        ensures
            step == old(self)@.respond(event),
            final(self)@ == old(self)@.after(event),
            final(self)@.well_formed(),
    {
        proof {
            use_type_invariant(&*self);
        }
        let step = match (self.pending, event) {
            (Some(RelayRequest::Read { max_len }), RelayEvent::ReadDone(Ok(n))) => {
                if n == 0 {
                    Some(RelayStep::Continue(RelayRequest::Flush))
                } else if n <= max_len {
                    Some(RelayStep::Continue(RelayRequest::Write { len: n }))
                } else {
                    None
                }
            },
            (Some(RelayRequest::Read { .. }), RelayEvent::ReadDone(Err(cause))) => Some(
                RelayStep::Finished(Err(cause)),
            ),
            (Some(RelayRequest::Write { .. }), RelayEvent::WriteDone(Ok(_))) => Some(
                RelayStep::Continue(RelayRequest::Sleep { millis: TICK_INTERVAL_MILLIS }),
            ),
            (Some(RelayRequest::Write { .. }), RelayEvent::WriteDone(Err(cause))) => Some(
                RelayStep::Finished(Err(cause)),
            ),
            (Some(RelayRequest::Sleep { .. }), RelayEvent::SleepDone) => Some(
                RelayStep::Continue(RelayRequest::Read { max_len: self.chunk_size }),
            ),
            (Some(RelayRequest::Flush), RelayEvent::FlushDone(result)) => Some(
                RelayStep::Finished(result),
            ),
            _ => None,
        };
        match &step {
            Some(RelayStep::Continue(request)) => {
                self.pending = Some(*request);
            },
            Some(RelayStep::Finished(_)) => {
                self.pending = None;
            },
            None => {},
        }
        step
    }
}

} // verus!
