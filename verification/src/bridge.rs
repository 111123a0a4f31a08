//! The bridge: both directions of a tunnel and its failure injector, raced.
//!
//! A bridge runs one relay from side A to side B, one from B to A and, where
//! it was given one, a failure injector. The three proceed side by side, in no
//! order among them. The first of them to end decides for the bridge: the
//! bridge resolves to that part's outcome and abandons what the others await.
//! So the end of the data of one direction tears the tunnel down at once,
//! however much the other direction still has to carry, and so does an
//! injected fault.
//!
//! Like its parts, the bridge performs no operation itself: it names them as
//! [`BridgeRequest`]s and learns of their ends from [`BridgeEvent`]s.

use vstd::prelude::*;
use crate::error::{Error, TransferOutcome};
use crate::injector::{injector_step, FailureInjector, InjectorStep, SAMPLE_SPACE};
use crate::relay::{Relay, RelayEvent, RelayRequest, RelayState, RelayStep};
use crate::throttle::{chunk_size_for, ThrottleConfig};

verus! {

/// A direction of the tunnel, and the relay that serves it.
#[derive(Debug, Clone, Copy, PartialEq, Eq, Structural)]
pub enum Direction {
    /// Reads from side A, writes to side B.
    AToB,
    /// Reads from side B, writes to side A.
    BToA,
}

/// An operation that a bridge asks its driver to perform.
#[derive(Debug, Clone, Copy, PartialEq, Eq, Structural)]
pub enum BridgeRequest {
    /// An operation of the relay of one direction, on that direction's
    /// source, destination and buffer.
    Relay(Direction, RelayRequest),
    /// A pause of the failure injector, of `millis` milliseconds.
    InjectorSleep { millis: u64 },
}

/// How an operation of a bridge ended.
#[derive(Debug, PartialEq, Eq)]
pub enum BridgeEvent<E> {
    /// An operation of the relay of one direction ended.
    Relay(Direction, RelayEvent<E>),
    /// A pause of the failure injector is over.
    InjectorSlept,
}

/// What a bridge does in answer to an event.
#[derive(Debug, PartialEq, Eq)]
pub enum BridgeStep<E> {
    /// The bridge goes on: the part that the event belonged to asks for this
    /// operation next. What the other parts await stays as it is.
    Continue(BridgeRequest),
    /// The bridge is over, with this outcome. Whatever its parts still
    /// awaited is abandoned.
    Resolved(TransferOutcome<E>),
}

/// The state of a bridge.
pub struct BridgeState {
    /// The relay from side A to side B.
    pub a_to_b: RelayState,
    /// The relay from side B to side A.
    pub b_to_a: RelayState,
    /// The threshold of the failure injector's profile, where there is an injector.
    pub injector: Option<u64>,
    /// Whether one of the parts has ended, and the bridge with it.
    pub resolved: bool,
}

impl BridgeState {
    /// A bridge whose parts have just been launched: both relays await their
    /// first read, and the injector, if any, its first pause.
    pub open spec fn launched(chunk_size: usize, injector: Option<u64>) -> BridgeState {
        BridgeState {
            a_to_b: RelayState::initial(chunk_size),
            b_to_a: RelayState::initial(chunk_size),
            injector,
            resolved: false,
        }
    }

    /// The relay of one direction.
    pub open spec fn relay(self, direction: Direction) -> RelayState {
        match direction {
            Direction::AToB => self.a_to_b,
            Direction::BToA => self.b_to_a,
        }
    }

    /// The operation that the relay of one direction awaits. A resolved
    /// bridge awaits nothing.
    pub open spec fn pending(self, direction: Direction) -> Option<RelayRequest> {
        if self.resolved {
            None
        } else {
            self.relay(direction).pending
        }
    }

    /// Whether the injector awaits the end of a pause.
    pub open spec fn injector_pending(self) -> bool {
        !self.resolved && self.injector is Some
    }

    /// Both relays are well formed and move chunks of one size.
    pub open spec fn well_formed(self) -> bool {
        &&& self.a_to_b.well_formed()
        &&& self.b_to_a.well_formed()
        &&& self.a_to_b.chunk_size == self.b_to_a.chunk_size
    }

    /// The bridge's answer to an event, or `None` where the event is not the
    /// end of an operation that the bridge awaits. `sample` is what the
    /// injector draws at the end of its pause; no other event looks at it.
    pub open spec fn respond<E>(self, event: BridgeEvent<E>, sample: u32) -> Option<
        BridgeStep<E>,
    > {
        if self.resolved {
            None
        } else {
            match event {
                BridgeEvent::Relay(direction, relay_event) => match self.relay(direction).respond(
                    relay_event,
                ) {
                    Some(RelayStep::Continue(request)) => Some(
                        BridgeStep::Continue(BridgeRequest::Relay(direction, request)),
                    ),
                    Some(RelayStep::Finished(result)) => Some(
                        BridgeStep::Resolved(TransferOutcome::of_relay(result)),
                    ),
                    None => None,
                },
                BridgeEvent::InjectorSlept => match self.injector {
                    Some(threshold) => match injector_step(threshold, sample) {
                        InjectorStep::Fail(_) => Some(
                            BridgeStep::Resolved(TransferOutcome::SyntheticFailure),
                        ),
                        InjectorStep::Sleep { millis } => Some(
                            BridgeStep::Continue(BridgeRequest::InjectorSleep { millis }),
                        ),
                    },
                    None => None,
                },
            }
        }
    }

    /// The state after an event: the relay that the event belonged to has
    /// moved on, and the bridge is resolved if that was the answer.
    pub open spec fn after<E>(self, event: BridgeEvent<E>, sample: u32) -> BridgeState {
        match self.respond(event, sample) {
            None => self,
            Some(step) => {
                let moved = match event {
                    BridgeEvent::Relay(Direction::AToB, relay_event) => BridgeState {
                        a_to_b: self.a_to_b.after(relay_event),
                        ..self
                    },
                    BridgeEvent::Relay(Direction::BToA, relay_event) => BridgeState {
                        b_to_a: self.b_to_a.after(relay_event),
                        ..self
                    },
                    BridgeEvent::InjectorSlept => self,
                };
                BridgeState { resolved: step is Resolved, ..moved }
            },
        }
    }
}

/// Whether a bridge ends at its launch: it does where it has an injector whose
/// first tick, on the given sample, fails.
pub open spec fn launch_fails(injector: Option<u64>, sample: u32) -> bool {
    injector matches Some(threshold) && injector_step(threshold, sample) is Fail
}

/// Both directions of a tunnel and its failure injector, raced.
#[derive(Debug)]
pub struct Bridge {
    a_to_b: Relay,
    b_to_a: Relay,
    injector: Option<FailureInjector>,
    resolved: bool,
}

impl View for Bridge {
    type V = BridgeState;

    closed spec fn view(&self) -> BridgeState {
        BridgeState {
            a_to_b: self.a_to_b@,
            b_to_a: self.b_to_a@,
            injector: match self.injector {
                Some(injector) => Some(injector.profile().threshold()),
                None => None,
            },
            resolved: self.resolved,
        }
    }
}

/// The threshold of an injector's profile, where there is an injector.
pub open spec fn threshold_of(injector: Option<FailureInjector>) -> Option<u64> {
    match injector {
        Some(injector) => Some(injector.profile().threshold()),
        None => None,
    }
}

impl Bridge {
    /// Launches the parts of a bridge, the injector's first tick being decided
    /// on the given sample.
    ///
    /// The injector ticks before it pauses and before any byte moves. So
    /// where its first tick fails there is no bridge to run: the result is
    /// the fault, and no operation has been asked for. Without an injector
    /// the sample is not looked at.
    pub fn launch_with_sample(
        config: &ThrottleConfig,
        injector: Option<FailureInjector>,
        sample: u32,
    ) -> (launched: Result<Bridge, Error>)
        ensures
            launch_fails(threshold_of(injector), sample) <==> launched is Err,
            launched matches Err(fault) ==> fault == Error::ExpectedTransferFail,
            launched matches Ok(bridge) ==> bridge@ == BridgeState::launched(
                chunk_size_for(config.rate()) as usize,
                threshold_of(injector),
            ) && bridge@.well_formed(),
    {
        let first_tick = match &injector {
            Some(injector) => injector.failure_profile().decide(sample),
            None => InjectorStep::Sleep { millis: 0 },
        };
        match first_tick {
            InjectorStep::Fail(fault) => Err(fault),
            InjectorStep::Sleep { .. } => Ok(
                Bridge {
                    a_to_b: Relay::new(config),
                    b_to_a: Relay::new(config),
                    injector,
                    resolved: false,
                },
            ),
        }
    }

    /// Launches the parts of a bridge: two relays under the given cap and,
    /// where one is given, the failure injector, which draws the sample of
    /// its first tick.
    ///
    /// Without an injector, or with one of probability zero, the launch
    /// succeeds. With an injector of probability one it fails, before any
    /// relay has been asked to move a byte. In between, it does for the
    /// sample drawn what [`Bridge::launch_with_sample`] says.
    pub fn launch(config: &ThrottleConfig, injector: Option<FailureInjector>) -> (launched: Result<
        Bridge,
        Error,
    >)
        ensures
            exists|sample: u32| launch_fails(threshold_of(injector), sample) <==> launched is Err,
            injector is None ==> launched is Ok,
            injector matches Some(i) && i.profile().threshold() == 0 ==> launched is Ok,
            injector matches Some(i) && i.profile().threshold() == SAMPLE_SPACE ==> launched is Err,
            launched matches Err(fault) ==> fault == Error::ExpectedTransferFail,
            launched matches Ok(bridge) ==> bridge@ == BridgeState::launched(
                chunk_size_for(config.rate()) as usize,
                threshold_of(injector),
            ) && bridge@.well_formed(),
    {
        let mut injector = injector;
        let sample = match &mut injector {
            Some(injector) => injector.draw(),
            None => 0,
        };
        Self::launch_with_sample(config, injector, sample)
    }

    /// Whether the bridge is over.
    pub fn is_resolved(&self) -> (resolved: bool)
        ensures
            resolved == self@.resolved,
    {
        self.resolved
    }

    /// The operation that the relay of one direction awaits: `None` once the
    /// bridge is resolved.
    pub fn pending(&self, direction: Direction) -> (pending: Option<RelayRequest>)
        ensures
            pending == self@.pending(direction),
            self@.relay(direction).well_formed(),
    {
        let pending = match direction {
            Direction::AToB => self.a_to_b.pending(),
            Direction::BToA => self.b_to_a.pending(),
        };
        if self.resolved {
            None
        } else {
            pending
        }
    }

    /// The pause that the injector awaits the end of, in milliseconds: `None`
    /// without an injector, and once the bridge is resolved.
    pub fn injector_pending(&self) -> (millis: Option<u64>)
        ensures
            millis is Some <==> self@.injector_pending(),
            millis matches Some(m) ==> m == crate::injector::INJECTOR_TICK_MILLIS,
    {
        if !self.resolved && self.injector.is_some() {
            Some(crate::injector::INJECTOR_TICK_MILLIS)
        } else {
            None
        }
    }

    /// The most bytes that one read of the given direction asks for: the
    /// length of the buffer that the direction needs.
    pub fn chunk_size(&self, direction: Direction) -> (chunk_size: usize)
        ensures
            chunk_size == self@.relay(direction).chunk_size,
            chunk_size >= 1,
    {
        match direction {
            Direction::AToB => self.a_to_b.chunk_size(),
            Direction::BToA => self.b_to_a.chunk_size(),
        }
    }

    /// Tells the bridge how an operation ended, the injector's tick being
    /// decided on the given sample, and returns the bridge's answer.
    ///
    /// The first part to end resolves the bridge to its outcome: a relay to
    /// success or to the cause of its failure, the injector to the synthetic
    /// failure. A resolved bridge answers no event. Only the end of the
    /// injector's pause looks at the sample.
    pub fn step_with_sample<E>(&mut self, event: BridgeEvent<E>, sample: u32) -> (step: Option<
        BridgeStep<E>,
    >)
        ensures
            step == old(self)@.respond(event, sample),
            final(self)@ == old(self)@.after(event, sample),
            old(self)@.well_formed() ==> final(self)@.well_formed(),
    {
        if self.resolved {
            return None;
        }
        match event {
            BridgeEvent::Relay(direction, relay_event) => {
                let answer = match direction {
                    Direction::AToB => self.a_to_b.step(relay_event),
                    Direction::BToA => self.b_to_a.step(relay_event),
                };
                match answer {
                    Some(RelayStep::Continue(request)) => Some(
                        BridgeStep::Continue(BridgeRequest::Relay(direction, request)),
                    ),
                    Some(RelayStep::Finished(result)) => {
                        self.resolved = true;
                        Some(BridgeStep::Resolved(TransferOutcome::from_relay(result)))
                    },
                    None => None,
                }
            },
            BridgeEvent::InjectorSlept => {
                let tick = match &self.injector {
                    Some(injector) => Some(injector.failure_profile().decide(sample)),
                    None => None,
                };
                match tick {
                    Some(InjectorStep::Fail(fault)) => {
                        self.resolved = true;
                        Some(BridgeStep::Resolved(TransferOutcome::from_injector(fault)))
                    },
                    Some(InjectorStep::Sleep { millis }) => Some(
                        BridgeStep::Continue(BridgeRequest::InjectorSleep { millis }),
                    ),
                    None => None,
                }
            },
        }
    }

    /// Tells the bridge how an operation ended, and returns its answer. At
    /// the end of the injector's pause the injector draws its next sample.
    ///
    /// The end of a relay's operation is answered as
    /// [`Bridge::step_with_sample`] says, whatever the sample. The end of the
    /// injector's pause is answered as it says for the sample drawn: with
    /// probability one that is the synthetic failure, with probability zero
    /// the next pause.
    pub fn step<E>(&mut self, event: BridgeEvent<E>) -> (step: Option<BridgeStep<E>>)
        ensures
            exists|sample: u32|
                step == old(self)@.respond(event, sample) && final(self)@ == old(self)@.after(
                    event,
                    sample,
                ),
            event is Relay ==> step == old(self)@.respond(event, 0) && final(self)@ == old(
                self,
            )@.after(event, 0),
            old(self)@.well_formed() ==> final(self)@.well_formed(),
    {
        let sample = match &event {
            BridgeEvent::InjectorSlept => self.draw(),
            BridgeEvent::Relay(..) => 0,
        };
        self.step_with_sample(event, sample)
    }

    /// Draws the sample of the injector's next tick. A bridge whose injector
    /// awaits no pause draws nothing, and the sample is 0.
    fn draw(&mut self) -> (sample: u32)
        ensures
            final(self)@ == old(self)@,
            !old(self)@.injector_pending() ==> sample == 0,
    {
        if self.resolved {
            0
        } else {
            match &mut self.injector {
                Some(injector) => injector.draw(),
                None => 0,
            }
        }
    }
}

} // verus!
