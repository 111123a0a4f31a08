//! Failure taxonomy of the relay engine.

use vstd::prelude::*;

verus! {

/// The fault that the failure injector raises on purpose.
///
/// It is expected, and a caller reports it as information, not as an
/// operational error.
#[derive(Debug, Clone, Copy, PartialEq, Eq, Structural)]
pub enum Error {
    ExpectedTransferFail,
}

impl Error {
    /// The text under which the fault is reported: the variant's name.
    pub fn name(&self) -> (text: String)
        ensures
            text@ == "ExpectedTransferFail"@,
    {
        match self {
            Error::ExpectedTransferFail => "ExpectedTransferFail".to_owned(),
        }
    }
}

/// How a tunnel ended.
///
/// A synthetic failure and a transport failure stay apart at every point: a
/// value of this type is never both, and no operation of the engine turns one
/// into the other.
#[derive(Debug, PartialEq, Eq)]
pub enum TransferOutcome<E> {
    /// One direction reached the end of its data and its destination was flushed.
    Success,
    /// The failure injector raised its fault.
    SyntheticFailure,
    /// A read, a write or a flush failed, for the given cause.
    IoFailure(E),
}

impl<E> TransferOutcome<E> {
    /// The outcome that a relay's result stands for.
    pub open spec fn of_relay(result: Result<(), E>) -> Self {
        match result {
            Ok(_) => TransferOutcome::Success,
            Err(cause) => TransferOutcome::IoFailure(cause),
        }
    }

    /// Adopts the result of a relay: the end of data is a success, and a
    /// transport failure keeps its cause.
    pub fn from_relay(result: Result<(), E>) -> (outcome: Self)
        ensures
            outcome == Self::of_relay(result),
    {
        match result {
            Ok(_) => TransferOutcome::Success,
            Err(cause) => TransferOutcome::IoFailure(cause),
        }
    }

    /// Adopts the fault of the failure injector.
    pub fn from_injector(fault: Error) -> (outcome: Self)
        ensures
            outcome == TransferOutcome::<E>::SyntheticFailure,
    {
        match fault {
            Error::ExpectedTransferFail => TransferOutcome::SyntheticFailure,
        }
    }
}

} // verus!
