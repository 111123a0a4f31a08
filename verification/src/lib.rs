//! Relay engine of a network-condition emulator.
//!
//! The engine degrades a tunnel between two duplex byte streams on purpose: it
//! caps the average throughput of each direction, and it can raise a synthetic
//! fault at a configured probability. The engine itself performs no I/O and
//! never sleeps. Each of its parts is a state machine that names the next
//! operation to perform and is told how that operation ended; the caller runs
//! the operations.

pub mod bridge;
pub mod bridge_run;
pub mod error;
pub mod injector;
pub mod relay;
pub mod relay_run;
pub mod throttle;
