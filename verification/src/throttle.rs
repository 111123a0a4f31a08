//! Throttle configuration: the rate cap of one direction and what follows from it.

use vstd::prelude::*;

verus! {

/// Read/write cycles that a relay performs per second.
pub const TICKS_PER_SECOND: usize = 10;

/// Length of the pause that ends every read/write cycle, in milliseconds.
pub const TICK_INTERVAL_MILLIS: u64 = 100;

/// The most bytes that one cycle moves under a cap of `max_bytes_per_sec`:
/// a tenth of the cap, rounded down, and never less than one byte.
pub open spec fn chunk_size_for(max_bytes_per_sec: nat) -> nat {
    if max_bytes_per_sec / 10 >= 1 {
        max_bytes_per_sec / 10
    } else {
        1
    }
}

/// A cycle never moves more than a tenth of any cap of ten bytes per second
/// or more, so ten cycles stay within the cap.
pub proof fn lemma_chunk_size_within_cap(max_bytes_per_sec: nat)
    ensures
        chunk_size_for(max_bytes_per_sec) >= 1,
        max_bytes_per_sec >= 10 ==> 10 * chunk_size_for(max_bytes_per_sec) <= max_bytes_per_sec,
        max_bytes_per_sec >= 10 ==> max_bytes_per_sec < 10 * (chunk_size_for(max_bytes_per_sec)
            + 1),
        max_bytes_per_sec < 10 ==> chunk_size_for(max_bytes_per_sec) == 1,
{
}

/// The rate cap of one direction of a tunnel, a positive number of bytes per second.
#[derive(Debug, Clone, Copy, PartialEq, Eq)]
pub struct ThrottleConfig {
    max_bytes_per_sec: usize,
}

impl ThrottleConfig {
    #[verifier::type_invariant]
    spec fn positive(self) -> bool {
        self.max_bytes_per_sec >= 1
    }

    /// The cap, in bytes per second.
    pub closed spec fn rate(self) -> nat {
        self.max_bytes_per_sec as nat
    }

    /// A configuration for the given cap, which must be positive.
    pub fn new(max_bytes_per_sec: usize) -> (config: Option<Self>)
        ensures
            max_bytes_per_sec == 0 <==> config is None,
            config matches Some(c) ==> c.rate() == max_bytes_per_sec,
    {
        if max_bytes_per_sec == 0 {
            None
        } else {
            Some(ThrottleConfig { max_bytes_per_sec })
        }
    }

    /// The cap, in bytes per second.
    pub fn max_bytes_per_sec(&self) -> (rate: usize)
        ensures
            rate == self.rate(),
            rate >= 1,
    {
        proof {
            use_type_invariant(self);
        }
        self.max_bytes_per_sec
    }

    /// The most bytes that one read/write cycle moves.
    pub fn chunk_size(&self) -> (chunk: usize)
        ensures
            chunk == chunk_size_for(self.rate()),
            chunk >= 1,
    {
        let tenth: usize = self.max_bytes_per_sec / TICKS_PER_SECOND;
        if tenth == 0 {
            1
        } else {
            tenth
        }
    }

    /// The pause that ends every read/write cycle, in milliseconds.
    pub fn tick_interval_millis(&self) -> (millis: u64)
        ensures
            millis == TICK_INTERVAL_MILLIS,
    {
        TICK_INTERVAL_MILLIS
    }
}

} // verus!
