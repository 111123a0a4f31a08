//! The failure injector: a synthetic fault at a configured probability.
//!
//! Once per tick the injector draws a sample, uniform over `SAMPLE_SPACE`
//! values. A profile names how many of those values make it fail: with all of
//! them it fails at its first tick, with none of them it never does. After a
//! tick that does not fail, the injector asks for a pause of one second. The
//! probability is that of a tick, whatever the tunnel's throughput.

use vstd::prelude::*;
use crate::error::Error;

verus! {

/// Number of values that a sample can take: a sample is any `u32`.
pub const SAMPLE_SPACE: u64 = 0x1_0000_0000;

/// Length of the pause between two ticks of the injector, in milliseconds.
pub const INJECTOR_TICK_MILLIS: u64 = 1000;

/// What the injector does at a tick.
#[derive(Debug, Clone, Copy, PartialEq, Eq, Structural)]
pub enum InjectorStep {
    /// The injector raises its fault.
    Fail(Error),
    /// The injector asks for a pause of `millis` milliseconds before its next tick.
    Sleep { millis: u64 },
}

/// The tick of an injector that fails on `threshold` sample values out of
/// `SAMPLE_SPACE`: it fails on the samples under the threshold.
pub open spec fn injector_step(threshold: u64, sample: u32) -> InjectorStep {
    if (sample as u64) < threshold {
        InjectorStep::Fail(Error::ExpectedTransferFail)
    } else {
        InjectorStep::Sleep { millis: INJECTOR_TICK_MILLIS }
    }
}

/// The probability that a tick fails, as the number of sample values, out of
/// `SAMPLE_SPACE`, on which it does.
#[derive(Debug, Clone, Copy, PartialEq, Eq)]
pub struct FailureProfile {
    threshold: u64,
}

impl FailureProfile {
    #[verifier::type_invariant]
    spec fn within_sample_space(self) -> bool {
        self.threshold <= SAMPLE_SPACE
    }

    /// The number of sample values on which a tick fails.
    pub closed spec fn threshold(self) -> u64 {
        self.threshold
    }

    /// The profile that fails on `threshold` sample values, which cannot be
    /// more than there are.
    pub fn new(threshold: u64) -> (profile: Option<Self>)
        ensures
            threshold <= SAMPLE_SPACE <==> profile is Some,
            profile matches Some(p) ==> p.threshold() == threshold,
    {
        if threshold <= SAMPLE_SPACE {
            Some(FailureProfile { threshold })
        } else {
            None
        }
    }

    /// The profile of probability one: every tick fails.
    pub fn always() -> (profile: Self)
        ensures
            profile.threshold() == SAMPLE_SPACE,
    {
        FailureProfile { threshold: SAMPLE_SPACE }
    }

    /// The profile of probability zero: no tick fails.
    pub fn never() -> (profile: Self)
        ensures
            profile.threshold() == 0,
    {
        FailureProfile { threshold: 0 }
    }

    /// The number of sample values on which a tick fails.
    pub fn failing_samples(&self) -> (threshold: u64)
        ensures
            threshold == self.threshold(),
            threshold <= SAMPLE_SPACE,
    {
        proof {
            use_type_invariant(self);
        }
        self.threshold
    }

    /// The tick for a given sample: the fault where the sample is under the
    /// threshold, a pause of one second where it is not.
    pub fn decide(&self, sample: u32) -> (step: InjectorStep)
        ensures
            step == injector_step(self.threshold(), sample),
            self.threshold() == SAMPLE_SPACE ==> step == InjectorStep::Fail(
                Error::ExpectedTransferFail,
            ),
            self.threshold() == 0 ==> step == (InjectorStep::Sleep {
                millis: INJECTOR_TICK_MILLIS,
            }),
    {
        if (sample as u64) < self.threshold {
            InjectorStep::Fail(Error::ExpectedTransferFail)
        } else {
            InjectorStep::Sleep { millis: INJECTOR_TICK_MILLIS }
        }
    }
}

#[verifier::external_type_specification]
#[verifier::external_body]
pub struct ExRng(fastrand::Rng);

/// Draws the next sample from a generator, by `fastrand::Rng::u32` over the
/// full range of `u32`. Nothing is claimed of the value drawn, nor of the
/// generator afterwards.
#[verifier::external_body]
fn draw_sample(rng: &mut fastrand::Rng) -> (sample: u32) {
    rng.u32(..)
}

/// A failure profile together with the generator that its samples come from.
#[derive(Debug)]
pub struct FailureInjector {
    profile: FailureProfile,
    rng: fastrand::Rng,
}

impl FailureInjector {
    /// The injector's profile.
    pub closed spec fn profile(self) -> FailureProfile {
        self.profile
    }

    /// An injector that draws from the given generator. A generator with a
    /// seed makes the injector's ticks repeatable.
    pub fn new(profile: FailureProfile, rng: fastrand::Rng) -> (injector: Self)
        ensures
            injector.profile() == profile,
    {
        FailureInjector { profile, rng }
    }

    /// The injector's profile.
    pub fn failure_profile(&self) -> (profile: FailureProfile)
        ensures
            profile == self.profile(),
    {
        self.profile
    }

    /// Draws the sample of the next tick. Drawing leaves the profile as it is.
    pub fn draw(&mut self) -> (sample: u32)
        ensures
            final(self).profile() == old(self).profile(),
    {
        draw_sample(&mut self.rng)
    }

    /// One tick: draws one sample and decides on it.
    ///
    /// Whatever the sample, the profile of probability one fails and the
    /// profile of probability zero pauses. Any other profile may do either,
    /// as [`FailureProfile::decide`] says for the sample drawn.
    pub fn tick(&mut self) -> (step: InjectorStep)
        ensures
            final(self).profile() == old(self).profile(),
            exists|sample: u32| step == injector_step(old(self).profile().threshold(), sample),
            old(self).profile().threshold() == SAMPLE_SPACE ==> step == InjectorStep::Fail(
                Error::ExpectedTransferFail,
            ),
            old(self).profile().threshold() == 0 ==> step == (InjectorStep::Sleep {
                millis: INJECTOR_TICK_MILLIS,
            }),
    {
        let sample = self.draw();
        self.profile.decide(sample)
    }
}

/// What an injector has done over a sequence of ticks.
pub struct InjectorRun {
    /// Whether the injector has raised its fault.
    pub failed: bool,
    /// Samples drawn: ticks up to the failing one.
    pub draws: nat,
    /// Milliseconds of the pauses asked for.
    pub millis_slept: nat,
}

impl InjectorRun {
    /// The run after one more tick with the given sample. An injector that has
    /// failed draws no more.
    pub open spec fn extend(self, threshold: u64, sample: u32) -> InjectorRun {
        if self.failed {
            self
        } else {
            match injector_step(threshold, sample) {
                InjectorStep::Fail(_) => InjectorRun {
                    failed: true,
                    draws: self.draws + 1,
                    ..self
                },
                InjectorStep::Sleep { millis } => InjectorRun {
                    draws: self.draws + 1,
                    millis_slept: self.millis_slept + millis as nat,
                    ..self
                },
            }
        }
    }

    /// The run of an injector over the samples that its ticks draw, in order.
    pub open spec fn of(threshold: u64, samples: Seq<u32>) -> InjectorRun
        decreases samples.len(),
    {
        if samples.len() == 0 {
            InjectorRun { failed: false, draws: 0, millis_slept: 0 }
        } else {
            Self::of(threshold, samples.drop_last()).extend(threshold, samples.last())
        }
    }
}

/// With probability one the injector fails at its first tick, whatever it
/// draws: after one draw, and before any pause.
pub proof fn lemma_certain_failure_is_immediate(samples: Seq<u32>)
    requires
        samples.len() >= 1,
    ensures
        InjectorRun::of(SAMPLE_SPACE, samples).failed,
        InjectorRun::of(SAMPLE_SPACE, samples).draws == 1,
        InjectorRun::of(SAMPLE_SPACE, samples).millis_slept == 0,
    decreases samples.len(),
{
    if samples.len() == 1 {
        let none = samples.drop_last();
        assert(none.len() == 0);
        assert(!InjectorRun::of(SAMPLE_SPACE, none).failed);
        assert((samples.last() as u64) < SAMPLE_SPACE);
    } else {
        lemma_certain_failure_is_immediate(samples.drop_last());
    }
}

/// With probability zero the injector never fails, however long it runs and
/// whatever it draws: every tick ends in a pause of one second.
pub proof fn lemma_never_fails(samples: Seq<u32>)
    ensures
        !InjectorRun::of(0, samples).failed,
        InjectorRun::of(0, samples).draws == samples.len(),
        InjectorRun::of(0, samples).millis_slept == INJECTOR_TICK_MILLIS * samples.len(),
    decreases samples.len(),
{
    if samples.len() > 0 {
        lemma_never_fails(samples.drop_last());
    }
}

/// An injector has failed exactly when one of its samples was under the
/// threshold, and it has paused once for every tick before that one.
pub proof fn lemma_failure_follows_the_samples(threshold: u64, samples: Seq<u32>)
    ensures
        InjectorRun::of(threshold, samples).failed <==> exists|i: int|
            0 <= i < samples.len() && (#[trigger] samples[i] as u64) < threshold,
        InjectorRun::of(threshold, samples).draws <= samples.len(),
        !InjectorRun::of(threshold, samples).failed ==> InjectorRun::of(threshold, samples).draws
            == samples.len(),
        InjectorRun::of(threshold, samples).millis_slept == INJECTOR_TICK_MILLIS * (if InjectorRun::of(
            threshold,
            samples,
        ).failed {
            InjectorRun::of(threshold, samples).draws - 1
        } else {
            InjectorRun::of(threshold, samples).draws as int
        }),
    decreases samples.len(),
{
    if samples.len() > 0 {
        let earlier = samples.drop_last();
        lemma_failure_follows_the_samples(threshold, earlier);
        if InjectorRun::of(threshold, earlier).failed {
            let i = choose|i: int| 0 <= i < earlier.len() && (#[trigger] earlier[i] as u64) < threshold;
            assert(samples[i] == earlier[i]);
        } else if (samples.last() as u64) < threshold {
            assert(samples[samples.len() - 1] == samples.last());
        } else {
            assert forall|i: int| 0 <= i < samples.len() implies !((#[trigger] samples[i] as u64)
                < threshold) by {
                if i < earlier.len() {
                    assert(samples[i] == earlier[i]);
                }
            }
        }
    }
}

} // verus!
