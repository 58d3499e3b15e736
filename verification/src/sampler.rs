use crate::config::HarnessConfig;
use crate::error::HarnessError;
use crate::timer::elapsed_nanos;
use std::time::Instant;
use vstd::prelude::*;

verus! {

/// Up to this many samples get their room before the first measurement, so
/// that the sequence does not grow between two timed invocations.
const RESERVE_LIMIT: usize = 1_048_576;

/// Times one candidate operation a fixed number of times, one invocation after
/// the other, never two at once.
#[derive(Debug, Clone, Copy)]
pub struct Sampler {
    sample_count: usize,
}

/// Adds the reading of one timed invocation to the samples taken so far.
///
/// A reading in nanoseconds becomes the last sample. A missing reading means
/// that the timer is broken: the samples stay as they are and the run has to
/// end with `ClockUnavailable`, since no number may stand in for it.
pub fn record_reading(
    samples: &mut Vec<u128>,
    reading: Option<u128>,
) -> (outcome: Result<(), HarnessError>)
    ensures
        (match reading {
            Some(nanos) => {
                &&& outcome is Ok
                &&& final(samples)@ == old(samples)@.push(nanos)
            },
            None => {
                &&& outcome == Err::<(), HarnessError>(HarnessError::ClockUnavailable)
                &&& final(samples)@ == old(samples)@
            },
        }),
{
    match reading {
        Some(nanos) => {
            samples.push(nanos);
            Ok(())
        },
        None => Err(HarnessError::ClockUnavailable),
    }
}

/// Times one invocation of `operation`: a reading of the clock immediately
/// before it, the invocation to its end, a reading immediately after it.
fn time_invocation<F: Fn()>(operation: &F) -> (reading: Option<u128>)
    requires
        operation.requires(()),
    ensures
        operation.ensures((), ()),
{
    let start = Instant::now();
    operation();
    let end = Instant::now();
    elapsed_nanos(start, end)
}

impl Sampler {
    #[verifier::type_invariant]
    spec fn inv(self) -> bool {
        self.sample_count > 0
    }

    /// The number of samples that every completed run of this sampler holds.
    pub closed spec fn target(self) -> nat {
        self.sample_count as nat
    }

    /// A sampler for the number of samples that `config` asks for. A request
    /// for no samples is refused before anything is measured.
    pub fn new(config: &HarnessConfig) -> (outcome: Result<Sampler, HarnessError>)
        ensures
            (match outcome {
                Ok(sampler) => config.sample_count > 0 && sampler.target() == config.sample_count,
                Err(e) => config.sample_count == 0 && e == HarnessError::InvalidSampleCount,
            }),
    {
        if config.sample_count == 0 {
            Err(HarnessError::InvalidSampleCount)
        } else {
            Ok(Sampler { sample_count: config.sample_count })
        }
    }

    /// The number of samples in every completed run; never zero.
    pub fn sample_count(&self) -> (count: usize)
        ensures
            count == self.target(),
            count > 0,
    {
        proof {
            use_type_invariant(self);
        }
        self.sample_count
    }

    /// Invokes `operation` once per sample and times each invocation on the
    /// monotonic clock.
    ///
    /// A completed run holds exactly `sample_count` samples in the order of
    /// the invocations. There is no shorter result: where the clock gives no
    /// usable reading the run ends at once with `ClockUnavailable`. Either way
    /// the operation has been invoked to its end, so what it guarantees on
    /// return holds after the run.
    pub fn run<F: Fn()>(&self, operation: F) -> (outcome: Result<Vec<u128>, HarnessError>)
        requires
            operation.requires(()),
        ensures
            operation.ensures((), ()),
            (match outcome {
                Ok(samples) => samples@.len() == self.target(),
                Err(e) => e == HarnessError::ClockUnavailable,
            }),
    {
        proof {
            use_type_invariant(self);
        }
        let wanted = self.sample_count;
        let mut samples: Vec<u128> = if wanted <= RESERVE_LIMIT {
            Vec::with_capacity(wanted)
        } else {
            Vec::new()
        };
        let mut taken: usize = 0;
        while taken < wanted
            invariant
                taken <= wanted,
                samples@.len() == taken,
                operation.requires(()),
                taken > 0 ==> operation.ensures((), ()),
            decreases wanted - taken,
        {
            let reading = time_invocation(&operation);
            match record_reading(&mut samples, reading) {
                Ok(()) => {},
                Err(e) => {
                    return Err(e);
                },
            }
            taken += 1;
        }
        Ok(samples)
    }
}

} // verus!
