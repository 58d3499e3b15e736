use vstd::prelude::*;

verus! {

/// Why a measurement run produced no statistics.
///
/// Every variant is terminal for the run that meets it: nothing is retried,
/// because a repeated measurement is a different measurement, and no
/// placeholder value ever stands in for a missing one.
#[derive(Debug, Clone, Copy, PartialEq, Eq, Structural)]
pub enum HarnessError {
    /// A sampler was asked for zero samples.
    InvalidSampleCount,
    /// A summary of no samples at all was asked for.
    EmptySampleSet,
    /// The monotonic timer gave no usable reading.
    ClockUnavailable,
    /// The samples add up to more than the 128-bit accumulator holds.
    SumOverflow,
}

impl HarnessError {
    /// The sentence that `describe` gives for each error.
    pub open spec fn description(self) -> Seq<char> {
        match self {
            HarnessError::InvalidSampleCount => {
                "invalid sample count: at least one sample is required"@
            },
            HarnessError::EmptySampleSet => {
                "empty sample set: there is nothing to summarise"@
            },
            HarnessError::ClockUnavailable => {
                "clock unavailable: the monotonic timer gave no usable reading"@
            },
            HarnessError::SumOverflow => {
                "sum overflow: the samples add up to more than 128 bits hold"@
            },
        }
    }

    /// A sentence for the person who started the run.
    pub fn describe(&self) -> (text: &'static str)
        ensures
            text@ == self.description(),
    {
        match self {
            HarnessError::InvalidSampleCount => {
                "invalid sample count: at least one sample is required"
            },
            HarnessError::EmptySampleSet => {
                "empty sample set: there is nothing to summarise"
            },
            HarnessError::ClockUnavailable => {
                "clock unavailable: the monotonic timer gave no usable reading"
            },
            HarnessError::SumOverflow => {
                "sum overflow: the samples add up to more than 128 bits hold"
            },
        }
    }
}

} // verus!
