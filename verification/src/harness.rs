use crate::config::HarnessConfig;
use crate::error::HarnessError;
use crate::sampler::Sampler;
use crate::stats::aggregate;
use crate::stats::StatisticsRecord;
use vstd::prelude::*;

verus! {

/// One whole run for one candidate: samples `operation` as `config` asks and
/// reduces the samples to their statistics record.
///
/// The record summarises exactly `config.sample_count` samples. A count of
/// zero is refused with `InvalidSampleCount` before anything is measured, and
/// it is the only way to get that error. A run that was started ends without a
/// record only where the clock fails or the samples do not add up in 128 bits;
/// with or without a record, it has invoked the operation to its end.
pub fn measure<F: Fn()>(
    config: &HarnessConfig,
    operation: F,
) -> (outcome: Result<StatisticsRecord, HarnessError>)
    requires
        operation.requires(()),
    ensures
        config.sample_count > 0 ==> operation.ensures((), ()),
        (match outcome {
            Ok(record) => {
                &&& config.sample_count > 0
                &&& record@.count == config.sample_count
                &&& record@.well_formed()
                &&& exists|samples: Seq<u128>| record@.summarizes(samples)
            },
            Err(e) => if config.sample_count == 0 {
                e == HarnessError::InvalidSampleCount
            } else {
                e == HarnessError::ClockUnavailable || e == HarnessError::SumOverflow
            },
        }),
{
    let sampler = match Sampler::new(config) {
        Ok(sampler) => sampler,
        Err(e) => {
            return Err(e);
        },
    };
    let samples = match sampler.run(operation) {
        Ok(samples) => samples,
        Err(e) => {
            return Err(e);
        },
    };
    aggregate(&samples)
}

} // verus!
