use vstd::prelude::*;

verus! {

/// The size in bytes of the block that each candidate operation acquires.
pub const BUFFER_SIZE: usize = 1024;

/// How many invocations a run times unless it is configured otherwise.
pub const NUM_SAMPLES: usize = 5_000;

/// What a run is configured with. It is handed to whoever needs it; nothing in
/// the harness reads ambient state.
#[derive(Debug, Clone, Copy, PartialEq, Eq, Structural)]
pub struct HarnessConfig {
    /// The capacity in bytes that a dynamically sized block is acquired with.
    pub buffer_size_bytes: usize,
    /// The number of samples that one run collects.
    pub sample_count: usize,
}

impl HarnessConfig {
    /// A configuration with the given block size and sample count. A count of
    /// zero is not refused here: the sampler refuses it.
    pub fn new(buffer_size_bytes: usize, sample_count: usize) -> (config: HarnessConfig)
        ensures
            config.buffer_size_bytes == buffer_size_bytes,
            config.sample_count == sample_count,
    {
        HarnessConfig { buffer_size_bytes, sample_count }
    }
}

impl Default for HarnessConfig {
    /// Blocks of `BUFFER_SIZE` bytes and `NUM_SAMPLES` samples per run.
    fn default() -> (config: HarnessConfig)
        ensures
            config.buffer_size_bytes == BUFFER_SIZE,
            config.sample_count == NUM_SAMPLES,
    {
        HarnessConfig { buffer_size_bytes: BUFFER_SIZE, sample_count: NUM_SAMPLES }
    }
}

} // verus!
