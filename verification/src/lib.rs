//! Latency sampling and worst-case statistics for comparing memory-acquisition
//! strategies in time-deterministic software.
//!
//! A [`sampler::Sampler`] times a candidate operation a fixed number of times
//! on the monotonic clock. [`stats::aggregate`] reduces the samples to a
//! [`stats::StatisticsRecord`]: the count, the best case, the observed worst
//! case, the exact mean and the jitter. [`report::render_report`] writes the
//! record out for a person to read. What a record says of its samples is
//! defined, and proved to be well behaved, in [`summary`].

pub mod candidates;
pub mod config;
pub mod error;
pub mod harness;
pub mod report;
pub mod sampler;
pub mod stats;
pub mod summary;
pub mod timer;
