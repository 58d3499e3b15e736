use latency_harness::candidates::acquire_dynamic;
use latency_harness::candidates::create_on_heap;
use latency_harness::candidates::create_on_stack;
use latency_harness::candidates::push_to_vec;
use latency_harness::config::HarnessConfig;
use latency_harness::config::BUFFER_SIZE;
use latency_harness::config::NUM_SAMPLES;
use latency_harness::error::HarnessError;
use latency_harness::harness::measure;

#[test]
fn default_configuration_matches_the_constants() {
    let config = HarnessConfig::default();
    assert_eq!(config.buffer_size_bytes, 1024);
    assert_eq!(config.sample_count, 5000);
    assert_eq!(BUFFER_SIZE, 1024);
    assert_eq!(NUM_SAMPLES, 5000);
}

#[test]
fn configuration_keeps_what_it_is_given() {
    let config = HarnessConfig::new(4096, 12);
    assert_eq!(config.buffer_size_bytes, 4096);
    assert_eq!(config.sample_count, 12);
    assert_eq!(config, HarnessConfig { buffer_size_bytes: 4096, sample_count: 12 });
}

#[test]
fn candidates_run_to_completion() {
    create_on_stack();
    create_on_heap();
    push_to_vec();
    acquire_dynamic(0);
    acquire_dynamic(4096);
}

#[test]
fn measure_summarises_the_configured_number_of_samples() {
    let config = HarnessConfig::new(1024, 300);
    let record = measure(&config, create_on_stack).unwrap();
    assert_eq!(record.count(), 300);
    assert!(record.min() <= record.mean_floor());
    assert!(record.mean_floor() <= record.max());
    assert_eq!(record.jitter(), record.max() - record.min());
    let configured = measure(&config, || acquire_dynamic(config.buffer_size_bytes)).unwrap();
    assert_eq!(configured.count(), 300);
    let growing = measure(&config, push_to_vec).unwrap();
    assert_eq!(growing.count(), 300);
}

#[test]
fn measure_rejects_a_count_of_zero() {
    match measure(&HarnessConfig::new(1024, 0), create_on_heap) {
        Ok(_) => panic!("no samples, no record"),
        Err(e) => assert_eq!(e, HarnessError::InvalidSampleCount),
    }
}

#[test]
fn errors_describe_themselves() {
    assert_eq!(
        HarnessError::InvalidSampleCount.describe(),
        "invalid sample count: at least one sample is required"
    );
    assert_eq!(
        HarnessError::EmptySampleSet.describe(),
        "empty sample set: there is nothing to summarise"
    );
    assert_eq!(
        HarnessError::ClockUnavailable.describe(),
        "clock unavailable: the monotonic timer gave no usable reading"
    );
    assert_eq!(
        HarnessError::SumOverflow.describe(),
        "sum overflow: the samples add up to more than 128 bits hold"
    );
}
