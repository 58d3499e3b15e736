use latency_harness::report::decimal_digits;
use latency_harness::report::render_report;
use latency_harness::stats::aggregate;

fn text_of(n: u128) -> String {
    decimal_digits(n).into_iter().collect()
}

#[test]
fn decimal_digits_of_small_numbers() {
    assert_eq!(decimal_digits(0), vec!['0']);
    assert_eq!(decimal_digits(7), vec!['7']);
    assert_eq!(decimal_digits(10), vec!['1', '0']);
    assert_eq!(decimal_digits(307), vec!['3', '0', '7']);
    assert_eq!(text_of(1_000_000), "1000000");
}

#[test]
fn decimal_digits_agree_with_the_standard_rendering() {
    for n in [0u128, 1, 9, 10, 11, 99, 100, 101, 12345, 999_999_999, 18_446_744_073_709_551_615] {
        assert_eq!(text_of(n), format!("{}", n));
    }
    assert_eq!(text_of(u128::MAX), "340282366920938463463374607431768211455");
}

#[test]
fn report_of_fixed_sequence() {
    let samples: Vec<u128> = vec![5, 2, 9, 2];
    let record = aggregate(&samples).unwrap();
    let text = render_report("Stack Allocation Stats", &record);
    assert_eq!(
        text,
        "--- Stack Allocation Stats ---\n\
         Samples: 4\n\
         Min: 2 ns\n\
         Max: 9 ns (Observed WCET)\n\
         Avg: 4.50 ns\n\
         Jitter: 7 ns (Max - Min)\n"
    );
}

#[test]
fn report_pads_the_hundredths_of_the_mean() {
    let samples: Vec<u128> = vec![0, 0, 0, 0, 0, 0, 0, 0, 0, 0, 0, 0, 0, 0, 0, 0, 0, 0, 0, 1];
    let record = aggregate(&samples).unwrap();
    let text = render_report("", &record);
    assert_eq!(
        text,
        "---  ---\n\
         Samples: 20\n\
         Min: 0 ns\n\
         Max: 1 ns (Observed WCET)\n\
         Avg: 0.05 ns\n\
         Jitter: 1 ns (Max - Min)\n"
    );
}

#[test]
fn report_of_large_samples() {
    let samples: Vec<u128> = vec![1_000_000, 3_000_001];
    let record = aggregate(&samples).unwrap();
    let text = render_report("Heap", &record);
    assert_eq!(
        text,
        "--- Heap ---\n\
         Samples: 2\n\
         Min: 1000000 ns\n\
         Max: 3000001 ns (Observed WCET)\n\
         Avg: 2000000.50 ns\n\
         Jitter: 2000001 ns (Max - Min)\n"
    );
}

#[test]
fn report_keeps_a_label_that_is_not_ascii() {
    let samples: Vec<u128> = vec![12];
    let record = aggregate(&samples).unwrap();
    let text = render_report("pile — tas", &record);
    assert!(text.starts_with("--- pile — tas ---\n"));
    assert!(text.ends_with("Jitter: 0 ns (Max - Min)\n"));
}
