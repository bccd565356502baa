use great_appender::reporter::ThroughputMeasurer;

#[test]
fn new_measurer_starts_at_zero() {
    let m = ThroughputMeasurer::new(5);
    assert_eq!(m.started, 5);
    assert_eq!(m.prev_moment, 5);
    assert_eq!(m.bytes, 0);
    assert_eq!(m.last_measure_throughput, 0);
    assert_eq!(m.average_throughput, 0);
}

#[test]
fn measure_computes_both_throughputs() {
    let mut m = ThroughputMeasurer::new(0);
    m.measure(100, 10);
    assert_eq!(m.average_throughput, 10);
    assert_eq!(m.last_measure_throughput, 10);
    m.measure(400, 20);
    // Average: 400 bytes over 20 seconds since the start.
    assert_eq!(m.average_throughput, 20);
    // Instantaneous: 300 new bytes over the 10 seconds since the previous sample.
    assert_eq!(m.last_measure_throughput, 30);
    assert_eq!(m.bytes, 400);
    assert_eq!(m.prev_moment, 20);
}

#[test]
fn zero_elapsed_seconds_saturates() {
    // Sampling faster than the one-second resolution: the division has no
    // finite value, and the reading saturates.
    let mut m = ThroughputMeasurer::new(0);
    m.measure(100, 10);
    m.measure(150, 10);
    assert_eq!(m.last_measure_throughput, u64::MAX);
    assert_eq!(m.average_throughput, 15);
}

#[test]
fn average_independent_of_sampling_frequency() {
    // Many samples or one: the average after the last sample is the same.
    let mut frequent = ThroughputMeasurer::new(0);
    frequent.measure(10, 1);
    frequent.measure(50, 2);
    frequent.measure(300, 4);
    frequent.measure(600, 6);
    let mut sparse = ThroughputMeasurer::new(0);
    sparse.measure(600, 6);
    assert_eq!(frequent.average_throughput, 100);
    assert_eq!(sparse.average_throughput, 100);
}

#[test]
fn status_line_matches_byte_formatting() {
    let mut m = ThroughputMeasurer::new(0);
    m.measure(1_230_000, 10);
    let expected = format!(
        "Written {}\t{}/s\t{}/s",
        bytefmt::format(1_230_000),
        bytefmt::format(123_000),
        bytefmt::format(123_000),
    );
    assert_eq!(m.status_line(), expected);
}

#[test]
fn status_line_scales_units() {
    let mut m = ThroughputMeasurer::new(0);
    m.measure(2_500_000, 1);
    let line = m.status_line();
    // The totals are scaled into units, not printed as raw counts.
    assert_eq!(line, "Written 2.5 MB\t2.5 MB/s\t2.5 MB/s");
    assert_ne!(line, "Written 2500000\t2500000/s\t2500000/s");
}

#[test]
fn final_line_before_any_sample_reports_zero() {
    // The stop flag set before any snapshot arrives: the final summary line
    // still comes out, with the zero totals last observed.
    let m = ThroughputMeasurer::new(0);
    let expected = format!(
        "Written {}\t{}/s\t{}/s",
        bytefmt::format(0),
        bytefmt::format(0),
        bytefmt::format(0),
    );
    assert_eq!(m.status_line(), expected);
}
