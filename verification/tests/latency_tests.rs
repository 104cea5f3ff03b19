use echo_bench::latency::{elapsed_nanos, LatencySample};

#[test]
fn elapsed_is_the_difference_of_the_readings() {
    assert_eq!(elapsed_nanos(100, 350), 250);
    assert_eq!(elapsed_nanos(0, 0), 0);
    assert_eq!(elapsed_nanos(7, 7), 0);
    assert_eq!(elapsed_nanos(0, u64::MAX), u64::MAX);
}

#[test]
fn out_of_order_readings_saturate_at_zero() {
    assert_eq!(elapsed_nanos(350, 100), 0);
    assert_eq!(elapsed_nanos(u64::MAX, 0), 0);
}

#[test]
fn a_sample_measures_one_iteration() {
    let sample = LatencySample { issue: 1_000, complete: 4_500 };
    assert_eq!(sample.duration_nanos(), 3_500);
}
