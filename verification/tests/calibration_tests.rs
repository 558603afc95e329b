use thrust_bench::calibration::{accumulate_frame, ChannelStats};
use thrust_bench::reading::{ChannelError, Reading};

const CALIBRATION_GRADIENT: f64 = 2.46324555e-5;

#[test]
fn constant_window_has_zero_noise() {
    // A channel producing the same reading for the whole window: the mean
    // is exactly that reading and the noise deviation is exactly zero.
    let x: i32 = 4096;
    let mut st = ChannelStats::new();
    for _ in 0..1000 {
        st.record(Reading { value: x });
    }
    assert_eq!(st.count, 1000);
    assert_eq!(st.sum, 1000 * x as i64);
    assert_eq!(st.variance_moment(), 0);

    // Derived physical statistics, as the host computes them.
    let mean_normalized = st.sum as f64 / st.count as f64 / (0x800000 as f64);
    let offset = -mean_normalized / CALIBRATION_GRADIENT;
    let x_normalized = x as f64 / (0x800000 as f64);
    assert_eq!(offset, -x_normalized / CALIBRATION_GRADIENT);
    let variance = st.variance_moment() as f64
        / (st.count as f64 * st.count as f64)
        / ((0x800000u64 * 0x800000u64) as f64);
    assert_eq!(variance.sqrt(), 0.0);
}

#[test]
fn constant_negative_window() {
    let x: i32 = -0x800000;
    let mut st = ChannelStats::new();
    for _ in 0..10 {
        st.record(Reading { value: x });
    }
    assert_eq!(st.sum, 10 * x as i64);
    assert_eq!(st.variance_moment(), 0);
}

#[test]
fn two_point_window_variance() {
    // Readings alternating between a-d and a+d have variance d^2.
    let mut st = ChannelStats::new();
    for _ in 0..50 {
        st.record(Reading { value: 90 });
        st.record(Reading { value: 110 });
    }
    assert_eq!(st.count, 100);
    assert_eq!(st.sum, 100 * 100);
    // count * sum_sq - sum^2 = count^2 * variance = 10000 * 100.
    assert_eq!(st.variance_moment(), 100 * (50 * 90 * 90 + 50 * 110 * 110) - 10000 * 10000);
    assert_eq!(st.variance_moment(), 10000 * 100);
}

#[test]
fn failed_readings_are_skipped() {
    let mut stats = vec![ChannelStats::new(), ChannelStats::new(), ChannelStats::new()];
    let frame: Vec<Result<Reading, ChannelError>> = vec![
        Ok(Reading { value: 7 }),
        Err(ChannelError::NotReady),
        Err(ChannelError::FramingError),
    ];
    accumulate_frame(&mut stats, &frame);
    accumulate_frame(&mut stats, &frame);
    assert_eq!(stats[0].count, 2);
    assert_eq!(stats[0].sum, 14);
    assert_eq!(stats[0].sum_squares, 98);
    assert_eq!(stats[1].count, 0);
    assert_eq!(stats[2].count, 0);
}

#[test]
fn all_failed_window_surfaces_empty_count() {
    // A channel whose whole window failed stays at count zero; the host
    // turns that into NaN statistics rather than defaulting them.
    let st = ChannelStats::new();
    assert_eq!(st.count, 0);
    let mean = st.sum as f64 / st.count as f64;
    assert!(mean.is_nan());
}
