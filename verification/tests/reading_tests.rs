use thrust_bench::reading::{decode24, encode24};

#[test]
fn decode_zero() {
    assert_eq!(decode24(0x000000), 0);
}

#[test]
fn decode_max_positive() {
    // 0x7FFFFF is the largest positive code: just below full scale.
    assert_eq!(decode24(0x7FFFFF), 0x7FFFFF);
    let normalized = decode24(0x7FFFFF) as f64 / (0x800000 as f64);
    assert!(normalized > 0.999_999 && normalized < 1.0);
}

#[test]
fn decode_min_negative() {
    // 0x800000 is the asymmetric two's-complement minimum: exactly -1.0.
    assert_eq!(decode24(0x800000), -0x800000);
    let normalized = decode24(0x800000) as f64 / (0x800000 as f64);
    assert_eq!(normalized, -1.0);
}

#[test]
fn decode_minus_one() {
    // 0xFFFFFF is -1: one epsilon below zero.
    assert_eq!(decode24(0xFFFFFF), -1);
    let normalized = decode24(0xFFFFFF) as f64 / (0x800000 as f64);
    assert!(normalized < 0.0 && normalized > -0.000_001);
}

#[test]
fn round_trip_boundaries() {
    for raw in [0x000000u32, 0x000001, 0x7FFFFE, 0x7FFFFF, 0x800000, 0x800001, 0xFFFFFE, 0xFFFFFF]
    {
        assert_eq!(encode24(decode24(raw)), raw);
    }
}

#[test]
fn round_trip_sweep() {
    let mut raw: u32 = 0;
    while raw < 0x1000000 {
        assert_eq!(encode24(decode24(raw)), raw);
        raw += 0x10001;
    }
}

#[test]
fn encode_then_decode() {
    for value in [-0x800000i32, -0x7FFFFF, -1, 0, 1, 0x7FFFFE, 0x7FFFFF] {
        assert_eq!(decode24(encode24(value)), value);
    }
}
