use thrust_bench::telemetry::{decode, DecodeError, TelemetryFrame};

#[test]
fn decode_known_frame() {
    // Payload bytes 00 0A 0B FF 01 01 F4 00 3C, then two trailing bytes.
    let frame = decode(b"000A0BFF0101F4003C2A00").unwrap();
    assert_eq!(
        frame,
        TelemetryFrame {
            temperature: 0x00,
            voltage_centivolts: 0x0A * 256 + 0x0B,
            current_centiamps: 0xFF * 256 + 0x01,
            consumed_mah: 0x01 * 256 + 0xF4,
            electrical_rpm: 100 * 0x3C,
        }
    );
    assert_eq!(frame.voltage_centivolts, 2571);
    assert_eq!(frame.consumed_mah, 500);
    assert_eq!(frame.electrical_rpm, 6000);
    // The physical quantities derived outside the core.
    assert_eq!(frame.voltage_centivolts as f64 / 100.0, 25.71);
}

#[test]
fn decode_lowercase_hex() {
    let frame = decode(b"ff00640200c8000a00ff00").unwrap();
    assert_eq!(frame.temperature, 0xFF);
    assert_eq!(frame.voltage_centivolts, 0x0064);
    assert_eq!(frame.current_centiamps, 0x0200);
    assert_eq!(frame.consumed_mah, 0xC800);
    assert_eq!(frame.electrical_rpm, 100 * 0x0A00);
}

#[test]
fn decode_full_scale_rpm() {
    let frame = decode(b"00000000000000FFFF0000").unwrap();
    assert_eq!(frame.electrical_rpm, 100 * 0xFFFF);
}

#[test]
fn short_frame_is_bad_length() {
    assert_eq!(decode(b"000A0BFF0101F4003C2A0"), Err(DecodeError::BadLength));
}

#[test]
fn long_frame_is_bad_length() {
    assert_eq!(decode(b"000A0BFF0101F4003C2A000"), Err(DecodeError::BadLength));
}

#[test]
fn empty_frame_is_bad_length() {
    assert_eq!(decode(b""), Err(DecodeError::BadLength));
}

#[test]
fn non_hex_digit_is_bad_hex() {
    assert_eq!(decode(b"000A0BFF0101F4003C2A0G"), Err(DecodeError::BadHex));
    assert_eq!(decode(b"z00A0BFF0101F4003C2A00"), Err(DecodeError::BadHex));
}

#[test]
fn length_checked_before_hex() {
    // A short garbled line is "not yet a complete frame", not bad hex.
    assert_eq!(decode(b"zz"), Err(DecodeError::BadLength));
}
