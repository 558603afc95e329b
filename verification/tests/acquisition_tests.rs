use thrust_bench::acquisition::{decode_frame, ChannelSamples};
use thrust_bench::reading::{ChannelError, Reading};

fn bits_of(raw: u32) -> Vec<bool> {
    let mut bits = Vec::new();
    let mut shift = 24;
    while shift > 0 {
        shift -= 1;
        bits.push((raw >> shift) & 1 == 1);
    }
    bits
}

fn good_channel(raw: u32) -> ChannelSamples {
    ChannelSamples { ready: true, bits: bits_of(raw), busy_after: false }
}

#[test]
fn single_channel_positive() {
    let out = decode_frame(&vec![good_channel(0x000001)]);
    assert_eq!(out, vec![Ok(Reading { value: 1 })]);
}

#[test]
fn single_channel_negative() {
    let out = decode_frame(&vec![good_channel(0xFFFFFF)]);
    assert_eq!(out, vec![Ok(Reading { value: -1 })]);
}

#[test]
fn single_channel_full_negative_scale() {
    let out = decode_frame(&vec![good_channel(0x800000)]);
    assert_eq!(out, vec![Ok(Reading { value: -0x800000 })]);
}

#[test]
fn busy_channel_fails_alone() {
    // The middle channel never deasserts busy; its neighbours still read.
    let samples = vec![
        good_channel(0x000A0B),
        ChannelSamples { ready: false, bits: bits_of(0), busy_after: false },
        good_channel(0x7FFFFF),
    ];
    let out = decode_frame(&samples);
    assert_eq!(
        out,
        vec![
            Ok(Reading { value: 0x000A0B }),
            Err(ChannelError::NotReady),
            Ok(Reading { value: 0x7FFFFF }),
        ]
    );
}

#[test]
fn busy_after_gain_pulse_is_framing_error() {
    let samples = vec![
        ChannelSamples { ready: true, bits: bits_of(0x000123), busy_after: true },
        good_channel(0x000123),
    ];
    let out = decode_frame(&samples);
    assert_eq!(out, vec![Err(ChannelError::FramingError), Ok(Reading { value: 0x123 })]);
}

#[test]
fn not_ready_wins_over_framing() {
    // A channel that failed its gate reports NotReady whatever its line
    // did after the gain pulse.
    let samples = vec![ChannelSamples { ready: false, bits: bits_of(0), busy_after: true }];
    assert_eq!(decode_frame(&samples), vec![Err(ChannelError::NotReady)]);
}

#[test]
fn empty_frame() {
    let out = decode_frame(&Vec::new());
    assert!(out.is_empty());
}
