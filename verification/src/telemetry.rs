//! Codec for the ESC's fixed-frame telemetry record.
//!
//! A frame is a line of exactly 22 ASCII hex digits (line terminator already
//! stripped). Each digit pair is one byte; the first nine bytes are, in
//! order: temperature, voltage hi/lo, current hi/lo, consumed-mAh hi/lo,
//! electrical-rpm hi/lo. Fields keep the wire's integer units — centivolts,
//! centiamps, mAh, rpm — so the codec is exact; scaling to volts and amps
//! happens outside the verified core.

use vstd::prelude::*;

verus! {

/// Length in characters of one telemetry frame, terminator excluded.
pub const FRAME_CHARS: usize = 22;

/// Telemetry decode failure.
#[derive(Clone, Copy, Debug, PartialEq, Eq, Structural)]
pub enum DecodeError {
    /// The input is not exactly 22 characters long.
    BadLength,
    /// Some digit pair is not valid hexadecimal.
    BadHex,
}

/// One decoded telemetry record, in the wire's own integer units.
#[derive(Clone, Copy, Debug, PartialEq, Eq, Structural)]
pub struct TelemetryFrame {
    pub temperature: u8,
    /// Bus voltage in hundredths of a volt.
    pub voltage_centivolts: u16,
    /// Current in hundredths of an ampere.
    pub current_centiamps: u16,
    /// Consumed charge in mAh, unscaled.
    pub consumed_mah: u16,
    /// Electrical rpm: one hundred times the 16-bit wire value.
    pub electrical_rpm: u32,
}

/// Whether a byte is an ASCII hexadecimal digit.
pub open spec fn is_hex_digit(c: u8) -> bool {
    (0x30 <= c <= 0x39) || (0x61 <= c <= 0x66) || (0x41 <= c <= 0x46)
}

/// The value of an ASCII hexadecimal digit.
pub open spec fn hex_val(c: u8) -> u8
    recommends
        is_hex_digit(c),
{
    if 0x30 <= c <= 0x39 {
        (c - 0x30) as u8
    } else if 0x61 <= c <= 0x66 {
        (c - 0x61 + 10) as u8
    } else {
        (c - 0x41 + 10) as u8
    }
}

/// The byte encoded by the digit pair at positions 2i, 2i+1.
pub open spec fn byte_at(s: Seq<u8>, i: int) -> u8
    recommends
        0 <= i,
        2 * i + 1 < s.len(),
{
    (hex_val(s[2 * i]) * 16 + hex_val(s[2 * i + 1])) as u8
}

/// Whether every character of the frame is a hexadecimal digit.
pub open spec fn all_hex(s: Seq<u8>) -> bool {
    forall|j: int| 0 <= j < s.len() ==> is_hex_digit(#[trigger] s[j])
}

/// The record a well-formed 22-character frame decodes to.
pub open spec fn frame_spec(s: Seq<u8>) -> TelemetryFrame
    recommends
        s.len() == 22,
        all_hex(s),
{
    TelemetryFrame {
        temperature: byte_at(s, 0),
        voltage_centivolts: (byte_at(s, 1) * 256 + byte_at(s, 2)) as u16,
        current_centiamps: (byte_at(s, 3) * 256 + byte_at(s, 4)) as u16,
        consumed_mah: (byte_at(s, 5) * 256 + byte_at(s, 6)) as u16,
        electrical_rpm: (100 * (byte_at(s, 7) * 256 + byte_at(s, 8))) as u32,
    }
}

/// Parse one ASCII hexadecimal digit.
pub fn hex_digit_value(c: u8) -> (r: Option<u8>)
    ensures
        match r {
            Some(v) => is_hex_digit(c) && v == hex_val(c) && v < 16,
            None => !is_hex_digit(c),
        },
{
    if 0x30 <= c && c <= 0x39 {
        Some(c - 0x30)
    } else if 0x61 <= c && c <= 0x66 {
        Some(c - 0x61 + 10)
    } else if 0x41 <= c && c <= 0x46 {
        Some(c - 0x41 + 10)
    } else {
        None
    }
}

/// Decode one telemetry frame.
///
/// Fails with `BadLength` exactly when the input is not 22 characters, and
/// with `BadHex` exactly when it is 22 characters but some character is not
/// a hexadecimal digit; otherwise returns precisely the record the frame
/// encodes.
pub fn decode(frame: &[u8]) -> (r: Result<TelemetryFrame, DecodeError>)
    ensures
        (r == Err::<TelemetryFrame, DecodeError>(DecodeError::BadLength)) <==> frame@.len()
            != 22,
        (r == Err::<TelemetryFrame, DecodeError>(DecodeError::BadHex)) <==> (frame@.len() == 22
            && !all_hex(frame@)),
        frame@.len() == 22 && all_hex(frame@) ==> r == Ok::<TelemetryFrame, DecodeError>(
            frame_spec(frame@),
        ),
{
    if frame.len() != 22 {
        return Err(DecodeError::BadLength);
    }
    let mut bytes: Vec<u8> = Vec::new();
    let mut i: usize = 0;
    while i < 11
        invariant
            frame@.len() == 22,
            i <= 11,
            bytes@.len() == i,
            forall|j: int| 0 <= j < 2 * i ==> is_hex_digit(#[trigger] frame@[j]),
            forall|j: int| 0 <= j < i ==> bytes@[j] == byte_at(frame@, j),
        decreases 11 - i,
    {
        let hi = match hex_digit_value(frame[2 * i]) {
            Some(v) => v,
            None => {
                return Err(DecodeError::BadHex);
            },
        };
        let lo = match hex_digit_value(frame[2 * i + 1]) {
            Some(v) => v,
            None => {
                return Err(DecodeError::BadHex);
            },
        };
        bytes.push(hi * 16 + lo);
        i = i + 1;
    }
    assert(all_hex(frame@)) by {
        assert(forall|j: int| 0 <= j < 22 ==> is_hex_digit(#[trigger] frame@[j]));
    }
    let voltage: u16 = (bytes[1] as u16) * 256 + (bytes[2] as u16);
    let current: u16 = (bytes[3] as u16) * 256 + (bytes[4] as u16);
    let mah: u16 = (bytes[5] as u16) * 256 + (bytes[6] as u16);
    let erpm: u32 = 100 * ((bytes[7] as u32) * 256 + (bytes[8] as u32));
    Ok(
        TelemetryFrame {
            temperature: bytes[0],
            voltage_centivolts: voltage,
            current_centiamps: current,
            consumed_mah: mah,
            electrical_rpm: erpm,
        },
    )
}

} // verus!
