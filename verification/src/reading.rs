//! Two's-complement decoding of 24-bit raw ADC codes.
//!
//! A raw sample is a 24-bit big-endian magnitude; if bit 23 is set the code
//! is a two's-complement negative. The decoded signed integer is the
//! numerator of the physical reading over 2^23, so the normalized reading
//! lies in [-1, 1). Keeping the numerator exact avoids any rounding in the
//! verified core; division by 2^23 happens only at the display boundary.

use vstd::prelude::*;

verus! {

/// Number of data bits in one raw ADC code.
pub const SAMPLE_BITS: u32 = 24;

/// 2^23: the sign bit of a 24-bit code, and the reading's denominator.
pub const SIGN_BIT: u32 = 0x800000;

/// 2^24: one past the largest 24-bit code.
pub const CODE_SPAN: u32 = 0x1000000;

/// Per-channel acquisition failure, surfaced independently per channel.
#[derive(Clone, Copy, Debug, PartialEq, Eq, Structural)]
pub enum ChannelError {
    /// The device never deasserted its busy line within the polling budget.
    NotReady,
    /// The terminal bit pattern after the gain-select pulse was inconsistent
    /// with a valid conversion.
    FramingError,
}

/// One decoded sample from one channel: the signed numerator of the
/// normalized reading over 2^23.
#[derive(Clone, Copy, Debug, PartialEq, Eq, Structural)]
pub struct Reading {
    /// Signed two's-complement interpretation of the 24-bit raw code,
    /// in [-0x800000, 0x800000).
    pub value: i32,
}

impl Reading {
    /// Every reading produced by decoding a 24-bit code satisfies this.
    pub open spec fn wf(self) -> bool {
        -0x800000 <= self.value < 0x800000
    }
}

/// What a 24-bit raw code means as a signed integer: codes with the top bit
/// set stand for their value minus 2^24.
pub open spec fn decode24_spec(raw: u32) -> int
    recommends
        raw < 0x1000000,
{
    if raw >= 0x800000 {
        raw - 0x1000000
    } else {
        raw as int
    }
}

/// The 24-bit code that stands for a signed value: negatives wrap up by 2^24.
pub open spec fn encode24_spec(value: int) -> int
    recommends
        -0x800000 <= value < 0x800000,
{
    if value < 0 {
        value + 0x1000000
    } else {
        value
    }
}

/// Decode a 24-bit raw code as two's-complement: mask off the sign bit,
/// complement the magnitude bits, add one, negate.
pub fn decode24(raw: u32) -> (r: i32)
    requires
        raw < 0x1000000,
    ensures
        r as int == decode24_spec(raw),
        -0x800000 <= r < 0x800000,
{
    if raw & 0x800000 != 0 {
        assert(((raw & 0x7FFFFF) ^ 0x7FFFFF) + 1 == 0x1000000 - raw && raw >= 0x800000)
            by (bit_vector)
            requires
                raw < 0x1000000 && raw & 0x800000 != 0,
        ;
        let magnitude: u32 = ((raw & 0x7FFFFF) ^ 0x7FFFFF) + 1;
        -(magnitude as i32)
    } else {
        assert(raw < 0x800000) by (bit_vector)
            requires
                raw < 0x1000000 && raw & 0x800000 == 0,
        ;
        raw as i32
    }
}

/// Re-encode a signed value as the 24-bit code it decodes from.
pub fn encode24(value: i32) -> (r: u32)
    requires
        -0x800000 <= value < 0x800000,
    ensures
        r < 0x1000000,
        r as int == encode24_spec(value as int),
{
    if value < 0 {
        (value + 0x1000000) as u32
    } else {
        value as u32
    }
}

/// Round-trip law: decoding any 24-bit raw code and re-encoding the signed
/// result gives back the original code. With exact integer numerators this
/// holds for every code, the asymmetric minimum 0x800000 included.
pub proof fn lemma_decode_then_encode(raw: u32)
    requires
        raw < 0x1000000,
    ensures
        encode24_spec(decode24_spec(raw)) == raw,
{
}

/// The companion direction: encoding any in-range signed value and decoding
/// the code gives back the value.
pub proof fn lemma_encode_then_decode(value: int)
    requires
        -0x800000 <= value < 0x800000,
    ensures
        decode24_spec(encode24_spec(value) as u32) == value,
{
}

} // verus!
