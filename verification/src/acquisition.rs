//! Frame assembly for synchronized acquisition.
//!
//! One frame drives every channel through the same 24-pulse clock sequence;
//! what each channel contributes is captured here as plain data: whether its
//! ready gate passed, the 24 bits sampled most-significant first (each bit
//! already the OR of the per-pulse double samples), and whether the data
//! line was still asserted busy right after the gain-select pulse. Turning
//! those observations into per-channel results is pure and exact, and one
//! channel's failure never touches another's result.

use vstd::prelude::*;

use crate::reading::{decode24, decode24_spec, ChannelError, Reading};

verus! {

/// Number of values representable in `n` bits: 2 to the power `n`.
pub open spec fn bit_span(n: nat) -> nat
    decreases n,
{
    if n == 0 {
        1
    } else {
        2 * bit_span((n - 1) as nat)
    }
}

/// `bit_span` never shrinks as the width grows.
pub proof fn lemma_bit_span_mono(a: nat, b: nat)
    requires
        a <= b,
    ensures
        bit_span(a) <= bit_span(b),
    decreases b,
{
    if a < b {
        lemma_bit_span_mono(a, (b - 1) as nat);
        assert(bit_span(b) == 2 * bit_span((b - 1) as nat));
    }
}

/// The 24-bit spans used by the shift loops.
pub proof fn lemma_bit_span_24()
    ensures
        bit_span(23) == 0x800000,
        bit_span(24) == 0x1000000,
{
    reveal_with_fuel(bit_span, 25);
}

/// The big-endian magnitude encoded by a bit sequence, most-significant
/// bit first.
pub open spec fn raw_of_bits(bits: Seq<bool>) -> nat
    decreases bits.len(),
{
    if bits.len() == 0 {
        0
    } else {
        2 * raw_of_bits(bits.drop_last()) + (if bits.last() {
            1nat
        } else {
            0nat
        })
    }
}

/// What one channel contributed to one frame.
pub struct ChannelSamples {
    /// Whether the data line deasserted busy within the polling budget.
    pub ready: bool,
    /// The 24 sampled bits, most-significant first.
    pub bits: Vec<bool>,
    /// Whether the data line was asserted busy right after the gain-select
    /// pulse; a valid conversion leaves it deasserted there.
    pub busy_after: bool,
}

impl ChannelSamples {
    pub open spec fn wf(self) -> bool {
        self.bits@.len() == 24
    }
}

/// The result one channel's observations decode to: `NotReady` if its gate
/// failed, `FramingError` if its line was busy right after the gain-select
/// pulse, otherwise the two's-complement reading of its 24 bits.
pub open spec fn assemble_spec(ready: bool, raw: u32, busy_after: bool) -> Result<
    Reading,
    ChannelError,
> {
    if !ready {
        Err(ChannelError::NotReady)
    } else if busy_after {
        Err(ChannelError::FramingError)
    } else {
        Ok(Reading { value: decode24_spec(raw) as i32 })
    }
}

/// The result a channel's full per-frame observations decode to.
pub open spec fn channel_result_spec(s: ChannelSamples) -> Result<Reading, ChannelError> {
    assemble_spec(s.ready, raw_of_bits(s.bits@) as u32, s.busy_after)
}

/// Shift one sampled bit into a channel's accumulator.
pub fn shift_in(acc: u32, bit: bool) -> (r: u32)
    requires
        acc < 0x800000,
    ensures
        r == 2 * acc + (if bit {
            1nat
        } else {
            0nat
        }),
        r < 0x1000000,
{
    if bit {
        2 * acc + 1
    } else {
        2 * acc
    }
}

/// Decode one channel's observations.
pub fn channel_result(s: &ChannelSamples) -> (r: Result<Reading, ChannelError>)
    requires
        s.wf(),
    ensures
        r == channel_result_spec(*s),
        r matches Ok(v) ==> v.wf(),
{
    let mut acc: u32 = 0;
    let mut i: usize = 0;
    proof {
        assert(s.bits@.take(0) =~= Seq::<bool>::empty());
    }
    while i < 24
        invariant
            s.wf(),
            i <= 24,
            acc == raw_of_bits(s.bits@.take(i as int)),
            acc < bit_span(i as nat),
        decreases 24 - i,
    {
        proof {
            lemma_bit_span_mono(i as nat, 23);
            lemma_bit_span_24();
            assert(s.bits@.take(i + 1).drop_last() =~= s.bits@.take(i as int));
            assert(s.bits@.take(i + 1).last() == s.bits@[i as int]);
        }
        acc = shift_in(acc, s.bits[i]);
        i = i + 1;
    }
    proof {
        assert(s.bits@.take(24) =~= s.bits@);
        lemma_bit_span_24();
    }
    assemble_result(s.ready, acc, s.busy_after)
}

/// Decode a raw accumulator together with its channel's gate and
/// post-pulse observations.
pub fn assemble_result(ready: bool, raw: u32, busy_after: bool) -> (r: Result<
    Reading,
    ChannelError,
>)
    requires
        raw < 0x1000000,
    ensures
        r == assemble_spec(ready, raw, busy_after),
        r matches Ok(v) ==> v.wf(),
{
    if !ready {
        Err(ChannelError::NotReady)
    } else if busy_after {
        Err(ChannelError::FramingError)
    } else {
        Ok(Reading { value: decode24(raw) })
    }
}

/// Decode one whole frame: one result per channel, in request order.
pub fn decode_frame(samples: &Vec<ChannelSamples>) -> (out: Vec<Result<Reading, ChannelError>>)
    requires
        forall|i: int| 0 <= i < samples@.len() ==> (#[trigger] samples@[i]).wf(),
    ensures
        out@.len() == samples@.len(),
        forall|i: int|
            0 <= i < samples@.len() ==> out@[i] == channel_result_spec(#[trigger] samples@[i]),
{
    let mut out: Vec<Result<Reading, ChannelError>> = Vec::new();
    let mut i: usize = 0;
    let n = samples.len();
    while i < n
        invariant
            n == samples@.len(),
            i <= n,
            out@.len() == i,
            forall|j: int| 0 <= j < samples@.len() ==> (#[trigger] samples@[j]).wf(),
            forall|j: int|
                0 <= j < i ==> out@[j] == channel_result_spec(#[trigger] samples@[j]),
        decreases n - i,
    {
        let r = channel_result(&samples[i]);
        out.push(r);
        i = i + 1;
    }
    out
}

/// A channel whose gate never passes is reported `NotReady` and only that:
/// every other channel whose own gate passed and whose line was quiet after
/// the gain-select pulse still decodes to its valid reading, untouched by
/// the failure.
pub proof fn lemma_busy_channel_is_isolated(samples: Seq<ChannelSamples>, k: int)
    requires
        forall|i: int| 0 <= i < samples.len() ==> (#[trigger] samples[i]).wf(),
        0 <= k < samples.len(),
        !samples[k].ready,
    ensures
        channel_result_spec(samples[k]) == Err::<Reading, ChannelError>(ChannelError::NotReady),
        forall|i: int|
            0 <= i < samples.len() && i != k && samples[i].ready && !samples[i].busy_after
                ==> #[trigger] channel_result_spec(samples[i]) == Ok::<Reading, ChannelError>(
                Reading { value: decode24_spec(raw_of_bits(samples[i].bits@) as u32) as i32 },
            ),
{
}

} // verus!
