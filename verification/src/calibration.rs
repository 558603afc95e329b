//! Zero-calibration statistics.
//!
//! With the throttle held at idle, frames are acquired at the maximum rate
//! the channels allow until the wall-clock window elapses; every successful
//! reading feeds a per-channel running sum and sum of squares, and failed
//! readings are skipped. The accumulators are exact integers over the
//! readings' numerators, so the derived statistics are exact too: the mean
//! of the normalized reading is `sum / (count * 2^23)`, and the population
//! variance is `(count * sum_squares - sum^2) / (count^2 * 2^46)`. The
//! conversion to physical force units through the calibration gradient, and
//! the final square root, are floating point and live outside the core.

use vstd::prelude::*;

use crate::hx711::Hx711;
use crate::reading::{ChannelError, Reading};

verus! {

/// Cap on the number of frames one calibration window may accumulate; it
/// keeps every accumulator exact: `|sum| <= count * 2^23` and
/// `sum_squares <= count * 2^46` stay far inside their types.
pub const CAL_MAX_SAMPLES: u64 = 0x20000;

/// Sum of a sequence of readings' numerators.
pub open spec fn sum_of(s: Seq<int>) -> int
    decreases s.len(),
{
    if s.len() == 0 {
        0
    } else {
        sum_of(s.drop_last()) + s.last()
    }
}

/// Sum of the squares of a sequence of readings' numerators.
pub open spec fn sum_sq_of(s: Seq<int>) -> int
    decreases s.len(),
{
    if s.len() == 0 {
        0
    } else {
        sum_sq_of(s.drop_last()) + s.last() * s.last()
    }
}

/// Accumulated sums stay within `count` times the one-sample bound.
pub proof fn lemma_sums_bounded(s: Seq<int>)
    requires
        forall|i: int| 0 <= i < s.len() ==> -0x800000 <= #[trigger] s[i] < 0x800000,
    ensures
        -(s.len() * 0x800000) <= sum_of(s) <= s.len() * 0x800000,
        0 <= sum_sq_of(s) <= s.len() * 0x800000 * 0x800000,
    decreases s.len(),
{
    if s.len() > 0 {
        lemma_sums_bounded(s.drop_last());
        let x = s.last();
        assert(-0x800000 <= x < 0x800000);
        assert(x * x <= 0x800000 * 0x800000 && 0 <= x * x) by (nonlinear_arith)
            requires
                -0x800000 <= x < 0x800000,
        ;
        assert((s.len() - 1) * 0x800000 + 0x800000 == s.len() * 0x800000) by (nonlinear_arith);
        assert((s.len() - 1) * 0x800000 * 0x800000 + 0x800000 * 0x800000 == s.len() * 0x800000
            * 0x800000) by (nonlinear_arith);
    }
}

/// Per-channel running statistics over the successful readings of one
/// calibration window.
#[derive(Clone, Copy)]
pub struct ChannelStats {
    /// Number of successful readings accumulated.
    pub count: u64,
    /// Exact sum of the readings' numerators.
    pub sum: i64,
    /// Exact sum of the squares of the readings' numerators.
    pub sum_squares: u64,
    /// The successful readings themselves, in order.
    pub samples: Ghost<Seq<int>>,
}

impl ChannelStats {
    /// The accumulators are exactly the sums over the recorded samples,
    /// every sample is a valid reading numerator, and the window cap holds.
    pub open spec fn wf(self) -> bool {
        &&& self.count == self.samples@.len()
        &&& self.count <= CAL_MAX_SAMPLES
        &&& self.sum == sum_of(self.samples@)
        &&& self.sum_squares == sum_sq_of(self.samples@)
        &&& forall|i: int|
            0 <= i < self.samples@.len() ==> -0x800000 <= #[trigger] self.samples@[i] < 0x800000
    }

    /// Empty statistics: nothing accumulated yet.
    pub fn new() -> (r: ChannelStats)
        ensures
            r.wf(),
            r.count == 0,
            r.samples@ == Seq::<int>::empty(),
    {
        ChannelStats { count: 0, sum: 0, sum_squares: 0, samples: Ghost(Seq::empty()) }
    }

    /// Fold one successful reading into the accumulators.
    pub fn record(&mut self, r: Reading)
        requires
            old(self).wf(),
            r.wf(),
            old(self).count < CAL_MAX_SAMPLES,
        ensures
            final(self).wf(),
            final(self).count == old(self).count + 1,
            final(self).samples@ == old(self).samples@.push(r.value as int),
    {
        proof {
            lemma_sums_bounded(self.samples@);
        }
        let v: i64 = r.value as i64;
        assert(v * v <= 0x800000 * 0x800000 && 0 <= v * v) by (nonlinear_arith)
            requires
                -0x800000 <= v < 0x800000,
        ;
        self.sum = self.sum + v;
        self.sum_squares = self.sum_squares + ((v * v) as u64);
        self.count = self.count + 1;
        proof {
            self.samples@ = self.samples@.push(v as int);
            assert(self.samples@.drop_last() =~= old(self).samples@);
        }
    }

    /// The centered second moment `count * sum_squares - sum^2`: the
    /// population variance of the normalized readings is this value over
    /// `count^2 * 2^46`. It is zero exactly when the window saw a constant
    /// reading.
    pub fn variance_moment(&self) -> (r: i128)
        requires
            self.wf(),
        ensures
            r == self.count * self.sum_squares - self.sum * self.sum,
    {
        proof {
            lemma_sums_bounded(self.samples@);
            let c = self.count as int;
            let sq = self.sum_squares as int;
            let s = self.sum as int;
            assert(c * sq <= 0x20000 * (0x20000 * 0x800000 * 0x800000) && c * sq >= 0)
                by (nonlinear_arith)
                requires
                    0 <= c <= 0x20000 && 0 <= sq <= c * 0x800000 * 0x800000,
            ;
            assert(s * s <= (0x20000 * 0x800000) * (0x20000 * 0x800000) && s * s >= 0)
                by (nonlinear_arith)
                requires
                    -(0x20000 * 0x800000) <= s <= 0x20000 * 0x800000,
            ;
            assert(c * 0x800000 * 0x800000 <= 0x20000 * 0x800000 * 0x800000) by (nonlinear_arith)
                requires
                    0 <= c <= 0x20000,
            ;
            assert(-(c * 0x800000) >= -(0x20000 * 0x800000) && c * 0x800000 <= 0x20000 * 0x800000)
                by (nonlinear_arith)
                requires
                    0 <= c <= 0x20000,
            ;
        }
        (self.count as i128) * (self.sum_squares as i128) - (self.sum as i128) * (
        self.sum as i128)
    }
}

#[verifier::external_type_specification]
#[verifier::external_body]
pub struct ExInstant(std::time::Instant);

/// Relies on std::time::Instant::now: the moment of the call; depends on
/// the clock, so nothing is promised of it.
#[verifier::external_body]
fn instant_now() -> std::time::Instant {
    std::time::Instant::now()
}

/// Relies on std::time::Instant::elapsed: the time since `start`; depends
/// on the clock, so nothing is promised of it.
#[verifier::external_body]
fn instant_elapsed(start: &std::time::Instant) -> std::time::Duration {
    start.elapsed()
}

/// Relies on std::time::Duration::as_secs: the duration's whole seconds.
#[verifier::external_body]
fn duration_as_secs(d: &std::time::Duration) -> u64 {
    d.as_secs()
}

/// Acquire frames at the maximum rate the channels allow until the
/// wall-clock window elapses (or the window cap is hit), accumulating
/// per-channel statistics over the successful readings. The caller must
/// hold the throttle at the ESC's idle setting for the whole window.
///
/// A channel whose window produced only failures comes back with
/// `count == 0`; its statistics are undefined and the caller surfaces
/// that rather than defaulting it.
pub fn calibrate_zero(devices: &mut Vec<Hx711>, duration_secs: u64) -> (r: Vec<ChannelStats>)
    ensures
        r@.len() == old(devices)@.len(),
        final(devices)@.len() == old(devices)@.len(),
        forall|i: int| 0 <= i < r@.len() ==> (#[trigger] r@[i]).wf(),
{
    let n = devices.len();
    let mut stats: Vec<ChannelStats> = Vec::new();
    let mut i: usize = 0;
    while i < n
        invariant
            i <= n,
            stats@.len() == i,
            forall|j: int| 0 <= j < i ==> (#[trigger] stats@[j]).wf() && stats@[j].count == 0,
        decreases n - i,
    {
        stats.push(ChannelStats::new());
        i = i + 1;
    }
    let start = instant_now();
    let mut frames: u64 = 0;
    loop
        invariant
            devices@.len() == n,
            stats@.len() == n,
            frames <= CAL_MAX_SAMPLES,
            forall|j: int|
                0 <= j < n ==> (#[trigger] stats@[j]).wf() && stats@[j].count <= frames,
        ensures
            devices@.len() == n,
            stats@.len() == n,
            forall|j: int| 0 <= j < n ==> (#[trigger] stats@[j]).wf(),
        decreases CAL_MAX_SAMPLES - frames,
    {
        if frames >= CAL_MAX_SAMPLES {
            break;
        }
        let elapsed = instant_elapsed(&start);
        if duration_as_secs(&elapsed) >= duration_secs {
            break;
        }
        let readings = Hx711::read_multiple(devices);
        accumulate_frame(&mut stats, &readings);
        frames = frames + 1;
    }
    stats
}

/// Fold one frame's per-channel results into the per-channel accumulators:
/// a successful reading is recorded on its own channel, a failed one leaves
/// its channel untouched.
pub fn accumulate_frame(stats: &mut Vec<ChannelStats>, readings: &Vec<Result<Reading, ChannelError>>)
    requires
        old(stats)@.len() == readings@.len(),
        forall|i: int|
            0 <= i < old(stats)@.len() ==> (#[trigger] old(stats)@[i]).wf() && old(
                stats,
            )@[i].count < CAL_MAX_SAMPLES,
        forall|i: int|
            0 <= i < readings@.len() ==> (#[trigger] readings@[i] matches Ok(v) ==> v.wf()),
    ensures
        final(stats)@.len() == old(stats)@.len(),
        forall|i: int| 0 <= i < final(stats)@.len() ==> (#[trigger] final(stats)@[i]).wf(),
        forall|i: int|
            0 <= i < final(stats)@.len() ==> final(stats)@[i].count <= old(stats)@[i].count + 1,
        forall|i: int|
            0 <= i < final(stats)@.len() ==> match #[trigger] readings@[i] {
                Ok(v) => final(stats)@[i].samples@ == old(stats)@[i].samples@.push(v.value as int),
                Err(_) => final(stats)@[i] == old(stats)@[i],
            },
{
    let n = stats.len();
    let mut i: usize = 0;
    while i < n
        invariant
            n == old(stats)@.len(),
            stats@.len() == n,
            readings@.len() == n,
            i <= n,
            forall|j: int|
                0 <= j < n ==> (#[trigger] old(stats)@[j]).wf() && old(stats)@[j].count
                    < CAL_MAX_SAMPLES,
            forall|j: int|
                0 <= j < n ==> (#[trigger] readings@[j] matches Ok(v) ==> v.wf()),
            forall|j: int| i <= j < n ==> #[trigger] stats@[j] == old(stats)@[j],
            forall|j: int| 0 <= j < i ==> (#[trigger] stats@[j]).wf(),
            forall|j: int| 0 <= j < i ==> #[trigger] stats@[j].count <= old(stats)@[j].count + 1,
            forall|j: int|
                0 <= j < i ==> match #[trigger] readings@[j] {
                    Ok(v) => stats@[j].samples@ == old(stats)@[j].samples@.push(v.value as int),
                    Err(_) => stats@[j] == old(stats)@[j],
                },
        decreases n - i,
    {
        match readings[i] {
            Ok(v) => {
                let mut st = stats[i];
                st.record(v);
                stats.set(i, st);
            },
            Err(_) => {},
        }
        i = i + 1;
    }
}

/// A window that saw only the constant reading `x` has `sum == count * x`
/// — its mean is exactly `x`, so the derived zero offset is exactly
/// `-x / gradient` — and a centered second moment of zero, so the derived
/// noise deviation is exactly zero.
pub proof fn lemma_constant_window(st: ChannelStats, x: int)
    requires
        st.wf(),
        forall|i: int| 0 <= i < st.samples@.len() ==> #[trigger] st.samples@[i] == x,
    ensures
        st.sum == st.count * x,
        st.count * st.sum_squares - st.sum * st.sum == 0,
{
    lemma_constant_sums(st.samples@, x);
    let c = st.count as int;
    assert(c * (c * (x * x)) - (c * x) * (c * x) == 0) by (nonlinear_arith);
}

/// Sums over a constant sequence collapse to products.
proof fn lemma_constant_sums(s: Seq<int>, x: int)
    requires
        forall|i: int| 0 <= i < s.len() ==> #[trigger] s[i] == x,
    ensures
        sum_of(s) == s.len() * x,
        sum_sq_of(s) == s.len() * (x * x),
    decreases s.len(),
{
    if s.len() == 0 {
    } else {
        lemma_constant_sums(s.drop_last(), x);
        assert((s.len() - 1) * x + x == s.len() * x) by (nonlinear_arith);
        assert((s.len() - 1) * (x * x) + x * x == s.len() * (x * x)) by (nonlinear_arith);
    }
}

} // verus!
