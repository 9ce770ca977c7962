//! Sample handling: downmixing interleaved frames to mono, and loudness.
//!
//! A sample is a sixteen-bit value in units of `1 / FULL_SCALE`.

use vstd::prelude::*;

verus! {

/// Magnitude of a full-scale sample: samples are sixteen-bit values in units
/// of `1 / FULL_SCALE`.
pub const FULL_SCALE: u16 = 32768;

/// Number of mono samples gathered before one level reading is produced.
pub const WAVEFORM_WINDOW: usize = 800;

/// Integer division that rounds toward zero, for a positive divisor.
pub open spec fn trunc_div(a: int, b: int) -> int {
    if a >= 0 {
        a / b
    } else {
        -((-a) / b)
    }
}

/// Sum of the samples of `block` at positions `start..end`.
pub open spec fn range_sum(block: Seq<i16>, start: int, end: int) -> int
    decreases end - start,
{
    if start >= end {
        0
    } else {
        range_sum(block, start, end - 1) + block[end - 1]
    }
}

/// Number of frames in a block of `len` interleaved samples; a trailing
/// incomplete frame counts as one.
pub open spec fn frame_count(len: int, channels: int) -> int {
    (len + channels - 1) / channels
}

/// End of frame `k`: the next frame's start, or the end of the block.
pub open spec fn frame_end(len: int, channels: int, k: int) -> int {
    if (k + 1) * channels <= len {
        (k + 1) * channels
    } else {
        len
    }
}

/// The mono value of frame `k`: the sum of its samples divided by the
/// channel count, rounded toward zero.
pub open spec fn mono_at(block: Seq<i16>, channels: int, k: int) -> int {
    trunc_div(
        range_sum(block, k * channels, frame_end(block.len() as int, channels, k)),
        channels,
    )
}

/// The mono signal of an interleaved block.
pub open spec fn downmix_spec(block: Seq<i16>, channels: int) -> Seq<i16> {
    Seq::new(
        frame_count(block.len() as int, channels) as nat,
        |k: int| mono_at(block, channels, k) as i16,
    )
}

/// A sum of `n` 16-bit samples lies within `n` times the 16-bit range.
pub proof fn lemma_range_sum_bounds(block: Seq<i16>, start: int, end: int)
    requires
        0 <= start <= end <= block.len(),
    ensures
        -32768 * (end - start) <= range_sum(block, start, end) <= 32767 * (end - start),
    decreases end - start,
{
    if start < end {
        lemma_range_sum_bounds(block, start, end - 1);
    }
}

/// The quotient of a sum of at most `channels` samples stays a 16-bit value.
pub proof fn lemma_mono_in_range(sum: int, count: int, channels: int)
    requires
        0 <= count <= channels,
        channels > 0,
        -32768 * count <= sum <= 32767 * count,
    ensures
        -32768 <= trunc_div(sum, channels) <= 32767,
{
    if sum >= 0 {
        assert(sum / channels <= 32767) by (nonlinear_arith)
            requires
                0 <= sum <= 32767 * count,
                0 <= count <= channels,
                channels > 0,
        ;
        assert(sum / channels >= 0) by (nonlinear_arith)
            requires
                sum >= 0,
                channels > 0,
        ;
    } else {
        assert((-sum) / channels <= 32768) by (nonlinear_arith)
            requires
                0 < -sum <= 32768 * count,
                0 <= count <= channels,
                channels > 0,
        ;
        assert((-sum) / channels >= 0) by (nonlinear_arith)
            requires
                -sum > 0,
                channels > 0,
        ;
    }
}

/// The frame counter that has just passed the end of the block is the frame count.
pub proof fn lemma_frame_count(len: int, channels: int, k: int)
    requires
        channels > 0,
        len >= 0,
        k >= 0,
        k * channels >= len,
        k > 0 ==> (k - 1) * channels < len,
    ensures
        k == frame_count(len, channels),
{
    assert(k == (len + channels - 1) / channels) by (nonlinear_arith)
        requires
            channels > 0,
            len >= 0,
            k >= 0,
            k * channels >= len,
            k > 0 ==> (k - 1) * channels < len,
    ;
}

/// Averages each frame of an interleaved block into one mono sample.
///
/// A trailing frame with fewer samples than `channels` is still divided by
/// `channels`.
pub fn downmix(block: &[i16], channels: u16) -> (mono: Vec<i16>)
    requires
        channels > 0,
    ensures
        mono@ == downmix_spec(block@, channels as int),
{
    let n: usize = block.len();
    let ch: usize = channels as usize;
    let mut mono: Vec<i16> = Vec::new();
    let mut start: usize = 0;
    let ghost mut k: int = 0;
    while start < n
        invariant
            ch == channels,
            channels > 0,
            n == block@.len(),
            start <= n,
            k == mono@.len(),
            k >= 0,
            start == frame_end(n as int, ch as int, k - 1),
            k > 0 ==> (k - 1) * ch < n,
            forall|j: int| 0 <= j < k ==> mono@[j] == mono_at(block@, ch as int, j) as i16,
        decreases n - start,
    {
        proof {
            assert(k * ch == start) by (nonlinear_arith)
                requires
                    start < n,
                    start == frame_end(n as int, ch as int, k - 1),
                    ch > 0,
            ;
        }
        let end: usize = if n - start >= ch {
            start + ch
        } else {
            n
        };
        proof {
            assert((k + 1) * ch == start + ch) by (nonlinear_arith)
                requires
                    k * ch == start,
            ;
            assert(end == frame_end(n as int, ch as int, k));
        }
        let mut sum: i64 = 0;
        let mut j: usize = start;
        while j < end
            invariant
                start <= j <= end <= n,
                n == block@.len(),
                end - start <= 65535,
                sum == range_sum(block@, start as int, j as int),
            decreases end - j,
        {
            proof {
                lemma_range_sum_bounds(block@, start as int, j as int);
            }
            sum = sum + block[j] as i64;
            j = j + 1;
        }
        proof {
            lemma_range_sum_bounds(block@, start as int, end as int);
            lemma_mono_in_range(sum as int, end - start, ch as int);
        }
        let value: i64 = sum / (channels as i64);
        assert(value == trunc_div(sum as int, ch as int));
        mono.push(value as i16);
        proof {
            k = k + 1;
        }
        start = end;
    }
    proof {
        if k > 0 {
            assert(k * ch >= n) by (nonlinear_arith)
                requires
                    n == frame_end(n as int, ch as int, k - 1),
                    ch > 0,
                    (k - 1) * ch < n,
            ;
        }
        lemma_frame_count(n as int, ch as int, k);
        assert(mono@ =~= downmix_spec(block@, channels as int));
    }
    mono
}

/// Sum of the squares of all samples.
pub open spec fn sum_squares(samples: Seq<i16>) -> int
    decreases samples.len(),
{
    if samples.len() == 0 {
        0
    } else {
        sum_squares(samples.drop_last()) + samples.last() * samples.last()
    }
}

/// `root` is the integer square root of `value`, rounded down.
pub open spec fn is_floor_sqrt(root: int, value: int) -> bool {
    0 <= root && root * root <= value < (root + 1) * (root + 1)
}

/// The mean of the squared samples, rounded down.
pub open spec fn mean_square(samples: Seq<i16>) -> int {
    sum_squares(samples) / (samples.len() as int)
}

/// A recording counts as silent when it is empty or its root-mean-square
/// amplitude is below one millionth of full scale: the mean square is below
/// `10^-12` of `FULL_SCALE` squared.
pub open spec fn is_silent_spec(samples: Seq<i16>) -> bool {
    samples.len() == 0 || sum_squares(samples) * 1_000_000_000_000 < samples.len() * 1_073_741_824
}

/// The sum of squares is non-negative and at most `2^30` per sample.
pub proof fn lemma_sum_squares_bounds(samples: Seq<i16>)
    ensures
        0 <= sum_squares(samples) <= samples.len() * 1_073_741_824,
    decreases samples.len(),
{
    if samples.len() > 0 {
        lemma_sum_squares_bounds(samples.drop_last());
        let last: int = samples.last() as int;
        assert(0 <= last * last <= 1_073_741_824) by (nonlinear_arith)
            requires
                -32768 <= last <= 32767,
        ;
    }
}

/// Appending one sample adds its square to the sum.
pub proof fn lemma_sum_squares_push(samples: Seq<i16>, next: i16)
    ensures
        sum_squares(samples.push(next)) == sum_squares(samples) + next * next,
{
    assert(samples.push(next).drop_last() =~= samples);
}

/// A signal of zeros only is silent, whatever its length.
pub proof fn lemma_zero_signal_is_silent(samples: Seq<i16>)
    requires
        forall|i: int| 0 <= i < samples.len() ==> samples[i] == 0,
    ensures
        sum_squares(samples) == 0,
        is_silent_spec(samples),
    decreases samples.len(),
{
    if samples.len() > 0 {
        lemma_zero_signal_is_silent(samples.drop_last());
    }
}

/// A signal without a single zero sample is not silent: its
/// root-mean-square amplitude is at least one unit.
pub proof fn lemma_loud_signal_is_not_silent(samples: Seq<i16>)
    requires
        samples.len() > 0,
        forall|i: int| 0 <= i < samples.len() ==> samples[i] != 0,
    ensures
        sum_squares(samples) >= samples.len(),
        !is_silent_spec(samples),
    decreases samples.len(),
{
    let last: int = samples.last() as int;
    assert(last * last >= 1) by (nonlinear_arith)
        requires
            last != 0,
    ;
    if samples.len() > 1 {
        lemma_loud_signal_is_not_silent(samples.drop_last());
    } else {
        assert(samples.drop_last().len() == 0);
        assert(sum_squares(samples.drop_last()) == 0);
    }
    assert(sum_squares(samples) * 1_000_000_000_000 >= samples.len() * 1_073_741_824)
        by (nonlinear_arith)
        requires
            sum_squares(samples) >= samples.len(),
            samples.len() > 0,
    ;
}

/// Sum of the squares of all samples, as a machine integer.
pub fn sum_of_squares(samples: &[i16]) -> (total: u128)
    ensures
        total == sum_squares(samples@),
{
    let n: usize = samples.len();
    let mut total: u128 = 0;
    let mut i: usize = 0;
    while i < n
        invariant
            i <= n,
            n == samples@.len(),
            total == sum_squares(samples@.take(i as int)),
        decreases n - i,
    {
        let value: i64 = samples[i] as i64;
        proof {
            lemma_sum_squares_bounds(samples@.take(i as int));
            lemma_sum_squares_push(samples@.take(i as int), samples@[i as int]);
            assert(samples@.take(i as int).push(samples@[i as int]) =~= samples@.take(i + 1));
            assert(0 <= value * value <= 1_073_741_824) by (nonlinear_arith)
                requires
                    -32768 <= value <= 32767,
            ;
            assert(i * 1_073_741_824 + 1_073_741_824 <= u128::MAX) by (nonlinear_arith)
                requires
                    i <= usize::MAX,
                    usize::MAX <= 0xffff_ffff_ffff_ffff,
            ;
        }
        let square: i64 = value * value;
        total = total + square as u128;
        i = i + 1;
    }
    proof {
        assert(samples@.take(n as int) =~= samples@);
    }
    total
}

/// Whether a recording is silent: empty, or with a root-mean-square
/// amplitude below one millionth of full scale.
pub fn is_silent(samples: &[i16]) -> (silent: bool)
    ensures
        silent == is_silent_spec(samples@),
{
    let n: usize = samples.len();
    if n == 0 {
        return true;
    }
    let total: u128 = sum_of_squares(samples);
    let count: u128 = n as u128;
    if total >= count {
        proof {
            assert(total * 1_000_000_000_000 >= count * 1_073_741_824) by (nonlinear_arith)
                requires
                    total >= count,
                    count >= 0,
            ;
        }
        return false;
    }
    proof {
        assert(total * 1_000_000_000_000 <= u128::MAX) by (nonlinear_arith)
            requires
                0 <= total < count,
                count <= 0xffff_ffff_ffff_ffff,
        ;
        assert(count * 1_073_741_824 <= u128::MAX) by (nonlinear_arith)
            requires
                0 <= count <= 0xffff_ffff_ffff_ffff,
        ;
    }
    total * 1_000_000_000_000 < count * 1_073_741_824
}

/// Integer square root, rounded down, of a value up to `FULL_SCALE` squared.
pub fn floor_sqrt(value: u128) -> (root: u16)
    requires
        value <= 1_073_741_824,
    ensures
        is_floor_sqrt(root as int, value as int),
        root <= FULL_SCALE,
{
    let mut low: u32 = 0;
    let mut high: u32 = 32769;
    while high - low > 1
        invariant
            low < high <= 32769,
            low * low <= value < high * high,
        decreases high - low,
    {
        let mid: u32 = low + (high - low) / 2;
        proof {
            assert(mid * mid <= 32769 * 32769) by (nonlinear_arith)
                requires
                    0 <= mid <= 32769,
            ;
        }
        if (mid as u128) * (mid as u128) <= value {
            low = mid;
        } else {
            high = mid;
        }
    }
    low as u16
}

/// Root-mean-square level of a non-empty run of samples, in units of
/// `1 / FULL_SCALE`, never above `FULL_SCALE`.
pub fn rms_level(samples: &[i16]) -> (level: u16)
    requires
        samples@.len() > 0,
    ensures
        is_floor_sqrt(level as int, mean_square(samples@)),
        level <= FULL_SCALE,
{
    let total: u128 = sum_of_squares(samples);
    let count: u128 = samples.len() as u128;
    proof {
        lemma_sum_squares_bounds(samples@);
        assert(total / count <= 1_073_741_824) by (nonlinear_arith)
            requires
                0 <= total <= count * 1_073_741_824,
                count > 0,
        ;
    }
    floor_sqrt(total / count)
}

} // verus!
