//! Sample-rate conversion by linear interpolation.
//!
//! Positions are exact rationals: output sample `i` sits at source position
//! `i * source_rate / target_rate`, whose whole part picks the two
//! neighbouring source samples and whose remainder weighs them.

use vstd::prelude::*;
use crate::audio::trunc_div;

verus! {

/// Number of output samples for `len` input samples.
pub open spec fn resampled_len(len: int, source_rate: int, target_rate: int) -> int {
    (len * target_rate) / source_rate
}

/// Index of the source sample at or just before output sample `i`.
pub open spec fn source_index(i: int, source_rate: int, target_rate: int) -> int {
    (i * source_rate) / target_rate
}

/// Weight of the upper neighbour for output sample `i`, out of `target_rate`.
pub open spec fn source_weight(i: int, source_rate: int, target_rate: int) -> int {
    (i * source_rate) % target_rate
}

/// The value between `lower` and `upper` at `weight / scale` of the way,
/// rounded toward zero.
pub open spec fn interpolate(lower: int, upper: int, weight: int, scale: int) -> int {
    trunc_div(lower * (scale - weight) + upper * weight, scale)
}

/// Output sample `i`: interpolated between its two neighbours; the single
/// sample where the upper neighbour is missing; silence past the end.
pub open spec fn resample_at(samples: Seq<i16>, source_rate: int, target_rate: int, i: int) -> int {
    let idx = source_index(i, source_rate, target_rate);
    let weight = source_weight(i, source_rate, target_rate);
    if idx + 1 < samples.len() {
        interpolate(samples[idx] as int, samples[idx + 1] as int, weight, target_rate)
    } else if idx < samples.len() {
        samples[idx] as int
    } else {
        0
    }
}

/// The whole resampled signal.
pub open spec fn resample_spec(samples: Seq<i16>, source_rate: int, target_rate: int) -> Seq<i16> {
    if source_rate == target_rate {
        samples
    } else if samples.len() == 0 {
        Seq::empty()
    } else {
        Seq::new(
            resampled_len(samples.len() as int, source_rate, target_rate) as nat,
            |i: int| resample_at(samples, source_rate, target_rate, i) as i16,
        )
    }
}

/// Whether the rates can be used on a signal of `len` samples: the source
/// rate is positive unless nothing has to be computed, and the output length
/// fits the machine's index type.
pub open spec fn resample_fits(len: int, source_rate: int, target_rate: int) -> bool {
    source_rate == target_rate || len == 0 || (source_rate > 0 && resampled_len(
        len,
        source_rate,
        target_rate,
    ) <= usize::MAX)
}

/// An interpolated value lies between the two values it was taken from.
pub proof fn lemma_interpolate_between(lower: int, upper: int, weight: int, scale: int)
    requires
        0 <= weight < scale,
    ensures
        lower <= upper ==> lower <= interpolate(lower, upper, weight, scale) <= upper,
        upper <= lower ==> upper <= interpolate(lower, upper, weight, scale) <= lower,
{
    let mix = lower * (scale - weight) + upper * weight;
    let low = if lower <= upper { lower } else { upper };
    let high = if lower <= upper { upper } else { lower };
    assert(low * scale <= mix <= high * scale) by (nonlinear_arith)
        requires
            0 <= weight < scale,
            mix == lower * (scale - weight) + upper * weight,
            low == (if lower <= upper { lower } else { upper }),
            high == (if lower <= upper { upper } else { lower }),
    ;
    lemma_trunc_div_between(mix, low, high, scale);
}

/// Rounding toward zero keeps a quotient between whole bounds.
pub proof fn lemma_trunc_div_between(value: int, low: int, high: int, scale: int)
    requires
        scale > 0,
        low * scale <= value <= high * scale,
    ensures
        low <= trunc_div(value, scale) <= high,
{
    if value >= 0 {
        assert(value / scale <= high) by (nonlinear_arith)
            requires
                scale > 0,
                0 <= value <= high * scale,
        ;
        assert(low <= value / scale) by (nonlinear_arith)
            requires
                scale > 0,
                value >= 0,
                low * scale <= value,
        ;
    } else {
        assert(-((-value) / scale) <= high) by (nonlinear_arith)
            requires
                scale > 0,
                value < 0,
                value <= high * scale,
        ;
        assert(low <= -((-value) / scale)) by (nonlinear_arith)
            requires
                scale > 0,
                value < 0,
                low * scale <= value,
        ;
    }
}

/// Resampling to the rate a signal already has gives the signal back.
pub proof fn lemma_resample_same_rate(samples: Seq<i16>, rate: int)
    ensures
        resample_spec(samples, rate, rate) == samples,
{
}

/// For positive rates the output has `len * target_rate / source_rate`
/// samples, rounded down.
pub proof fn lemma_resample_len(samples: Seq<i16>, source_rate: int, target_rate: int)
    requires
        source_rate > 0,
        target_rate > 0,
    ensures
        resample_spec(samples, source_rate, target_rate).len() == resampled_len(
            samples.len() as int,
            source_rate,
            target_rate,
        ),
{
    let len = samples.len() as int;
    if source_rate == target_rate {
        assert((len * source_rate) / source_rate == len) by (nonlinear_arith)
            requires
                source_rate > 0,
        ;
    } else if len == 0 {
        assert((0 * target_rate) / source_rate == 0) by (nonlinear_arith)
            requires
                source_rate > 0,
        ;
    } else {
        assert((len * target_rate) / source_rate >= 0) by (nonlinear_arith)
            requires
                len >= 0,
                target_rate > 0,
                source_rate > 0,
        ;
    }
}

/// Every output sample that has both neighbours in the source lies between
/// them, bounds included.
pub proof fn lemma_resample_between(
    samples: Seq<i16>,
    source_rate: int,
    target_rate: int,
    i: int,
)
    requires
        source_rate > 0,
        target_rate > 0,
        source_rate != target_rate,
        0 <= i < resample_spec(samples, source_rate, target_rate).len(),
        source_index(i, source_rate, target_rate) + 1 < samples.len(),
    ensures
        ({
            let idx = source_index(i, source_rate, target_rate);
            let value = resample_spec(samples, source_rate, target_rate)[i];
            let lower = samples[idx];
            let upper = samples[idx + 1];
            (lower <= upper ==> lower <= value <= upper) && (upper <= lower ==> upper <= value
                <= lower)
        }),
{
    let idx = source_index(i, source_rate, target_rate);
    let weight = source_weight(i, source_rate, target_rate);
    assert(idx >= 0) by (nonlinear_arith)
        requires
            idx == (i * source_rate) / target_rate,
            i >= 0,
            source_rate > 0,
            target_rate > 0,
    ;
    assert(0 <= weight < target_rate) by (nonlinear_arith)
        requires
            weight == (i * source_rate) % target_rate,
            target_rate > 0,
    ;
    lemma_interpolate_between(samples[idx] as int, samples[idx + 1] as int, weight, target_rate);
}

/// Every output position below the output length falls on a source sample.
pub proof fn lemma_source_index_in_range(len: int, source_rate: int, target_rate: int, i: int)
    requires
        source_rate > 0,
        target_rate > 0,
        len >= 0,
        0 <= i < resampled_len(len, source_rate, target_rate),
    ensures
        0 <= source_index(i, source_rate, target_rate) < len,
{
    assert(0 <= (i * source_rate) / target_rate < len) by (nonlinear_arith)
        requires
            source_rate > 0,
            target_rate > 0,
            len >= 0,
            0 <= i < (len * target_rate) / source_rate,
    ;
}

/// Converts a mono signal from `source_rate` to `target_rate`.
///
/// Equal rates give the input back unchanged. Otherwise the output has
/// `len * target_rate / source_rate` samples, each interpolated linearly at
/// its exact position in the source.
pub fn resample(samples: &[i16], source_rate: u32, target_rate: u32) -> (output: Vec<i16>)
    requires
        resample_fits(samples@.len() as int, source_rate as int, target_rate as int),
    ensures
        output@ == resample_spec(samples@, source_rate as int, target_rate as int),
{
    let n: usize = samples.len();
    let mut output: Vec<i16> = Vec::new();
    if source_rate == target_rate {
        let mut k: usize = 0;
        while k < n
            invariant
                k <= n,
                n == samples@.len(),
                output@ == samples@.take(k as int),
            decreases n - k,
        {
            output.push(samples[k]);
            proof {
                assert(samples@.take(k as int).push(samples@[k as int]) =~= samples@.take(k + 1));
            }
            k = k + 1;
        }
        proof {
            assert(samples@.take(n as int) =~= samples@);
        }
        return output;
    }
    if n == 0 {
        return output;
    }
    let source: u128 = source_rate as u128;
    let target: u128 = target_rate as u128;
    let count: u128 = n as u128;
    proof {
        assert(count * target <= 0xffff_ffff_ffff_ffff * 0xffff_ffff) by (nonlinear_arith)
            requires
                0 <= count <= 0xffff_ffff_ffff_ffff,
                0 <= target <= 0xffff_ffff,
        ;
    }
    let output_len: usize = ((count * target) / source) as usize;
    let mut i: usize = 0;
    while i < output_len
        invariant
            i <= output_len,
            n == samples@.len(),
            n > 0,
            count == n,
            source == source_rate > 0,
            target == target_rate,
            source_rate != target_rate,
            output_len == resampled_len(n as int, source as int, target as int),
            output@.len() == i,
            forall|j: int|
                0 <= j < i ==> output@[j] == resample_at(
                    samples@,
                    source as int,
                    target as int,
                    j,
                ) as i16,
        decreases output_len - i,
    {
        proof {
            if target == 0 {
                assert((n * 0) / (source as int) == 0) by (nonlinear_arith)
                    requires
                        source > 0,
                ;
            }
            assert(i * source <= 0xffff_ffff_ffff_ffff * 0xffff_ffff) by (nonlinear_arith)
                requires
                    0 <= i <= 0xffff_ffff_ffff_ffff,
                    0 <= source <= 0xffff_ffff,
            ;
        }
        let position: u128 = (i as u128) * source;
        let idx: u128 = position / target;
        let weight: u128 = position % target;
        let value: i16 = if idx + 1 < count {
            let at: usize = idx as usize;
            let lower: i64 = samples[at] as i64;
            let upper: i64 = samples[at + 1] as i64;
            let w: i64 = weight as i64;
            let scale: i64 = target_rate as i64;
            proof {
                assert(-32768 * (scale - w) <= lower * (scale - w) <= 32767 * (scale - w))
                    by (nonlinear_arith)
                    requires
                        -32768 <= lower <= 32767,
                        0 <= w < scale,
                ;
                assert(-32768 * w <= upper * w <= 32767 * w) by (nonlinear_arith)
                    requires
                        -32768 <= upper <= 32767,
                        0 <= w < scale,
                ;
                lemma_interpolate_between(lower as int, upper as int, w as int, scale as int);
            }
            let mix: i64 = lower * (scale - w) + upper * w;
            (mix / scale) as i16
        } else if idx < count {
            samples[idx as usize]
        } else {
            0
        };
        output.push(value);
        i = i + 1;
    }
    proof {
        assert(output@ =~= resample_spec(samples@, source_rate as int, target_rate as int));
    }
    output
}

/// Resamples where the rates can be used, and reports where they cannot.
pub fn try_resample(samples: &[i16], source_rate: u32, target_rate: u32) -> (output: Option<
    Vec<i16>,
>)
    ensures
        resample_fits(samples@.len() as int, source_rate as int, target_rate as int)
            == output.is_some(),
        output.is_some() ==> output.unwrap()@ == resample_spec(
            samples@,
            source_rate as int,
            target_rate as int,
        ),
{
    if can_resample(samples.len(), source_rate, target_rate) {
        Some(resample(samples, source_rate, target_rate))
    } else {
        None
    }
}

/// Whether `resample` may be called on a signal of `len` samples.
pub fn can_resample(len: usize, source_rate: u32, target_rate: u32) -> (fits: bool)
    ensures
        fits == resample_fits(len as int, source_rate as int, target_rate as int),
{
    if source_rate == target_rate || len == 0 {
        return true;
    }
    if source_rate == 0 {
        return false;
    }
    proof {
        assert((len as int) * (target_rate as int) <= 0xffff_ffff_ffff_ffff * 0xffff_ffff)
            by (nonlinear_arith)
            requires
                0 <= len <= 0xffff_ffff_ffff_ffff,
                0 <= target_rate <= 0xffff_ffff,
        ;
    }
    let wanted: u128 = ((len as u128) * (target_rate as u128)) / (source_rate as u128);
    wanted <= usize::MAX as u128
}

} // verus!
