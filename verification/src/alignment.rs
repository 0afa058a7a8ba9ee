//! Estimating how far apart two capture devices started.
//!
//! After a reset the two devices begin to deliver samples at slightly
//! different instants. The offset is the number of samples by which the
//! stream of the leading device is ahead: positive when device B leads,
//! negative when device A leads. Discarding that many samples from the
//! leading device aligns the two streams.
//!
//! Two estimators are provided. [`poll_offset`] works from the instants at
//! which each device first reported data. [`cross_correlation_offset`] works
//! from a short window captured from both devices: each window is
//! normalised to full scale, and the offset is the lag at which the two
//! normalised windows correlate best.

use vstd::prelude::*;
use crate::config::{MAX_ALIGNMENT_TIMEOUT_NS, MAX_ALIGNMENT_WINDOW};
use crate::error::{Device, RecorderError};

verus! {

/// Nanoseconds in a second.
pub const NANOS_PER_SEC: u64 = 1_000_000_000;

/// The largest magnitude a normalised sample takes.
pub const FULL_SCALE: i16 = 32_767;

/// The absolute value of `x`.
pub open spec fn spec_abs(x: int) -> int {
    if x < 0 {
        -x
    } else {
        x
    }
}

/// The samples that fit in `dt_ns` nanoseconds at `sample_rate`, rounded to
/// the nearest whole number, halves upwards.
pub open spec fn spec_samples_in(dt_ns: int, sample_rate: int) -> int {
    (dt_ns * sample_rate + 500_000_000) / 1_000_000_000
}

/// The offset between a device A that was ready at `a_ready_ns` and a
/// device B that was ready at `b_ready_ns`: zero when both were ready at
/// the same instant, positive when B was ready first.
pub open spec fn spec_poll_offset(a_ready_ns: u64, b_ready_ns: u64, sample_rate: u32) -> int {
    if a_ready_ns >= b_ready_ns {
        spec_samples_in(a_ready_ns - b_ready_ns, sample_rate as int)
    } else {
        -spec_samples_in(b_ready_ns - a_ready_ns, sample_rate as int)
    }
}

/// What polling amounts to: the offset when both devices became ready no
/// further apart than the timeout, and a timeout otherwise. An offset is
/// never guessed for a device that did not report.
pub open spec fn spec_poll_outcome(
    a_ready_ns: Option<u64>,
    b_ready_ns: Option<u64>,
    sample_rate: u32,
    timeout_ns: u64,
) -> Result<i64, RecorderError> {
    match (a_ready_ns, b_ready_ns) {
        (Some(a), Some(b)) => if spec_abs(a - b) <= timeout_ns {
            Ok(spec_poll_offset(a, b, sample_rate) as i64)
        } else {
            Err(RecorderError::AlignmentTimeout)
        },
        _ => Err(RecorderError::AlignmentTimeout),
    }
}

/// The device whose stream is ahead, if any.
pub open spec fn spec_leading(offset: int) -> Option<Device> {
    if offset > 0 {
        Some(Device::B)
    } else if offset < 0 {
        Some(Device::A)
    } else {
        None
    }
}

/// The largest magnitude among the samples of `window`; zero for an empty
/// window.
pub open spec fn spec_peak(window: Seq<i16>) -> int
    decreases window.len(),
{
    if window.len() == 0 {
        0
    } else {
        let rest = spec_peak(window.drop_last());
        if spec_abs(window.last() as int) > rest {
            spec_abs(window.last() as int)
        } else {
            rest
        }
    }
}

/// `sample` scaled so that `peak` maps to full scale, rounded towards zero.
/// With a peak of zero the window is silent and stays so.
pub open spec fn spec_scaled(sample: i16, peak: int) -> int {
    if peak <= 0 {
        0
    } else if sample >= 0 {
        (sample * 32_767) / peak
    } else {
        -((-sample * 32_767) / peak)
    }
}

/// `window` with every sample scaled by the same factor, so that its
/// largest magnitude becomes full scale.
pub open spec fn spec_normalize(window: Seq<i16>) -> Seq<i16> {
    Seq::new(window.len(), |i: int| spec_scaled(window[i], spec_peak(window)) as i16)
}

/// What index `i` of `a` contributes to the correlation at `lag`: the
/// product with the sample of `b` that lies `lag` further on, if there is
/// one.
pub open spec fn spec_term(a: Seq<i16>, b: Seq<i16>, lag: int, i: int) -> int {
    if 0 <= i + lag < b.len() {
        a[i] * b[i + lag]
    } else {
        0
    }
}

/// The contributions of the first `k` indices of `a`.
pub open spec fn spec_correlation_upto(a: Seq<i16>, b: Seq<i16>, lag: int, k: int) -> int
    decreases k,
{
    if k <= 0 {
        0
    } else {
        spec_correlation_upto(a, b, lag, k - 1) + spec_term(a, b, lag, k - 1)
    }
}

/// The cross-correlation of `a` and `b` at `lag`: the sum of `a[i] * b[i +
/// lag]` over every `i` for which both samples exist.
pub open spec fn spec_correlation(a: Seq<i16>, b: Seq<i16>, lag: int) -> int {
    spec_correlation_upto(a, b, lag, a.len() as int)
}

/// Whether `lag` is one of the lags at which `a` and `b` overlap.
pub open spec fn lag_in_range(a: Seq<i16>, b: Seq<i16>, lag: int) -> bool {
    1 - a.len() <= lag <= b.len() - 1
}

/// Whether `first` is preferred over `second`: it correlates better, or as
/// well and is closer to zero, or as well and as close and is the positive
/// one of the two.
pub open spec fn preferred(a: Seq<i16>, b: Seq<i16>, first: int, second: int) -> bool {
    let c1 = spec_correlation(a, b, first);
    let c2 = spec_correlation(a, b, second);
    c1 > c2 || (c1 == c2 && (spec_abs(first) < spec_abs(second) || (spec_abs(first) == spec_abs(
        second,
    ) && first > second)))
}

/// Whether `lag` is the lag at which `a` and `b` correlate best: it is
/// preferred over every other lag in range.
pub open spec fn is_best_lag(a: Seq<i16>, b: Seq<i16>, lag: int) -> bool {
    &&& lag_in_range(a, b, lag)
    &&& forall|other: int|
        lag_in_range(a, b, other) && other != lag ==> #[trigger] preferred(a, b, lag, other)
}

/// The lag at which `a` and `b` correlate best.
pub open spec fn spec_best_lag(a: Seq<i16>, b: Seq<i16>) -> int {
    choose|lag: int| is_best_lag(a, b, lag)
}

/// What correlating two captured windows amounts to: a timeout when a
/// window is empty, a configuration error when one is longer than the
/// longest window allowed, and otherwise the best lag of the two windows
/// after each was normalised on its own.
pub open spec fn spec_cross_correlation_outcome(a: Seq<i16>, b: Seq<i16>) -> Result<
    i64,
    RecorderError,
> {
    if a.len() == 0 || b.len() == 0 {
        Err(RecorderError::AlignmentTimeout)
    } else if a.len() > MAX_ALIGNMENT_WINDOW || b.len() > MAX_ALIGNMENT_WINDOW {
        Err(RecorderError::InvalidConfig)
    } else {
        Ok(spec_best_lag(spec_normalize(a), spec_normalize(b)) as i64)
    }
}

/// No two lags are best.
pub proof fn lemma_best_lag_unique(a: Seq<i16>, b: Seq<i16>, first: int, second: int)
    requires
        is_best_lag(a, b, first),
        is_best_lag(a, b, second),
    ensures
        first == second,
{
    if first != second {
        assert(preferred(a, b, first, second));
        assert(preferred(a, b, second, first));
    }
}

/// No sample is larger in magnitude than the peak of its window, and the
/// peak is the magnitude of some sample unless the window is empty.
pub proof fn lemma_peak_bounds(window: Seq<i16>)
    ensures
        0 <= spec_peak(window) <= 32_768,
        forall|i: int| 0 <= i < window.len() ==> spec_abs(#[trigger] window[i] as int) <= spec_peak(window),
        window.len() > 0 ==> exists|i: int|
            0 <= i < window.len() && spec_abs(#[trigger] window[i] as int) == spec_peak(window),
    decreases window.len(),
{
    if window.len() > 0 {
        let rest = window.drop_last();
        lemma_peak_bounds(rest);
        assert forall|i: int| 0 <= i < window.len() implies spec_abs(
            #[trigger] window[i] as int,
        ) <= spec_peak(window) by {
            if i < rest.len() {
                assert(rest[i] == window[i]);
            }
        }
        if spec_abs(window.last() as int) > spec_peak(rest) || rest.len() == 0 {
            assert(spec_abs(window[window.len() - 1] as int) == spec_peak(window));
        } else {
            let i = choose|i: int|
                0 <= i < rest.len() && spec_abs(#[trigger] rest[i] as int) == spec_peak(rest);
            assert(rest[i] == window[i]);
        }
    }
}

/// A scaled sample keeps its sign and stays within full scale as long as
/// the sample is no larger in magnitude than the peak.
pub proof fn lemma_scaled_bounds(sample: i16, peak: int)
    requires
        spec_abs(sample as int) <= peak <= 32_768,
    ensures
        -32_767 <= spec_scaled(sample, peak) <= 32_767,
        sample >= 0 ==> spec_scaled(sample, peak) >= 0,
        sample <= 0 ==> spec_scaled(sample, peak) <= 0,
{
    if peak > 0 {
        let magnitude = spec_abs(sample as int);
        assert(0 <= (magnitude * 32_767) / peak <= 32_767) by (nonlinear_arith)
            requires
                0 <= magnitude <= peak,
                peak > 0,
        ;
    }
}

/// The offset between two devices from the instants, in nanoseconds on any
/// common clock, at which each first reported data after the reset; `None`
/// stands for a device that did not report within the timeout.
pub fn poll_offset(
    a_ready_ns: Option<u64>,
    b_ready_ns: Option<u64>,
    sample_rate: u32,
    timeout_ns: u64,
) -> (r: Result<i64, RecorderError>)
    requires
        timeout_ns <= MAX_ALIGNMENT_TIMEOUT_NS,
    ensures
        r == spec_poll_outcome(a_ready_ns, b_ready_ns, sample_rate, timeout_ns),
        r matches Ok(offset) ==> a_ready_ns is Some && b_ready_ns is Some && offset
            == spec_poll_offset(a_ready_ns->0, b_ready_ns->0, sample_rate),
{
    match (a_ready_ns, b_ready_ns) {
        (Some(a), Some(b)) => {
            let b_first = a >= b;
            let dt: u64 = if b_first {
                a - b
            } else {
                b - a
            };
            if dt > timeout_ns {
                return Err(RecorderError::AlignmentTimeout);
            }
            assert(0 <= dt * sample_rate <= 3_600_000_000_000 * 0xffff_ffff) by (nonlinear_arith)
                requires
                    0 <= dt <= 3_600_000_000_000,
                    0 <= sample_rate <= 0xffff_ffff,
            ;
            let scaled: u128 = dt as u128 * sample_rate as u128;
            let samples: u128 = (scaled + 500_000_000) / 1_000_000_000;
            let magnitude = samples as i64;
            if b_first {
                Ok(magnitude)
            } else {
                Ok(-magnitude)
            }
        },
        _ => Err(RecorderError::AlignmentTimeout),
    }
}

/// The device whose stream is ahead by `offset`, if any: B for a positive
/// offset, A for a negative one.
pub fn leading_device(offset: i64) -> (device: Option<Device>)
    ensures
        device == spec_leading(offset as int),
{
    if offset > 0 {
        Some(Device::B)
    } else if offset < 0 {
        Some(Device::A)
    } else {
        None
    }
}

/// The samples to discard from the leading device: the magnitude of the
/// offset.
pub fn discard_count(offset: i64) -> (samples: u64)
    ensures
        samples == spec_abs(offset as int),
{
    if offset >= 0 {
        offset as u64
    } else if offset == i64::MIN {
        9_223_372_036_854_775_808
    } else {
        (-offset) as u64
    }
}

fn magnitude(sample: i16) -> (m: u16)
    ensures
        m == spec_abs(sample as int),
{
    if sample >= 0 {
        sample as u16
    } else {
        (-(sample as i32)) as u16
    }
}

/// The largest magnitude among the samples of `window`.
pub fn peak(window: &Vec<i16>) -> (p: u16)
    ensures
        p == spec_peak(window@),
{
    let mut p: u16 = 0;
    let mut i: usize = 0;
    assert(window@.take(0) =~= Seq::<i16>::empty());
    while i < window.len()
        invariant
            i <= window.len(),
            p == spec_peak(window@.take(i as int)),
        decreases window.len() - i,
    {
        assert(window@.take(i + 1).drop_last() =~= window@.take(i as int));
        let m = magnitude(window[i]);
        if m > p {
            p = m;
        }
        i = i + 1;
    }
    assert(window@.take(i as int) =~= window@);
    p
}

/// Scales `window` to full scale: every sample is multiplied by 32767 and
/// divided by the peak of the window, rounding towards zero.
pub fn normalize(window: &Vec<i16>) -> (scaled: Vec<i16>)
    ensures
        scaled@ == spec_normalize(window@),
        forall|i: int| 0 <= i < scaled@.len() ==> -32_767 <= #[trigger] scaled@[i] <= 32_767,
{
    let p = peak(window);
    let mut scaled: Vec<i16> = Vec::new();
    let mut i: usize = 0;
    proof {
        lemma_peak_bounds(window@);
    }
    while i < window.len()
        invariant
            i <= window.len(),
            p == spec_peak(window@),
            p <= 32_768,
            forall|k: int| 0 <= k < window.len() ==> spec_abs(#[trigger] window@[k] as int) <= p,
            scaled@.len() == i,
            forall|k: int| 0 <= k < i ==> #[trigger] scaled@[k] == spec_scaled(window@[k], p as int),
            forall|k: int| 0 <= k < i ==> -32_767 <= #[trigger] scaled@[k] <= 32_767,
        decreases window.len() - i,
    {
        let sample = window[i];
        proof {
            lemma_scaled_bounds(sample, p as int);
        }
        let value: i16 = if p == 0 {
            0
        } else {
            let m = magnitude(sample);
            assert(0 <= (m * 32_767) / (p as int) <= 32_767) by (nonlinear_arith)
                requires
                    0 <= m <= p,
                    p > 0,
            ;
            let q: u32 = (m as u32 * 32_767) / (p as u32);
            if sample >= 0 {
                q as i16
            } else {
                -(q as i16)
            }
        };
        scaled.push(value);
        i = i + 1;
    }
    assert(scaled@ =~= spec_normalize(window@));
    scaled
}

/// Every partial sum of a correlation is bounded by the number of terms
/// times the largest product of two samples.
pub proof fn lemma_correlation_bounds(a: Seq<i16>, b: Seq<i16>, lag: int, k: int)
    requires
        0 <= k <= a.len(),
    ensures
        -(k * 0x4000_0000) <= spec_correlation_upto(a, b, lag, k) <= k * 0x4000_0000,
    decreases k,
{
    if k > 0 {
        lemma_correlation_bounds(a, b, lag, k - 1);
        if 0 <= k - 1 + lag < b.len() {
            let x = a[k - 1] as int;
            let y = b[k - 1 + lag] as int;
            assert(-0x4000_0000 <= x * y <= 0x4000_0000) by (nonlinear_arith)
                requires
                    -32_768 <= x <= 32_767,
                    -32_768 <= y <= 32_767,
            ;
        }
    }
}

/// The cross-correlation of `a` and `b` at `lag`.
pub fn correlation(a: &Vec<i16>, b: &Vec<i16>, lag: i64) -> (c: i64)
    requires
        a.len() <= MAX_ALIGNMENT_WINDOW,
        b.len() <= MAX_ALIGNMENT_WINDOW,
        -(MAX_ALIGNMENT_WINDOW as int) <= lag <= MAX_ALIGNMENT_WINDOW,
    ensures
        c == spec_correlation(a@, b@, lag as int),
{
    let mut sum: i64 = 0;
    let mut i: usize = 0;
    while i < a.len()
        invariant
            i <= a.len(),
            a.len() <= MAX_ALIGNMENT_WINDOW,
            b.len() <= MAX_ALIGNMENT_WINDOW,
            -(MAX_ALIGNMENT_WINDOW as int) <= lag <= MAX_ALIGNMENT_WINDOW,
            sum == spec_correlation_upto(a@, b@, lag as int, i as int),
        decreases a.len() - i,
    {
        proof {
            lemma_correlation_bounds(a@, b@, lag as int, i as int);
            lemma_correlation_bounds(a@, b@, lag as int, i + 1);
        }
        let j: i64 = i as i64 + lag;
        if 0 <= j && j < b.len() as i64 {
            let x: i64 = a[i] as i64;
            let y: i64 = b[j as usize] as i64;
            assert(-0x4000_0000 <= x * y <= 0x4000_0000) by (nonlinear_arith)
                requires
                    -32_768 <= x <= 32_767,
                    -32_768 <= y <= 32_767,
            ;
            sum = sum + x * y;
        }
        i = i + 1;
    }
    sum
}

fn closer_to_zero(first: i64, second: i64) -> (r: bool)
    requires
        -(MAX_ALIGNMENT_WINDOW as int) <= first <= MAX_ALIGNMENT_WINDOW,
        -(MAX_ALIGNMENT_WINDOW as int) <= second <= MAX_ALIGNMENT_WINDOW,
    ensures
        r == (spec_abs(first as int) < spec_abs(second as int) || (spec_abs(first as int)
            == spec_abs(second as int) && first > second)),
{
    let m1 = if first < 0 {
        -first
    } else {
        first
    };
    let m2 = if second < 0 {
        -second
    } else {
        second
    };
    m1 < m2 || (m1 == m2 && first > second)
}

/// The lag at which `a` and `b` correlate best. Among lags that correlate
/// equally well the one closest to zero wins, and of two that are equally
/// close the positive one.
pub fn best_lag(a: &Vec<i16>, b: &Vec<i16>) -> (lag: i64)
    requires
        0 < a.len() <= MAX_ALIGNMENT_WINDOW,
        0 < b.len() <= MAX_ALIGNMENT_WINDOW,
    ensures
        is_best_lag(a@, b@, lag as int),
        lag == spec_best_lag(a@, b@),
{
    let lowest: i64 = 1 - a.len() as i64;
    let highest: i64 = b.len() as i64 - 1;
    let mut best: i64 = lowest;
    let mut best_value: i64 = correlation(a, b, lowest);
    let mut lag: i64 = lowest + 1;
    while lag <= highest
        invariant
            0 < a.len() <= MAX_ALIGNMENT_WINDOW,
            0 < b.len() <= MAX_ALIGNMENT_WINDOW,
            lowest == 1 - a.len(),
            highest == b.len() - 1,
            lowest <= best < lag <= highest + 1,
            best_value == spec_correlation(a@, b@, best as int),
            forall|other: int|
                lowest <= other < lag && other != best ==> #[trigger] preferred(
                    a@,
                    b@,
                    best as int,
                    other,
                ),
        decreases highest + 1 - lag,
    {
        let value = correlation(a, b, lag);
        let closer = closer_to_zero(lag, best);
        if value > best_value || (value == best_value && closer) {
            assert forall|other: int| lowest <= other < lag + 1 && other != lag implies #[trigger] preferred(
                a@,
                b@,
                lag as int,
                other,
            ) by {
                if other != best {
                    assert(preferred(a@, b@, best as int, other));
                }
            }
            best = lag;
            best_value = value;
        } else {
            assert(preferred(a@, b@, best as int, lag as int));
        }
        lag = lag + 1;
    }
    proof {
        assert(is_best_lag(a@, b@, best as int));
        lemma_best_lag_unique(a@, b@, best as int, spec_best_lag(a@, b@));
    }
    best
}

/// The offset between two devices from a window captured from each: each
/// window is normalised to full scale on its own, and the offset is the
/// lag at which the normalised windows correlate best.
///
/// Fails with `AlignmentTimeout` when a window is empty and with
/// `InvalidConfig` when one is longer than the longest window allowed.
pub fn cross_correlation_offset(a: &Vec<i16>, b: &Vec<i16>) -> (r: Result<i64, RecorderError>)
    ensures
        r == spec_cross_correlation_outcome(a@, b@),
        r matches Ok(offset) ==> is_best_lag(
            spec_normalize(a@),
            spec_normalize(b@),
            offset as int,
        ),
{
    if a.len() == 0 || b.len() == 0 {
        return Err(RecorderError::AlignmentTimeout);
    }
    if a.len() > MAX_ALIGNMENT_WINDOW || b.len() > MAX_ALIGNMENT_WINDOW {
        return Err(RecorderError::InvalidConfig);
    }
    let scaled_a = normalize(a);
    let scaled_b = normalize(b);
    Ok(best_lag(&scaled_a, &scaled_b))
}

} // verus!
