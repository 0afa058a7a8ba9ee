//! What the correlation estimator finds when one window is a delayed copy
//! of the other.
//!
//! Correlating a window with a delayed copy of itself amounts to
//! correlating the window with itself at a shifted lag, and no lag makes a
//! window correlate with itself better than lag zero. So the correlation
//! with a delayed copy is largest at the delay, and the estimator returns
//! the delay unless another lag, closer to zero, correlates exactly as
//! well.

use vstd::prelude::*;
use crate::alignment::{
    is_best_lag, lag_in_range, lemma_peak_bounds, preferred, spec_abs, spec_best_lag,
    spec_correlation, spec_correlation_upto, spec_cross_correlation_outcome, spec_normalize,
    spec_peak, spec_scaled, spec_term,
};
use crate::config::MAX_ALIGNMENT_WINDOW;

verus! {

/// `signal` delayed by `delay` samples inside a window of `len` samples:
/// sample `j` of the window is sample `j - delay` of the signal, and
/// silence where the signal has no such sample.
pub open spec fn spec_delayed(signal: Seq<i16>, delay: int, len: nat) -> Seq<i16> {
    Seq::new(
        len,
        |j: int|
            if 0 <= j - delay < signal.len() {
                signal[j - delay]
            } else {
                0i16
            },
    )
}

/// The energy of the first `k` samples of `a`: the sum of their squares.
pub open spec fn spec_energy(a: Seq<i16>, k: int) -> int {
    spec_correlation_upto(a, a, 0, k)
}

/// Energy is never negative and never shrinks as samples are added.
pub proof fn lemma_energy_grows(a: Seq<i16>, j: int, k: int)
    requires
        0 <= j <= k <= a.len(),
    ensures
        0 <= spec_energy(a, j) <= spec_energy(a, k),
    decreases k,
{
    if k == 0 {
    } else if j == k {
        lemma_energy_grows(a, j - 1, k - 1);
        let x = a[k - 1] as int;
        assert(x * x >= 0) by (nonlinear_arith);
    } else {
        lemma_energy_grows(a, j, k - 1);
        let x = a[k - 1] as int;
        assert(x * x >= 0) by (nonlinear_arith);
    }
}

/// Twice the correlation of a window with itself at a lag that is not
/// negative stays below the energy of the samples on either side of the
/// products.
proof fn lemma_twice_forward(a: Seq<i16>, lag: int, k: int)
    requires
        0 <= lag,
        0 <= k <= a.len(),
    ensures
        ({
            let n = a.len() as int;
            let upper = if k + lag < n {
                k + lag
            } else {
                n
            };
            let lower = if lag < n {
                lag
            } else {
                n
            };
            2 * spec_correlation_upto(a, a, lag, k) <= spec_energy(a, k) + spec_energy(a, upper)
                - spec_energy(a, lower)
        }),
    decreases k,
{
    let n = a.len() as int;
    if k > 0 {
        lemma_twice_forward(a, lag, k - 1);
        let x = a[k - 1] as int;
        assert(x * x >= 0) by (nonlinear_arith);
        if k - 1 + lag < n {
            let y = a[k - 1 + lag] as int;
            assert(2 * (x * y) <= x * x + y * y) by (nonlinear_arith);
            assert(spec_term(a, a, 0, k - 1 + lag) == y * y);
            assert(spec_energy(a, k + lag) == spec_energy(a, k - 1 + lag) + y * y);
        }
    }
}

/// The same for a negative lag.
proof fn lemma_twice_backward(a: Seq<i16>, lag: int, k: int)
    requires
        lag < 0,
        0 <= k <= a.len(),
    ensures
        ({
            let reach = if k + lag > 0 {
                k + lag
            } else {
                0
            };
            2 * spec_correlation_upto(a, a, lag, k) <= spec_energy(a, k) + spec_energy(a, reach)
        }),
    decreases k,
{
    if k > 0 {
        lemma_twice_backward(a, lag, k - 1);
        let x = a[k - 1] as int;
        assert(x * x >= 0) by (nonlinear_arith);
        if k - 1 + lag >= 0 {
            let y = a[k - 1 + lag] as int;
            assert(2 * (x * y) <= x * x + y * y) by (nonlinear_arith);
            assert(spec_term(a, a, 0, k - 1 + lag) == y * y);
            assert(spec_energy(a, k + lag) == spec_energy(a, k - 1 + lag) + y * y);
        }
    }
}

/// A window correlates with itself at no lag better than at lag zero.
pub proof fn lemma_self_correlation_peaks_at_zero(a: Seq<i16>, lag: int)
    ensures
        spec_correlation(a, a, lag) <= spec_correlation(a, a, 0),
{
    let n = a.len() as int;
    if lag >= 0 {
        lemma_twice_forward(a, lag, n);
        let lower = if lag < n {
            lag
        } else {
            n
        };
        lemma_energy_grows(a, lower, n);
    } else {
        lemma_twice_backward(a, lag, n);
        let reach = if n + lag > 0 {
            n + lag
        } else {
            0
        };
        lemma_energy_grows(a, reach, n);
    }
}

/// Correlating a window with its delayed copy at `lag` is correlating the
/// window with itself at `lag - delay`, as long as the copy holds the whole
/// window.
pub proof fn lemma_correlation_with_later_copy(
    a: Seq<i16>,
    delay: int,
    len: nat,
    lag: int,
    k: int,
)
    requires
        0 <= delay,
        a.len() + delay <= len,
        0 <= k <= a.len(),
    ensures
        spec_correlation_upto(a, spec_delayed(a, delay, len), lag, k) == spec_correlation_upto(
            a,
            a,
            lag - delay,
            k,
        ),
    decreases k,
{
    if k > 0 {
        lemma_correlation_with_later_copy(a, delay, len, lag, k - 1);
        let b = spec_delayed(a, delay, len);
        let i = k - 1;
        if 0 <= i + lag < len {
            if 0 <= i + lag - delay < a.len() {
                assert(b[i + lag] == a[i + lag - delay]);
            } else {
                assert(b[i + lag] == 0);
            }
        }
        assert(spec_term(a, b, lag, i) == spec_term(a, a, lag - delay, i));
    }
}

/// Correlating the delayed copy of a window with the window at `lag` is
/// correlating the window with itself at `lag + delay`: the first `k`
/// samples of the copy contribute what the first `k - delay` samples of
/// the window contribute.
pub proof fn lemma_correlation_with_earlier_copy(
    b: Seq<i16>,
    delay: int,
    len: nat,
    lag: int,
    k: int,
)
    requires
        0 <= delay,
        b.len() + delay <= len,
        0 <= k <= len,
    ensures
        ({
            let reach = if k - delay < 0 {
                0
            } else if k - delay > b.len() {
                b.len() as int
            } else {
                k - delay
            };
            spec_correlation_upto(spec_delayed(b, delay, len), b, lag, k) == spec_correlation_upto(
                b,
                b,
                lag + delay,
                reach,
            )
        }),
    decreases k,
{
    if k > 0 {
        lemma_correlation_with_earlier_copy(b, delay, len, lag, k - 1);
        let a = spec_delayed(b, delay, len);
        let i = k - 1;
        if 0 <= i - delay < b.len() {
            assert(a[i] == b[i - delay]);
            assert(spec_term(a, b, lag, i) == spec_term(b, b, lag + delay, i - delay));
        } else {
            assert(a[i] == 0);
            assert(spec_term(a, b, lag, i) == 0);
        }
    }
}

/// A delayed copy of a window has the peak of the window.
pub proof fn lemma_delayed_keeps_peak(signal: Seq<i16>, delay: int, len: nat)
    requires
        0 <= delay,
        signal.len() + delay <= len,
    ensures
        spec_peak(spec_delayed(signal, delay, len)) == spec_peak(signal),
{
    let copy = spec_delayed(signal, delay, len);
    lemma_peak_bounds(signal);
    lemma_peak_bounds(copy);
    if len > 0 {
        let j = choose|j: int| 0 <= j < copy.len() && spec_abs(#[trigger] copy[j] as int) == spec_peak(copy);
        if 0 <= j - delay < signal.len() {
            assert(copy[j] == signal[j - delay]);
        }
        if signal.len() > 0 {
            let i = choose|i: int|
                0 <= i < signal.len() && spec_abs(#[trigger] signal[i] as int) == spec_peak(signal);
            assert(copy[i + delay] == signal[i]);
        }
    }
}

/// Normalising a delayed copy gives the delayed copy of the normalised
/// window.
pub proof fn lemma_normalize_delayed(signal: Seq<i16>, delay: int, len: nat)
    requires
        0 <= delay,
        signal.len() + delay <= len,
    ensures
        spec_normalize(spec_delayed(signal, delay, len)) == spec_delayed(
            spec_normalize(signal),
            delay,
            len,
        ),
{
    lemma_delayed_keeps_peak(signal, delay, len);
    let copy = spec_delayed(signal, delay, len);
    let peak = spec_peak(signal);
    assert(spec_scaled(0i16, peak) == 0);
    assert(spec_normalize(copy) =~= spec_delayed(spec_normalize(signal), delay, len));
}

/// Among the lags from the lowest in range up to `top` one is preferred
/// over every other.
proof fn lemma_best_lag_upto(a: Seq<i16>, b: Seq<i16>, top: int) -> (best: int)
    requires
        lag_in_range(a, b, top),
    ensures
        1 - a.len() <= best <= top,
        forall|other: int|
            1 - a.len() <= other <= top && other != best ==> #[trigger] preferred(
                a,
                b,
                best,
                other,
            ),
    decreases top + a.len(),
{
    if top == 1 - a.len() {
        top
    } else {
        let before = lemma_best_lag_upto(a, b, top - 1);
        if preferred(a, b, top, before) {
            assert forall|other: int| 1 - a.len() <= other <= top && other != top implies #[trigger] preferred(
                a,
                b,
                top,
                other,
            ) by {
                if other != before {
                    assert(preferred(a, b, before, other));
                }
            }
            top
        } else {
            assert(preferred(a, b, before, top));
            before
        }
    }
}

/// Two windows that are not empty have a best lag.
pub proof fn lemma_best_lag_exists(a: Seq<i16>, b: Seq<i16>)
    requires
        a.len() > 0,
        b.len() > 0,
    ensures
        is_best_lag(a, b, spec_best_lag(a, b)),
{
    let best = lemma_best_lag_upto(a, b, b.len() - 1);
    assert(is_best_lag(a, b, best));
}

/// Alignment of a later copy: when window B holds the whole of window A
/// delayed by `delay` samples, the correlation of the two is largest at
/// `delay`. The estimator returns a lag that correlates as well as the
/// delay and is no further from zero, which is the delay itself unless
/// such a lag exists; for a delay of zero it returns exactly zero.
pub proof fn lemma_later_copy_aligns(a: Seq<i16>, delay: int, len: nat)
    requires
        0 <= delay,
        0 < a.len(),
        a.len() + delay <= len <= MAX_ALIGNMENT_WINDOW,
    ensures
        ({
            let b = spec_delayed(a, delay, len);
            let scaled_a = spec_normalize(a);
            let scaled_b = spec_normalize(b);
            &&& forall|lag: int| #[trigger]
                spec_correlation(scaled_a, scaled_b, lag) <= spec_correlation(
                    scaled_a,
                    scaled_b,
                    delay,
                )
            &&& spec_cross_correlation_outcome(a, b) matches Ok(found)
            &&& spec_correlation(scaled_a, scaled_b, found as int) == spec_correlation(
                scaled_a,
                scaled_b,
                delay,
            )
            &&& spec_abs(found as int) <= delay
            &&& found != delay ==> spec_abs(found as int) < delay
        }),
{
    let b = spec_delayed(a, delay, len);
    let scaled_a = spec_normalize(a);
    let scaled_b = spec_normalize(b);
    let n = a.len() as int;
    lemma_normalize_delayed(a, delay, len);
    assert forall|lag: int| #[trigger]
        spec_correlation(scaled_a, scaled_b, lag) <= spec_correlation(
            scaled_a,
            scaled_b,
            delay,
        ) by {
        lemma_correlation_with_later_copy(scaled_a, delay, len, lag, n);
        lemma_correlation_with_later_copy(scaled_a, delay, len, delay, n);
        lemma_self_correlation_peaks_at_zero(scaled_a, lag - delay);
    }
    lemma_best_lag_exists(scaled_a, scaled_b);
    let best = spec_best_lag(scaled_a, scaled_b);
    assert(lag_in_range(scaled_a, scaled_b, delay));
    if best != delay {
        assert(preferred(scaled_a, scaled_b, best, delay));
    }
}

/// Alignment of an earlier copy: when window A holds the whole of window B
/// delayed by `delay` samples, so that B is ahead, the correlation of the
/// two is largest at minus `delay`. The estimator returns a lag that
/// correlates as well and is no further from zero, which is minus the
/// delay unless such a lag exists.
pub proof fn lemma_earlier_copy_aligns(b: Seq<i16>, delay: int, len: nat)
    requires
        0 <= delay,
        0 < b.len(),
        b.len() + delay <= len <= MAX_ALIGNMENT_WINDOW,
    ensures
        ({
            let a = spec_delayed(b, delay, len);
            let scaled_a = spec_normalize(a);
            let scaled_b = spec_normalize(b);
            &&& forall|lag: int| #[trigger]
                spec_correlation(scaled_a, scaled_b, lag) <= spec_correlation(
                    scaled_a,
                    scaled_b,
                    -delay,
                )
            &&& spec_cross_correlation_outcome(a, b) matches Ok(found)
            &&& spec_correlation(scaled_a, scaled_b, found as int) == spec_correlation(
                scaled_a,
                scaled_b,
                -delay,
            )
            &&& spec_abs(found as int) <= delay
            &&& found != -delay ==> spec_abs(found as int) < delay || found == delay
        }),
{
    let a = spec_delayed(b, delay, len);
    let scaled_a = spec_normalize(a);
    let scaled_b = spec_normalize(b);
    lemma_normalize_delayed(b, delay, len);
    assert forall|lag: int| #[trigger]
        spec_correlation(scaled_a, scaled_b, lag) <= spec_correlation(
            scaled_a,
            scaled_b,
            -delay,
        ) by {
        lemma_correlation_with_earlier_copy(scaled_b, delay, len, lag, len as int);
        lemma_correlation_with_earlier_copy(scaled_b, delay, len, -delay, len as int);
        lemma_self_correlation_peaks_at_zero(scaled_b, lag + delay);
    }
    lemma_best_lag_exists(scaled_a, scaled_b);
    let best = spec_best_lag(scaled_a, scaled_b);
    assert(lag_in_range(scaled_a, scaled_b, -delay));
    if best != -delay {
        assert(preferred(scaled_a, scaled_b, best, -delay));
    }
}

} // verus!
