use plantwhispers::alignment::{
    best_lag, correlation, cross_correlation_offset, discard_count, leading_device, normalize,
    peak, poll_offset,
};
use plantwhispers::config::MAX_ALIGNMENT_WINDOW;
use plantwhispers::error::{Device, RecorderError};

const SECOND: u64 = 1_000_000_000;

fn noise(len: usize, seed: u64) -> Vec<i16> {
    let mut state = seed;
    let mut out = Vec::with_capacity(len);
    for _ in 0..len {
        state = state.wrapping_mul(6_364_136_223_846_793_005).wrapping_add(1_442_695_040_888_963_407);
        out.push(((state >> 33) as i64 % 20_001 - 10_000) as i16);
    }
    out
}

/// `signal` delayed by `d` samples within a window of the same length; a
/// negative `d` advances it. Samples without a source are silent.
fn delayed(signal: &[i16], d: i64) -> Vec<i16> {
    let n = signal.len() as i64;
    (0..n)
        .map(|i| {
            let j = i - d;
            if 0 <= j && j < n {
                signal[j as usize]
            } else {
                0
            }
        })
        .collect()
}

#[test]
fn poll_offset_is_zero_for_the_same_tick() {
    assert_eq!(poll_offset(Some(5), Some(5), 384_000, SECOND), Ok(0));
    assert_eq!(poll_offset(Some(0), Some(0), 384_000, SECOND), Ok(0));
    assert_eq!(poll_offset(Some(u64::MAX), Some(u64::MAX), 384_000, SECOND), Ok(0));
}

#[test]
fn poll_offset_is_elapsed_time_times_rate() {
    // One millisecond at 384 kHz is 384 samples.
    assert_eq!(poll_offset(Some(1_000_000), Some(0), 384_000, SECOND), Ok(384));
    assert_eq!(poll_offset(Some(0), Some(1_000_000), 384_000, SECOND), Ok(-384));
    assert_eq!(poll_offset(Some(7_000_000_123), Some(7_000_000_000), 384_000, SECOND), Ok(0));
    assert_eq!(poll_offset(Some(SECOND), Some(0), 384_000, SECOND), Ok(384_000));
    assert_eq!(poll_offset(Some(0), Some(SECOND), 48_000, SECOND), Ok(-48_000));
}

#[test]
fn poll_offset_rounds_to_the_nearest_sample() {
    // At 384 kHz one sample lasts 2604.17 ns.
    assert_eq!(poll_offset(Some(1_302), Some(0), 384_000, SECOND), Ok(0));
    assert_eq!(poll_offset(Some(1_303), Some(0), 384_000, SECOND), Ok(1));
    assert_eq!(poll_offset(Some(3_906), Some(0), 384_000, SECOND), Ok(1));
    assert_eq!(poll_offset(Some(3_907), Some(0), 384_000, SECOND), Ok(2));
    assert_eq!(poll_offset(Some(0), Some(1_303), 384_000, SECOND), Ok(-1));
    // Exactly half a sample rounds away from zero.
    assert_eq!(poll_offset(Some(500_000_000), Some(0), 1, SECOND), Ok(1));
    assert_eq!(poll_offset(Some(0), Some(500_000_000), 1, SECOND), Ok(-1));
    assert_eq!(poll_offset(Some(499_999_999), Some(0), 1, SECOND), Ok(0));
}

#[test]
fn poll_offset_times_out_without_readiness() {
    let timeout = Err(RecorderError::AlignmentTimeout);
    assert_eq!(poll_offset(None, None, 384_000, SECOND), timeout);
    assert_eq!(poll_offset(Some(1), None, 384_000, SECOND), timeout);
    assert_eq!(poll_offset(None, Some(1), 384_000, SECOND), timeout);
}

#[test]
fn poll_offset_times_out_beyond_the_window() {
    let timeout = Err(RecorderError::AlignmentTimeout);
    assert_eq!(poll_offset(Some(SECOND + 1), Some(0), 384_000, SECOND), timeout);
    assert_eq!(poll_offset(Some(0), Some(SECOND + 1), 384_000, SECOND), timeout);
    assert_eq!(poll_offset(Some(0), Some(u64::MAX), 384_000, SECOND), timeout);
    assert_eq!(poll_offset(Some(10), Some(0), 384_000, 9), timeout);
    assert_eq!(poll_offset(Some(10), Some(0), 384_000, 10), Ok(0));
}

#[test]
fn poll_offset_holds_for_the_longest_timeout() {
    let hour = 3_600_000_000_000u64;
    assert_eq!(poll_offset(Some(hour), Some(0), u32::MAX, hour), Ok(15_461_882_262_000));
    assert_eq!(poll_offset(Some(0), Some(hour), u32::MAX, hour), Ok(-15_461_882_262_000));
}

#[test]
fn leading_device_follows_the_sign() {
    assert_eq!(leading_device(0), None);
    assert_eq!(leading_device(1), Some(Device::B));
    assert_eq!(leading_device(-1), Some(Device::A));
    assert_eq!(leading_device(i64::MAX), Some(Device::B));
    assert_eq!(leading_device(i64::MIN), Some(Device::A));
}

#[test]
fn discard_count_is_the_magnitude() {
    assert_eq!(discard_count(0), 0);
    assert_eq!(discard_count(384), 384);
    assert_eq!(discard_count(-384), 384);
    assert_eq!(discard_count(i64::MAX), 9_223_372_036_854_775_807);
    assert_eq!(discard_count(i64::MIN), 9_223_372_036_854_775_808);
}

#[test]
fn peak_is_the_largest_magnitude() {
    assert_eq!(peak(&vec![]), 0);
    assert_eq!(peak(&vec![0, 0]), 0);
    assert_eq!(peak(&vec![3, -7, 5]), 7);
    assert_eq!(peak(&vec![-3, 7, -5]), 7);
    assert_eq!(peak(&vec![i16::MIN, i16::MAX]), 32_768);
    assert_eq!(peak(&vec![i16::MAX, 1]), 32_767);
}

#[test]
fn normalize_maps_the_peak_to_full_scale() {
    assert_eq!(normalize(&vec![1, -2, 4]), vec![8_191, -16_383, 32_767]);
    assert_eq!(normalize(&vec![-4, 2]), vec![-32_767, 16_383]);
    assert_eq!(normalize(&vec![10, 5, -10]), vec![32_767, 16_383, -32_767]);
    assert_eq!(normalize(&vec![i16::MIN, i16::MAX, 1]), vec![-32_767, 32_766, 0]);
    assert_eq!(normalize(&vec![i16::MAX, -1]), vec![32_767, -1]);
}

#[test]
fn normalize_leaves_silence_silent() {
    assert_eq!(normalize(&vec![0, 0, 0]), vec![0, 0, 0]);
    assert_eq!(normalize(&vec![]), Vec::<i16>::new());
}

#[test]
fn correlation_sums_the_overlapping_products() {
    let a: Vec<i16> = vec![1, 2, 3];
    let b: Vec<i16> = vec![4, 5, 6];
    assert_eq!(correlation(&a, &b, 0), 4 + 10 + 18);
    assert_eq!(correlation(&a, &b, 1), 5 + 12);
    assert_eq!(correlation(&a, &b, 2), 6);
    assert_eq!(correlation(&a, &b, -1), 8 + 15);
    assert_eq!(correlation(&a, &b, -2), 12);
    assert_eq!(correlation(&a, &b, 3), 0);
    assert_eq!(correlation(&a, &b, -3), 0);
    assert_eq!(correlation(&vec![-32_768, -32_768], &vec![-32_768, -32_768], 0), 2_147_483_648);
    assert_eq!(correlation(&vec![-32_768], &vec![32_767], 0), -1_073_709_056);
}

#[test]
fn best_lag_finds_the_shift() {
    let a: Vec<i16> = vec![0, 0, 9, 0, 0, 0];
    let b: Vec<i16> = vec![0, 0, 0, 0, 9, 0];
    assert_eq!(best_lag(&a, &b), 2);
    assert_eq!(best_lag(&b, &a), -2);
    assert_eq!(best_lag(&a, &a), 0);
}

#[test]
fn best_lag_prefers_the_lag_closest_to_zero() {
    // Silence correlates equally at every lag.
    assert_eq!(best_lag(&vec![0; 8], &vec![0; 8]), 0);
    // Correlation 1 at lags 1 and -1: the positive one wins.
    assert_eq!(best_lag(&vec![0, 1, 0], &vec![1, 0, 1]), 1);
    // Correlation 1 at lags -2 and 1: the one closer to zero wins.
    assert_eq!(best_lag(&vec![0, 0, 1, 0], &vec![1, 0, 0, 1]), 1);
    assert_eq!(best_lag(&vec![0, 1, 0, 0], &vec![1, 0, 0, 1]), -1);
}

#[test]
fn best_lag_handles_windows_of_different_lengths() {
    assert_eq!(best_lag(&vec![5], &vec![0, 0, 0, 5]), 3);
    assert_eq!(best_lag(&vec![0, 0, 0, 5], &vec![5]), -3);
    assert_eq!(best_lag(&vec![1], &vec![1]), 0);
}

#[test]
fn estimator_recovers_a_known_delay() {
    let signal = noise(512, 7);
    for d in [0i64, 1, 2, 3, 17, 100, 200, -1, -2, -5, -64, -200] {
        let copy = delayed(&signal, d);
        let estimate = cross_correlation_offset(&signal, &copy).unwrap();
        assert!((estimate - d).abs() <= 1, "delay {} estimated as {}", d, estimate);
    }
}

#[test]
fn estimator_ignores_the_gain_of_either_channel() {
    let signal = noise(256, 99);
    let quiet: Vec<i16> = signal.iter().map(|s| s / 16).collect();
    for d in [0i64, 4, -9] {
        let estimate = cross_correlation_offset(&signal, &delayed(&quiet, d)).unwrap();
        assert!((estimate - d).abs() <= 1, "delay {} estimated as {}", d, estimate);
        let estimate = cross_correlation_offset(&quiet, &delayed(&signal, d)).unwrap();
        assert!((estimate - d).abs() <= 1, "delay {} estimated as {}", d, estimate);
    }
}

#[test]
fn estimator_finds_a_single_click() {
    let mut a: Vec<i16> = vec![0; 300];
    let mut b: Vec<i16> = vec![0; 300];
    a[100] = 12_000;
    b[137] = 900;
    assert_eq!(cross_correlation_offset(&a, &b), Ok(37));
    assert_eq!(cross_correlation_offset(&b, &a), Ok(-37));
}

#[test]
fn estimator_reports_zero_for_identical_windows() {
    for seed in 1..6u64 {
        let signal = noise(128, seed);
        assert_eq!(cross_correlation_offset(&signal, &signal), Ok(0));
    }
    assert_eq!(cross_correlation_offset(&vec![0; 64], &vec![0; 64]), Ok(0));
}

#[test]
fn estimator_needs_samples_from_both_devices() {
    let timeout = Err(RecorderError::AlignmentTimeout);
    assert_eq!(cross_correlation_offset(&vec![], &vec![1, 2]), timeout);
    assert_eq!(cross_correlation_offset(&vec![1, 2], &vec![]), timeout);
    assert_eq!(cross_correlation_offset(&vec![], &vec![]), timeout);
}

#[test]
fn estimator_refuses_windows_beyond_the_limit() {
    let long: Vec<i16> = vec![0; MAX_ALIGNMENT_WINDOW + 1];
    assert_eq!(cross_correlation_offset(&long, &vec![1]), Err(RecorderError::InvalidConfig));
    assert_eq!(cross_correlation_offset(&vec![1], &long), Err(RecorderError::InvalidConfig));
}

/// `signal` delayed by `d` samples inside a window long enough to hold all
/// of it.
fn padded(signal: &[i16], d: usize) -> Vec<i16> {
    let mut copy = vec![0i16; d];
    copy.extend_from_slice(signal);
    copy
}

#[test]
fn estimator_is_exact_when_the_copy_holds_the_whole_window() {
    let signal = noise(96, 2024);
    for d in [0usize, 1, 2, 7, 30, 96, 150] {
        let later = padded(&signal, d);
        assert_eq!(cross_correlation_offset(&signal, &later), Ok(d as i64));
        assert_eq!(cross_correlation_offset(&later, &signal), Ok(-(d as i64)));
    }
}

#[test]
fn estimator_prefers_the_smaller_shift_of_a_periodic_signal() {
    // A square wave of period four correlates with its copy delayed by four
    // as well as it can, but nothing beats the true delay.
    let wave: Vec<i16> = (0..32).map(|i| if i % 4 < 2 { 1_000 } else { -1_000 }).collect();
    let later = padded(&wave, 4);
    let found = cross_correlation_offset(&wave, &later).unwrap();
    assert!(found.abs() <= 4);
    let a = normalize(&wave);
    let b = normalize(&later);
    assert_eq!(correlation(&a, &b, found), correlation(&a, &b, 4));
    for lag in -31..36 {
        assert!(correlation(&a, &b, lag) <= correlation(&a, &b, 4));
    }
}
