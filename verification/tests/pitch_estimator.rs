use audioproc::pitch::{
    DetectError, PitchCandidate, PitchEstimator, PitchResult, CLARITY_THRESHOLD, POWER_THRESHOLD,
};

#[test]
fn padding_is_half_the_window_even() {
    let e = PitchEstimator::new(44_100, 8);
    assert_eq!(e.analysis_padding(), 4);
    assert_eq!(e.window_size(), 8);
    assert_eq!(e.sample_rate(), 44_100);
}

#[test]
fn padding_is_half_the_window_odd() {
    let e = PitchEstimator::new(48_000, 9);
    assert_eq!(e.analysis_padding(), 4);
}

#[test]
fn short_buffer_is_rejected() {
    let e = PitchEstimator::new(44_100, 8);
    let buffer = vec![0i64; 5];
    let r = e.prepare(&buffer);
    assert!(matches!(
        r,
        Err(DetectError::InsufficientSamples { expected: 8, actual: 5 })
    ));
}

#[test]
fn empty_buffer_is_rejected() {
    let e = PitchEstimator::new(44_100, 4);
    let buffer: Vec<i64> = Vec::new();
    let r = e.prepare(&buffer);
    assert!(matches!(
        r,
        Err(DetectError::InsufficientSamples { expected: 4, actual: 0 })
    ));
}

#[test]
fn conforming_buffer_yields_the_analysis_window() {
    let e = PitchEstimator::new(44_100, 4);
    let buffer = vec![10i64, 20, 30, 40, 50, 60];
    let q = match e.prepare(&buffer) {
        Ok(q) => q,
        Err(_) => panic!("a conforming buffer was rejected"),
    };
    assert_eq!(q.samples, vec![10i64, 20, 30, 40]);
    assert_eq!(q.sample_rate, 44_100);
    assert_eq!(q.power_threshold, POWER_THRESHOLD);
    assert_eq!(q.clarity_threshold, CLARITY_THRESHOLD);
}

#[test]
fn exactly_window_sized_buffer_is_admitted() {
    let e = PitchEstimator::new(44_100, 3);
    let buffer = vec![1i64, 2, 3];
    assert!(e.prepare(&buffer).is_ok());
}

#[test]
fn no_candidate_gates_to_no_pitch() {
    let e = PitchEstimator::new(44_100, 8);
    assert_eq!(e.gate(None), PitchResult::NoPitch);
}

#[test]
fn low_clarity_candidate_is_discarded() {
    let e = PitchEstimator::new(44_100, 8);
    let c = PitchCandidate { frequency: 440_000_000, clarity: CLARITY_THRESHOLD - 1 };
    assert_eq!(e.gate(Some(c)), PitchResult::NoPitch);
}

#[test]
fn clear_candidate_is_accepted() {
    let e = PitchEstimator::new(44_100, 8);
    let c = PitchCandidate { frequency: 440_000_000, clarity: CLARITY_THRESHOLD };
    assert_eq!(
        e.gate(Some(c)),
        PitchResult::Pitch { frequency: 440_000_000 }
    );
}

#[test]
fn thresholds_hold_the_documented_defaults() {
    // 5.0 and 0.6 in fixed-point units
    assert_eq!(POWER_THRESHOLD, 5_000_000);
    assert_eq!(CLARITY_THRESHOLD, 600_000);
}
