use audioproc::fixed::SCALE;
use audioproc::pitch::{DetectError, PitchCandidate, PitchResult};
use audioproc::processor::AudioFrameProcessor;

#[test]
fn new_processor_has_delay_enabled() {
    let p = AudioFrameProcessor::new(44_100, 1024);
    assert!(p.is_delay_enabled());
    assert_eq!(p.window_size(), 1024);
    assert_eq!(p.analysis_padding(), 512);
}

#[test]
fn disabled_delay_leaves_samples_unchanged() {
    let mut p = AudioFrameProcessor::new(44_100, 4);
    p.enable_delay(false);
    assert!(!p.is_delay_enabled());
    let mut buffer = vec![7i64, -3, 123_456, 0, 999_999];
    let expected = buffer.clone();
    let r = p.process_buffer(&mut buffer);
    assert!(r.is_ok());
    assert_eq!(buffer, expected);
}

#[test]
fn disabled_delay_is_identity_despite_history() {
    let mut p = AudioFrameProcessor::new(44_100, 2);
    // build up delay-line history first, with the effect enabled
    let mut warmup = vec![SCALE; 16];
    assert!(p.process_buffer(&mut warmup).is_ok());
    p.enable_delay(false);
    let mut buffer = vec![5i64, -5, 42];
    let expected = buffer.clone();
    assert!(p.process_buffer(&mut buffer).is_ok());
    assert_eq!(buffer, expected);
}

#[test]
fn enabled_delay_processes_in_place() {
    // the fresh ring is silent, so the first block is mixed with silence:
    // out = s * (1 - wet) + (s + 0 * feedback) * wet = s
    let mut p = AudioFrameProcessor::new(44_100, 2);
    let mut buffer = vec![SCALE, 0, 0];
    let q = p.process_buffer(&mut buffer).ok().unwrap();
    assert_eq!(buffer, vec![SCALE, 0, 0]);
    assert_eq!(q.samples, vec![SCALE, 0]);
    assert_eq!(q.sample_rate, 44_100);
    assert_eq!(q.power_threshold, 5_000_000);
    assert_eq!(q.clarity_threshold, 600_000);
}

#[test]
fn impulse_echo_returns_after_the_full_ring() {
    // delay capacity 8192, wet 0.5, feedback 0.78: a unit impulse echoes at
    // sample index 8192 with amplitude 0.78 * 0.5 = 0.39
    let mut p = AudioFrameProcessor::new(44_100, 4);
    let mut buffer = vec![0i64; 8193];
    buffer[0] = SCALE;
    assert!(p.process_buffer(&mut buffer).is_ok());
    assert_eq!(buffer[0], SCALE);
    for i in 1..8192 {
        assert_eq!(buffer[i], 0);
    }
    assert_eq!(buffer[8192], 390_000);
}

#[test]
fn short_buffer_error_is_surfaced() {
    let mut p = AudioFrameProcessor::new(44_100, 8);
    let mut buffer = vec![1i64, 2, 3];
    let r = p.process_buffer(&mut buffer);
    assert!(matches!(
        r,
        Err(DetectError::InsufficientSamples { expected: 8, actual: 3 })
    ));
}

#[test]
fn gate_candidate_uses_the_clarity_threshold() {
    let p = AudioFrameProcessor::new(44_100, 8);
    assert_eq!(p.gate_candidate(None), PitchResult::NoPitch);
    let weak = PitchCandidate { frequency: 220_000_000, clarity: 100_000 };
    assert_eq!(p.gate_candidate(Some(weak)), PitchResult::NoPitch);
    let clear = PitchCandidate { frequency: 220_000_000, clarity: 900_000 };
    assert_eq!(
        p.gate_candidate(Some(clear)),
        PitchResult::Pitch { frequency: 220_000_000 }
    );
}
