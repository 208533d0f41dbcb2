use audioproc::delay::{ConstructionError, DelayLine};
use audioproc::fixed::SCALE;

#[test]
fn construction_rejects_zero_length() {
    let r = DelayLine::new(0, 0, 0);
    assert_eq!(r.err(), Some(ConstructionError::ZeroLength));
}

#[test]
fn fresh_line_is_silent_at_position_zero() {
    let d = DelayLine::new(5, 250_000, 100_000).unwrap();
    let snap = d.dump();
    assert_eq!(snap.length, 5);
    assert_eq!(snap.position, 0);
    assert_eq!(snap.samples, vec![0i64; 5]);
    assert_eq!(snap.wet, 250_000);
    assert_eq!(snap.feedback, 100_000);
}

#[test]
fn concrete_comb_case() {
    // length 4, wet 0.5, feedback 0.5, unit impulse then silence
    let mut d = DelayLine::new(4, SCALE / 2, SCALE / 2).unwrap();
    assert_eq!(d.process(SCALE), SCALE);
    assert_eq!(d.process(0), 0);
    assert_eq!(d.process(0), 0);
    assert_eq!(d.process(0), 0);
    assert_eq!(d.dump().position, 0);
    // fifth call reads the stored impulse back: 0.5 * 0.5 = 0.25
    assert_eq!(d.process(0), SCALE / 4);
}

#[test]
fn echo_is_wet_times_feedback() {
    // length 6, wet 0.25, feedback 0.78
    let mut d = DelayLine::new(6, 250_000, 780_000).unwrap();
    d.process(SCALE);
    for _ in 0..5 {
        assert_eq!(d.process(0), 0);
    }
    // the echo after one full trip: feedback * wet = 0.78 * 0.25 = 0.195
    assert_eq!(d.process(0), 195_000);
}

#[test]
fn position_wraps_after_length_calls() {
    let mut d = DelayLine::new(3, 0, 0).unwrap();
    assert_eq!(d.dump().position, 0);
    d.process(1);
    assert_eq!(d.dump().position, 1);
    d.process(2);
    assert_eq!(d.dump().position, 2);
    d.process(3);
    assert_eq!(d.dump().position, 0);
}

#[test]
fn dry_line_is_identity() {
    let mut d = DelayLine::new(2, 0, 900_000).unwrap();
    let inputs = [7i64, -3, 123_456, 0, i64::MAX, i64::MIN];
    for &s in inputs.iter() {
        assert_eq!(d.process(s), s);
    }
}

#[test]
fn runaway_feedback_saturates() {
    // feedback 2.0 on a fully wet one-sample ring: the stored sample grows
    // without bound and clamps at the i64 ceiling instead of wrapping
    let mut d = DelayLine::new(1, SCALE, 2 * SCALE).unwrap();
    let mut out: i64 = 0;
    for _ in 0..200 {
        out = d.process(SCALE);
    }
    assert_eq!(out, i64::MAX);
}
