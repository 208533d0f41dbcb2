//! The orchestrator the host talks to: owns one delay line and one pitch
//! estimator, a toggle for the delay effect, and an auxiliary phase
//! accumulator.
//!
//! Each `process_buffer` call optionally runs every sample through the delay
//! line in place, advances the phase accumulator once per sample, and then
//! admits the buffer for one run of the external pitch detector.

use vstd::prelude::*;
use vstd::pervasive::unreached;
use crate::fixed::{SCALE, sample_ints};
use crate::delay::{
    DelayLine, run_outputs, run_position, run_samples,
};
use crate::pitch::{
    PitchEstimator, PitchCandidate, PitchResult, DetectorQuery, DetectError, POWER_THRESHOLD,
    CLARITY_THRESHOLD,
};

verus! {

/// Fixed delay-line capacity, in samples: an audible echo at audio rates.
pub const DELAY_LENGTH: usize = 8192;

/// Default wet/dry mix fraction: one half.
pub const DELAY_WET: i64 = 500_000;

/// Default feedback attenuation coefficient: `0.78`.
pub const DELAY_FEEDBACK: i64 = 780_000;

/// Reference frequency, in hertz, of the auxiliary phase accumulator.
pub const REFERENCE_HZ: u64 = 440;

/// The per-sample phase advance: the fraction of one oscillator cycle (in
/// `SCALE` units) that the reference frequency covers per sample.
pub open spec fn phase_increment(rate: int) -> int {
    (REFERENCE_HZ as int * SCALE as int) / rate
}

/// One per-sample advance of the phase accumulator, wrapped into one cycle.
pub open spec fn step_phase(phase: int, rate: int) -> int {
    (phase + phase_increment(rate)) % (SCALE as int)
}

/// The phase accumulator after `n` samples.
pub open spec fn run_phase(phase: int, rate: int, n: nat) -> int
    decreases n,
{
    if n == 0 {
        phase
    } else {
        step_phase(run_phase(phase, rate, (n - 1) as nat), rate)
    }
}

/// The block processor the host drives: one owned [`DelayLine`], one owned
/// [`PitchEstimator`], a delay toggle, and the phase accumulator.
pub struct AudioFrameProcessor {
    sample_rate: usize,
    window_size: usize,
    phase: u64,
    delay_enabled: bool,
    delay: DelayLine,
    estimator: PitchEstimator,
}

impl AudioFrameProcessor {
    /// Samples per second of the host's stream.
    pub closed spec fn rate(self) -> int {
        self.sample_rate as int
    }

    /// The analysis block length the pitch detector requires.
    pub closed spec fn window(self) -> int {
        self.window_size as int
    }

    /// The phase accumulator, as a fraction of one cycle in `SCALE` units.
    pub closed spec fn phase_value(self) -> int {
        self.phase as int
    }

    /// Whether the delay effect is applied to the next buffer.
    pub closed spec fn delay_on(self) -> bool {
        self.delay_enabled
    }

    /// The owned delay line.
    pub closed spec fn delay_state(self) -> DelayLine {
        self.delay
    }

    /// The owned pitch estimator.
    pub closed spec fn estimator_state(self) -> PitchEstimator {
        self.estimator
    }

    /// Processor invariant: positive configuration, a phase within one
    /// cycle, a well-formed delay line, and an estimator configured with
    /// this processor's rate and window.
    pub open spec fn well_formed(self) -> bool {
        &&& self.rate() >= 1
        &&& self.window() >= 1
        &&& 0 <= self.phase_value() < SCALE
        &&& self.delay_state().well_formed()
        &&& self.estimator_state().well_formed()
        &&& self.estimator_state().rate() == self.rate()
        &&& self.estimator_state().window() == self.window()
    }

    /// Builds the processor: a silence-filled delay line with the fixed
    /// capacity and default wet/feedback settings, an estimator derived from
    /// the rate and window, phase zero, and the delay enabled.
    pub fn new(sample_rate: usize, window_size: usize) -> (p: AudioFrameProcessor)
        requires
            sample_rate >= 1,
            window_size >= 1,
        ensures
            p.well_formed(),
            p.rate() == sample_rate,
            p.window() == window_size,
            p.phase_value() == 0,
            p.delay_on(),
            p.delay_state().delay_len() == DELAY_LENGTH,
            p.delay_state().position() == 0,
            p.delay_state().wet_level() == DELAY_WET,
            p.delay_state().feedback_level() == DELAY_FEEDBACK,
            forall|i: int| 0 <= i < DELAY_LENGTH ==> p.delay_state().samples()[i] == 0,
            p.estimator_state().padding() == window_size as int / 2,
            p.estimator_state().power_limit() == POWER_THRESHOLD,
            p.estimator_state().clarity_limit() == CLARITY_THRESHOLD,
    {
        let delay = match DelayLine::new(DELAY_LENGTH, DELAY_WET, DELAY_FEEDBACK) {
            Ok(d) => d,
            Err(_) => unreached(),
        };
        AudioFrameProcessor {
            sample_rate,
            window_size,
            phase: 0,
            delay_enabled: true,
            delay,
            estimator: PitchEstimator::new(sample_rate, window_size),
        }
    }

    /// Sets the delay toggle; takes effect with the next `process_buffer`
    /// call and changes nothing else.
    pub fn enable_delay(&mut self, enabled: bool)
        ensures
            final(self).delay_on() == enabled,
            final(self).rate() == old(self).rate(),
            final(self).window() == old(self).window(),
            final(self).phase_value() == old(self).phase_value(),
            final(self).delay_state() == old(self).delay_state(),
            final(self).estimator_state() == old(self).estimator_state(),
            old(self).well_formed() ==> final(self).well_formed(),
    {
        self.delay_enabled = enabled;
    }

    /// Whether the delay effect is currently enabled.
    pub fn is_delay_enabled(&self) -> (b: bool)
        ensures
            b == self.delay_on(),
    {
        self.delay_enabled
    }

    /// The analysis block length the pitch detector requires.
    pub fn window_size(&self) -> (n: usize)
        ensures
            n as int == self.window(),
    {
        self.window_size
    }

    /// The search margin the external detector must be constructed with.
    pub fn analysis_padding(&self) -> (n: usize)
        ensures
            n as int == self.estimator_state().padding(),
    {
        self.estimator.analysis_padding()
    }

    /// Translates a raw detector reading into the gated result, by the owned
    /// estimator's thresholds.
    pub fn gate_candidate(&self, candidate: Option<PitchCandidate>) -> (r: PitchResult)
        ensures
            r == self.estimator_state().gated(candidate),
    {
        self.estimator.gate(candidate)
    }

    /// Processes one block in place: if the delay is enabled, every sample is
    /// replaced with the delay line's output for it; the phase accumulator
    /// advances once per sample either way. The buffer is then admitted for
    /// one detector run, which fails if and only if it is shorter than the
    /// analysis window.
    #[verifier::loop_isolation(false)]
    pub fn process_buffer(&mut self, buffer: &mut Vec<i64>) -> (r: Result<DetectorQuery, DetectError>)
        requires
            old(self).well_formed(),
        ensures
            final(self).well_formed(),
            final(self).rate() == old(self).rate(),
            final(self).window() == old(self).window(),
            final(self).delay_on() == old(self).delay_on(),
            final(self).estimator_state() == old(self).estimator_state(),
            final(buffer)@.len() == old(buffer)@.len(),
            final(self).phase_value() == run_phase(
                old(self).phase_value(),
                old(self).rate(),
                old(buffer)@.len(),
            ),
            old(self).delay_on() ==> ({
                let d0 = old(self).delay_state();
                let input = sample_ints(old(buffer)@);
                &&& sample_ints(final(buffer)@) == run_outputs(
                    d0.samples(), d0.position(), d0.wet_level(), d0.feedback_level(), input)
                &&& final(self).delay_state().samples() == run_samples(
                    d0.samples(), d0.position(), d0.feedback_level(), input)
                &&& final(self).delay_state().position() == run_position(
                    d0.position(), d0.delay_len(), input.len())
                &&& final(self).delay_state().delay_len() == d0.delay_len()
                &&& final(self).delay_state().wet_level() == d0.wet_level()
                &&& final(self).delay_state().feedback_level() == d0.feedback_level()
            }),
            !old(self).delay_on() ==> ({
                &&& final(buffer)@ == old(buffer)@
                &&& final(self).delay_state() == old(self).delay_state()
            }),
            r is Ok <==> old(buffer)@.len() >= old(self).window(),
            old(buffer)@.len() < old(self).window() ==> r == Result::<DetectorQuery, DetectError>::Err(
                DetectError::InsufficientSamples {
                    expected: old(self).window() as usize,
                    actual: old(buffer)@.len() as usize,
                },
            ),
            r is Ok ==> ({
                let q = r->Ok_0;
                &&& q.samples@ == final(buffer)@.subrange(0, old(self).window())
                &&& q.sample_rate as int == old(self).rate()
                &&& q.power_threshold as int == old(self).estimator_state().power_limit()
                &&& q.clarity_threshold as int == old(self).estimator_state().clarity_limit()
            }),
    {
        let ghost d0 = self.delay;
        let ghost input = sample_ints(buffer@);
        let inc: u64 = REFERENCE_HZ * (SCALE as u64) / (self.sample_rate as u64);
        proof {
            assert(inc as int == phase_increment(old(self).rate()));
        }
        let n: usize = buffer.len();
        let mut i: usize = 0;
        while i < n
            invariant
                i <= n,
                buffer@.len() == n,
                self.sample_rate == old(self).sample_rate,
                self.window_size == old(self).window_size,
                self.delay_enabled == old(self).delay_enabled,
                self.estimator == old(self).estimator,
                self.delay.well_formed(),
                self.delay.delay_len() == d0.delay_len(),
                self.delay.wet_level() == d0.wet_level(),
                self.delay.feedback_level() == d0.feedback_level(),
                forall|j: int| i <= j < n ==> buffer@[j] == old(buffer)@[j],
                self.phase as int == run_phase(old(self).phase_value(), old(self).rate(), i as nat),
                0 <= self.phase_value() < SCALE,
                old(self).delay_on() ==> ({
                    &&& self.delay.samples() == run_samples(
                        d0.samples(), d0.position(), d0.feedback_level(), input.take(i as int))
                    &&& self.delay.position() == run_position(d0.position(), d0.delay_len(), i as nat)
                    &&& sample_ints(buffer@.take(i as int)) == run_outputs(
                        d0.samples(), d0.position(), d0.wet_level(), d0.feedback_level(),
                        input.take(i as int))
                }),
                !old(self).delay_on() ==> buffer@ == old(buffer)@ && self.delay == d0,
            decreases n - i,
        {
            let ghost prev_buffer = buffer@;
            if self.delay_enabled {
                let s: i64 = buffer[i];
                let out: i64 = self.delay.process(s);
                buffer.set(i, out);
                proof {
                    assert(input.take(i + 1).drop_last() =~= input.take(i as int));
                    assert(input.take(i + 1).last() == input[i as int]);
                    assert(input[i as int] == s as int);
                    assert(d0.samples().len() == d0.delay_len());
                    assert(buffer@.take(i as int) =~= prev_buffer.take(i as int));
                    assert(sample_ints(buffer@.take(i + 1))
                        =~= sample_ints(prev_buffer.take(i as int)).push(out as int));
                }
            }
            self.phase = (self.phase + inc) % (SCALE as u64);
            i += 1;
        }
        proof {
            assert(input.take(n as int) =~= input);
            assert(buffer@.take(n as int) =~= buffer@);
        }
        self.estimator.prepare(buffer)
    }
}

} // verus!
