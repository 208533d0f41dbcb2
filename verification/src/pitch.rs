//! The contract around an external autocorrelation-based pitch detector.
//!
//! The numeric detector itself lives with the host; this module owns the
//! configuration (sample rate, analysis window size, derived padding) and the
//! acceptance thresholds, decides whether a buffer may be analyzed at all,
//! hands the host the exact analysis window and threshold parameters, and
//! turns the raw detector reading into a gated [`PitchResult`].

use vstd::prelude::*;
use crate::fixed::SCALE;

verus! {

/// Default minimum signal power below which a reading is noise: `5.0`.
pub const POWER_THRESHOLD: i64 = 5_000_000;

/// Default minimum clarity for an accepted pitch: `0.6`.
pub const CLARITY_THRESHOLD: i64 = 600_000;

/// Why a detection request was rejected.
#[derive(Clone, Copy, Debug, PartialEq, Eq, Structural)]
pub enum DetectError {
    /// The buffer is shorter than the analysis window the detector needs.
    InsufficientSamples { expected: usize, actual: usize },
}

/// The gated outcome of a detection: either no accepted pitch, or a
/// fundamental frequency in `SCALE` units of hertz.
#[derive(Clone, Copy, Debug, PartialEq, Eq, Structural)]
pub enum PitchResult {
    NoPitch,
    Pitch { frequency: i64 },
}

/// A raw detector reading: a candidate frequency and its clarity, both in
/// `SCALE` units.
#[derive(Clone, Copy, Debug, PartialEq, Eq, Structural)]
pub struct PitchCandidate {
    pub frequency: i64,
    pub clarity: i64,
}

/// Everything the host needs to run the external detector once: the analysis
/// window itself and the query parameters.
pub struct DetectorQuery {
    /// Exactly the first `window_size` samples of the submitted buffer.
    pub samples: Vec<i64>,
    /// Samples per second of the signal.
    pub sample_rate: usize,
    /// Minimum signal power, in `SCALE` units.
    pub power_threshold: i64,
    /// Minimum clarity, in `SCALE` units.
    pub clarity_threshold: i64,
}

/// Owns the detector configuration and thresholds and decides which raw
/// readings count as an accepted pitch.
pub struct PitchEstimator {
    sample_rate: usize,
    window_size: usize,
    analysis_padding: usize,
    power_threshold: i64,
    clarity_threshold: i64,
}

impl PitchEstimator {
    /// Samples per second the estimator was configured with.
    pub closed spec fn rate(self) -> int {
        self.sample_rate as int
    }

    /// The analysis block length the detector requires.
    pub closed spec fn window(self) -> int {
        self.window_size as int
    }

    /// The search margin the wrapped detector reserves.
    pub closed spec fn padding(self) -> int {
        self.analysis_padding as int
    }

    /// The power threshold handed to the detector.
    pub closed spec fn power_limit(self) -> int {
        self.power_threshold as int
    }

    /// The clarity a reading needs to be accepted.
    pub closed spec fn clarity_limit(self) -> int {
        self.clarity_threshold as int
    }

    /// Configuration invariant: positive rate and window, derived padding.
    pub open spec fn well_formed(self) -> bool {
        &&& self.rate() >= 1
        &&& self.window() >= 1
        &&& self.padding() == self.window() / 2
    }

    /// How a raw reading is gated: no candidate, or one whose clarity falls
    /// below the threshold, is no pitch; any other candidate is accepted.
    pub open spec fn gated(self, candidate: Option<PitchCandidate>) -> PitchResult {
        match candidate {
            Option::None => PitchResult::NoPitch,
            Option::Some(c) => if c.clarity >= self.clarity_limit() {
                PitchResult::Pitch { frequency: c.frequency }
            } else {
                PitchResult::NoPitch
            },
        }
    }

    /// Stores the configuration and derives the analysis padding as half the
    /// window (integer floor division).
    pub fn new(sample_rate: usize, window_size: usize) -> (e: PitchEstimator)
        requires
            sample_rate >= 1,
            window_size >= 1,
        ensures
            e.well_formed(),
            e.rate() == sample_rate,
            e.window() == window_size,
            e.padding() == window_size as int / 2,
            e.power_limit() == POWER_THRESHOLD,
            e.clarity_limit() == CLARITY_THRESHOLD,
    {
        PitchEstimator {
            sample_rate,
            window_size,
            analysis_padding: window_size / 2,
            power_threshold: POWER_THRESHOLD,
            clarity_threshold: CLARITY_THRESHOLD,
        }
    }

    /// The analysis block length the detector requires.
    pub fn window_size(&self) -> (n: usize)
        ensures
            n as int == self.window(),
    {
        self.window_size
    }

    /// The search margin the wrapped detector is constructed with.
    pub fn analysis_padding(&self) -> (n: usize)
        ensures
            n as int == self.padding(),
    {
        self.analysis_padding
    }

    /// Samples per second the estimator was configured with.
    pub fn sample_rate(&self) -> (n: usize)
        ensures
            n as int == self.rate(),
    {
        self.sample_rate
    }

    /// Admits or rejects a buffer for detection. A buffer shorter than the
    /// analysis window is a caller contract violation, rejected immediately
    /// and never retried; a conforming buffer yields the exact analysis
    /// window and the fixed thresholds for one detector run.
    pub fn prepare(&self, buffer: &Vec<i64>) -> (r: Result<DetectorQuery, DetectError>)
        ensures
            r is Ok <==> buffer@.len() >= self.window(),
            buffer@.len() < self.window() ==> r == Result::<DetectorQuery, DetectError>::Err(
                DetectError::InsufficientSamples {
                    expected: self.window() as usize,
                    actual: buffer@.len() as usize,
                },
            ),
            r is Ok ==> ({
                let q = r->Ok_0;
                &&& q.samples@ == buffer@.subrange(0, self.window())
                &&& q.sample_rate as int == self.rate()
                &&& q.power_threshold as int == self.power_limit()
                &&& q.clarity_threshold as int == self.clarity_limit()
            }),
    {
        if buffer.len() < self.window_size {
            return Err(DetectError::InsufficientSamples {
                expected: self.window_size,
                actual: buffer.len(),
            });
        }
        let mut samples: Vec<i64> = Vec::new();
        let mut i: usize = 0;
        while i < self.window_size
            invariant
                i <= self.window_size,
                self.window_size <= buffer@.len(),
                samples@.len() == i,
                forall|j: int| 0 <= j < i ==> samples@[j] == buffer@[j],
            decreases self.window_size - i,
        {
            samples.push(buffer[i]);
            i += 1;
        }
        proof {
            assert(samples@ =~= buffer@.subrange(0, self.window()));
        }
        Ok(DetectorQuery {
            samples,
            sample_rate: self.sample_rate,
            power_threshold: self.power_threshold,
            clarity_threshold: self.clarity_threshold,
        })
    }

    /// Translates a raw detector reading into the gated result: `NoPitch`
    /// for no candidate or one below the clarity threshold, otherwise the
    /// candidate's frequency.
    pub fn gate(&self, candidate: Option<PitchCandidate>) -> (r: PitchResult)
        ensures
            r == self.gated(candidate),
    {
        match candidate {
            None => PitchResult::NoPitch,
            Some(c) => {
                if c.clarity >= self.clarity_threshold {
                    PitchResult::Pitch { frequency: c.frequency }
                } else {
                    PitchResult::NoPitch
                }
            },
        }
    }
}

} // verus!
